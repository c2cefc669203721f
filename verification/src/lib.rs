//! Deterministic key material derived from one message signature.
//!
//! A device that can only sign messages acts as the root of trust: the
//! signature it returns for a fixed derivation path and message is hashed into
//! a 32-byte seed, and the seed feeds curve scalars, Ed25519 key pairs and
//! file-encryption identities.

pub mod codec;
pub mod error;
pub mod generator;
pub mod keys;
pub mod metadata;
pub mod path;
pub mod secret;
pub mod seed;
pub mod signature_generators;

pub use error::KeyError;
pub use generator::{
    RageIdentityGenerator, ScalarGenerator, SignatureToKeyGenerator, SshEd25519KeyGenerator,
};
pub use signature_generators::eth::trezor::TrezorGenerator;
