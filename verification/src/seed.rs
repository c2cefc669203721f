//! From a signature of any length to a 32-byte seed.
//!
//! The seed is the SHA-256 digest of the signature bytes: one pass, no
//! truncation. The hash is computed by the `sha2` crate.

use crate::secret::zeroize_bytes;
use sha2::{Digest, Sha256};
use vstd::prelude::*;

verus! {

/// The SHA-256 digest of `data`, as the `sha2` crate computes it.
pub uninterp spec fn sha256_digest(data: Seq<u8>) -> Seq<u8>;

/// `Sha256::new`, `update` and `finalize` of the `sha2` crate, on one input:
/// the 32 bytes that come back are the SHA-256 digest of `data`.
#[verifier::external_body]
fn sha256(data: &[u8]) -> (digest: [u8; 32])
    ensures
        digest@ == sha256_digest(data@),
{
    let mut hasher = Sha256::new();
    hasher.update(data);
    hasher.finalize().into()
}

/// Derives the seed of a signature.
///
/// The result depends on the bytes of `signature` alone. The signature is
/// still in the caller's buffer afterwards: the caller erases it as soon as
/// this returns.
pub fn derive_seed(signature: &[u8]) -> (seed: [u8; 32])
    ensures
        seed@ == sha256_digest(signature@),
{
    sha256(signature)
}

/// Derives the seed of a signature and erases the signature.
///
/// The buffer is overwritten as soon as the hash is taken and is empty
/// afterwards: a signature that is still needed must not be handed in.
pub fn derive_seed_erasing(signature: &mut Vec<u8>) -> (seed: [u8; 32])
    ensures
        seed@ == sha256_digest(old(signature)@),
        final(signature)@ == Seq::<u8>::empty(),
{
    let seed = derive_seed(signature.as_slice());
    zeroize_bytes(signature);
    seed
}

/// Equal signatures have equal seeds: deriving twice from the same bytes
/// gives the same 32 bytes.
pub proof fn lemma_derive_seed_deterministic(first: Seq<u8>, second: Seq<u8>)
    requires
        first == second,
    ensures
        sha256_digest(first) == sha256_digest(second),
{
}

} // verus!
