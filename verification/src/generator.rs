//! The capabilities of a signature source.
//!
//! The base capability, [`SignatureToKeyGenerator`], is to hold a signature
//! and to turn it into a seed. The others build on it and are independent of
//! each other, except that an encryption identity needs the Ed25519 key pair.
//! A source implements the base capability and opts into any of the others
//! with an empty `impl`.

use crate::codec::Signature;
use crate::error::KeyError;
use crate::keys::{
    ed25519_public_key, group_order, identity_from_keypair, identity_is_built, keypair_from_seed,
    le_value, openssh_private_key, scalar_from_seed, Ed25519Keypair, Scalar,
};
use crate::secret::{is_zero_seed, zero_seed, zeroize_seed};
use crate::seed::{derive_seed_erasing, sha256_digest};
use vstd::prelude::*;

verus! {

/// What asking for the signature yields: the stored signature, or
/// [`KeyError::NotYetSigned`] where none is stored.
pub open spec fn signature_outcome(signature: Option<Seq<u8>>) -> Result<Seq<u8>, KeyError> {
    match signature {
        Some(bytes) => Ok(bytes),
        None => Err(KeyError::NotYetSigned),
    }
}

/// What asking for the seed yields, given the stored signature and the stored
/// seed: the stored seed where it is not all-zero, else the seed derived from
/// the signature, else [`KeyError::NotYetSigned`].
///
/// An all-zero seed counts as "not derived yet". Should a signature ever hash
/// to 32 zero bytes, its seed is derived afresh on every request, with the
/// same result each time.
pub open spec fn seed_outcome(signature: Option<Seq<u8>>, seed: Seq<u8>) -> Result<
    Seq<u8>,
    KeyError,
> {
    if seed != zero_seed() {
        Ok(seed)
    } else {
        match signature {
            Some(bytes) => Ok(sha256_digest(bytes)),
            None => Err(KeyError::NotYetSigned),
        }
    }
}

/// The base capability: a source that holds a signature and a seed.
pub trait SignatureToKeyGenerator: Sized {
    /// The stored signature, if signing has happened.
    spec fn spec_signature(&self) -> Option<Seq<u8>>;

    /// The 32 bytes of the seed buffer; all-zero until a seed is derived.
    spec fn spec_seed(&self) -> Seq<u8>;

    /// The non-secret description of the source.
    spec fn spec_info(&self) -> Seq<char>;

    /// Builds a signed instance for the derivation path `path` from the
    /// signature that the source returned for `hint_message`.
    fn sign_with_bip32_path(path: &str, hint_message: &str, signed: &Signature) -> (generator:
        Result<Self, KeyError>)
        ensures
            generator matches Ok(g) ==> g.spec_signature().is_some() && g.spec_seed()
                == zero_seed(),
    ;

    /// A copy of the stored signature, or [`KeyError::NotYetSigned`] before
    /// signing. Never an empty or default value in place of a signature.
    fn signature(&self) -> (signature: Result<Vec<u8>, KeyError>)
        ensures
            match signature {
                Ok(bytes) => signature_outcome(self.spec_signature()) == Ok::<Seq<u8>, KeyError>(
                    bytes@,
                ),
                Err(e) => signature_outcome(self.spec_signature()) == Err::<Seq<u8>, KeyError>(e),
            },
    ;

    /// A description of the source for display and labelling. It is made of
    /// what is public, never of the signature or the seed.
    fn message_info_json(&self) -> (info: String)
        ensures
            info@ == self.spec_info(),
    ;

    /// Access to the seed buffer. Whatever is written through the reference is
    /// the stored seed afterwards; nothing else changes.
    fn seed_mut(&mut self) -> (seed: &mut [u8; 32])
        ensures
            seed@ == old(self).spec_seed(),
            final(self).spec_seed() == final(seed)@,
            final(self).spec_signature() == old(self).spec_signature(),
            final(self).spec_info() == old(self).spec_info(),
    ;

    /// The seed: the stored one where a seed was derived before, else the one
    /// derived now from the signature and stored.
    ///
    /// Asking again gives the same bytes and does not hash again. Before
    /// signing it fails with [`KeyError::NotYetSigned`] and changes nothing.
    fn get_generated_seed(&mut self) -> (seed: Result<&[u8; 32], KeyError>)
        ensures
            final(self).spec_signature() == old(self).spec_signature(),
            final(self).spec_info() == old(self).spec_info(),
            match seed {
                Ok(bytes) => seed_outcome(old(self).spec_signature(), old(self).spec_seed())
                    == Ok::<Seq<u8>, KeyError>(bytes@) && final(self).spec_seed() == bytes@,
                Err(e) => seed_outcome(old(self).spec_signature(), old(self).spec_seed())
                    == Err::<Seq<u8>, KeyError>(e) && final(self).spec_seed() == old(
                    self,
                ).spec_seed(),
            },
    {
        if is_zero_seed(self.seed_mut()) {
            match self.generate_seed_from_signature() {
                Ok(()) => {},
                Err(e) => {
                    return Err(e);
                },
            }
        }
        Ok(self.seed_mut())
    }

    /// Derives the seed from the stored signature and stores it.
    ///
    /// The copy of the signature that is hashed is erased as soon as the hash
    /// is taken. Before signing it fails with [`KeyError::NotYetSigned`] and
    /// changes nothing.
    fn generate_seed_from_signature(&mut self) -> (done: Result<(), KeyError>)
        ensures
            final(self).spec_signature() == old(self).spec_signature(),
            final(self).spec_info() == old(self).spec_info(),
            match done {
                Ok(_) => old(self).spec_signature() matches Some(bytes) && final(self).spec_seed()
                    == sha256_digest(bytes),
                Err(e) => e == KeyError::NotYetSigned && old(self).spec_signature().is_none()
                    && final(self).spec_seed() == old(self).spec_seed(),
            },
    {
        match self.signature() {
            Ok(mut signature) => {
                let mut seed = derive_seed_erasing(&mut signature);
                let stored = self.seed_mut();
                *stored = seed;
                zeroize_seed(&mut seed);
                Ok(())
            },
            Err(e) => Err(e),
        }
    }
}

/// The capability to produce a curve scalar.
pub trait ScalarGenerator: SignatureToKeyGenerator {
    /// The scalar of the seed: the seed as a little-endian number, reduced
    /// modulo the group order. Fails only where the seed cannot be had.
    fn generate_scalar(&mut self) -> (scalar: Result<Scalar, KeyError>)
        ensures
            final(self).spec_signature() == old(self).spec_signature(),
            final(self).spec_info() == old(self).spec_info(),
            match scalar {
                Ok(k) => seed_outcome(old(self).spec_signature(), old(self).spec_seed())
                    matches Ok(seed) && final(self).spec_seed() == seed && k.is_canonical()
                    && k.value() == le_value(seed) % group_order(),
                Err(e) => seed_outcome(old(self).spec_signature(), old(self).spec_seed())
                    == Err::<Seq<u8>, KeyError>(e) && final(self).spec_seed() == old(
                    self,
                ).spec_seed(),
            },
    {
        match self.get_generated_seed() {
            Ok(seed) => Ok(scalar_from_seed(seed)),
            Err(e) => Err(e),
        }
    }
}

/// The capability to produce an Ed25519 signing key pair.
pub trait SshEd25519KeyGenerator: SignatureToKeyGenerator {
    /// The key pair of the seed. The seed is the private key as it stands.
    /// Fails only where the seed cannot be had.
    fn generate_ssh_key_pair_from_signature(&mut self) -> (pair: Result<Ed25519Keypair, KeyError>)
        ensures
            final(self).spec_signature() == old(self).spec_signature(),
            final(self).spec_info() == old(self).spec_info(),
            match pair {
                Ok(p) => seed_outcome(old(self).spec_signature(), old(self).spec_seed())
                    matches Ok(seed) && final(self).spec_seed() == seed && p@.private == seed
                    && p.is_consistent(),
                Err(e) => seed_outcome(old(self).spec_signature(), old(self).spec_seed())
                    == Err::<Seq<u8>, KeyError>(e) && final(self).spec_seed() == old(
                    self,
                ).spec_seed(),
            },
    {
        match self.get_generated_seed() {
            Ok(seed) => Ok(keypair_from_seed(seed)),
            Err(e) => Err(e),
        }
    }
}

/// The capability to produce a file-encryption identity.
pub trait RageIdentityGenerator: SshEd25519KeyGenerator + SignatureToKeyGenerator {
    /// The encryption identity of the Ed25519 key pair, named by the
    /// description of the source.
    ///
    /// The key pair is serialised to OpenSSH text, the identity is built from
    /// the text, and the text is erased before this returns, on success and on
    /// failure. Where the seed cannot be had the error is that of the seed;
    /// where serialising or building fails it is
    /// [`KeyError::IdentityConstruction`].
    fn generate_rage_identity(&mut self) -> (identity: Result<age::ssh::Identity, KeyError>)
        ensures
            final(self).spec_signature() == old(self).spec_signature(),
            final(self).spec_info() == old(self).spec_info(),
            match identity {
                Ok(_) => seed_outcome(old(self).spec_signature(), old(self).spec_seed())
                    matches Ok(seed) && final(self).spec_seed() == seed && identity_is_built(
                    openssh_private_key(seed, ed25519_public_key(seed)),
                ),
                Err(e) => match seed_outcome(old(self).spec_signature(), old(self).spec_seed()) {
                    Ok(seed) => e == KeyError::IdentityConstruction && final(self).spec_seed()
                        == seed && !identity_is_built(
                        openssh_private_key(seed, ed25519_public_key(seed)),
                    ),
                    Err(missing) => e == missing && final(self).spec_seed() == old(
                        self,
                    ).spec_seed(),
                },
            },
    {
        match self.generate_ssh_key_pair_from_signature() {
            Ok(pair) => {
                let label = self.message_info_json();
                identity_from_keypair(&pair, label)
            },
            Err(e) => Err(e),
        }
    }
}

/// Asking for the seed again gives the same bytes.
///
/// Once a request has yielded the seed `first`, that seed is stored. A later
/// request with the same signature yields `first` again. Unless `first` is
/// all-zero it does so from the stored seed alone: the signature is not
/// looked at, so nothing is hashed, whatever the signature has become.
pub proof fn lemma_seed_is_cached(
    signature: Option<Seq<u8>>,
    seed: Seq<u8>,
    first: Seq<u8>,
    later: Option<Seq<u8>>,
)
    requires
        seed_outcome(signature, seed) == Ok::<Seq<u8>, KeyError>(first),
    ensures
        seed_outcome(signature, first) == Ok::<Seq<u8>, KeyError>(first),
        first != zero_seed() ==> seed_outcome(later, first) == Ok::<Seq<u8>, KeyError>(first),
{
}

/// A source that never signed has neither a signature nor a seed to give:
/// both requests fail with [`KeyError::NotYetSigned`], and no all-zero
/// default is handed out in their place.
pub proof fn lemma_unsigned_access_fails<G: SignatureToKeyGenerator>(generator: G)
    requires
        generator.spec_signature().is_none(),
        generator.spec_seed() == zero_seed(),
    ensures
        signature_outcome(generator.spec_signature()) == Err::<Seq<u8>, KeyError>(
            KeyError::NotYetSigned,
        ),
        seed_outcome(generator.spec_signature(), generator.spec_seed()) == Err::<
            Seq<u8>,
            KeyError,
        >(KeyError::NotYetSigned),
{
}

} // verus!
