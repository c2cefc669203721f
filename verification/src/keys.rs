//! Key material that is computed from a seed: a curve scalar, an Ed25519 key
//! pair, and a file-encryption identity.
//!
//! The arithmetic and the key formats are those of the `curve25519-dalek`,
//! `ssh-key` and `age` crates. This module hands them the seed. It keeps a
//! scalar and a key pair as plain bytes, which are erased when the value is
//! dropped; an identity stays the value that `age` built.

use crate::error::KeyError;
use crate::secret::{zero_seed, zeroize_seed, zeroize_text};
use vstd::prelude::*;

verus! {

/// `age::ssh::Identity`: an SSH private key in the form that `age` decrypts with.
#[verifier::external_type_specification]
#[verifier::external_body]
pub struct ExIdentity(age::ssh::Identity);

/// `ssh_key::Error`: why `ssh-key` could not encode or decode a key.
#[verifier::external_type_specification]
#[verifier::external_body]
pub struct ExSshKeyError(ssh_key::Error);

/// `std::io::Error`: why `age` could not read an identity.
#[verifier::external_type_specification]
#[verifier::external_body]
pub struct ExIoError(std::io::Error);

/// The order of the prime-order subgroup of Curve25519:
/// 2^252 + 27742317777372353535851937790883648493.
pub open spec fn group_order() -> nat {
    7237005577332262213973186563042994240857116359379907606001950938285454250989nat
}

/// The number that `bytes` spell, least significant byte first.
pub open spec fn le_value(bytes: Seq<u8>) -> nat
    decreases bytes.len(),
{
    if bytes.len() == 0 {
        0
    } else {
        bytes[0] as nat + 256 * le_value(bytes.drop_first())
    }
}

/// The Ed25519 public key that belongs to the private seed `seed`, as the
/// `ssh-key` crate expands it.
pub uninterp spec fn ed25519_public_key(seed: Seq<u8>) -> Seq<u8>;

/// The OpenSSH private-key text, with `\n` line ends and an empty comment,
/// of the Ed25519 key pair with the private seed `private` and the public key
/// `public`; `None` where `ssh-key` cannot encode it.
pub uninterp spec fn openssh_private_key(private: Seq<u8>, public: Seq<u8>) -> Option<Seq<char>>;

/// Whether `age` reads `key_text` as an SSH identity.
pub uninterp spec fn ssh_identity_accepts(key_text: Seq<char>) -> bool;

/// A scalar of Curve25519: 32 little-endian bytes of a number below the
/// group order.
pub struct Scalar {
    bytes: [u8; 32],
}

impl View for Scalar {
    type V = Seq<u8>;

    closed spec fn view(&self) -> Seq<u8> {
        self.bytes@
    }
}

impl Scalar {
    /// The number that the scalar stands for.
    pub open spec fn value(&self) -> nat {
        le_value(self@)
    }

    /// Whether the scalar is reduced: 32 bytes of a number below the group order.
    pub open spec fn is_canonical(&self) -> bool {
        self@.len() == 32 && self.value() < group_order()
    }

    /// The little-endian bytes of the scalar.
    pub fn to_bytes(&self) -> (bytes: [u8; 32])
        ensures
            bytes@ == self@,
    {
        self.bytes
    }

    /// Overwrites the scalar with zero.
    pub fn zeroize(&mut self)
        ensures
            final(self)@ == zero_seed(),
    {
        zeroize_seed(&mut self.bytes);
    }
}

/// What an Ed25519 key pair holds.
pub ghost struct KeypairView {
    /// The 32-byte private seed.
    pub private: Seq<u8>,
    /// The 32-byte public key.
    pub public: Seq<u8>,
}

/// An Ed25519 signing key pair: the private seed and its public key.
pub struct Ed25519Keypair {
    private: [u8; 32],
    public: [u8; 32],
}

impl View for Ed25519Keypair {
    type V = KeypairView;

    closed spec fn view(&self) -> KeypairView {
        KeypairView { private: self.private@, public: self.public@ }
    }
}

impl Ed25519Keypair {
    /// Whether the public key is the one that belongs to the private seed.
    pub open spec fn is_consistent(&self) -> bool {
        self@.public == ed25519_public_key(self@.private)
    }

    /// The private seed.
    pub fn private_bytes(&self) -> (bytes: &[u8; 32])
        ensures
            bytes@ == self@.private,
    {
        &self.private
    }

    /// The public key.
    pub fn public_bytes(&self) -> (bytes: &[u8; 32])
        ensures
            bytes@ == self@.public,
    {
        &self.public
    }

    /// Overwrites the private seed with zeros. The public key stays.
    pub fn zeroize(&mut self)
        ensures
            final(self)@.private == zero_seed(),
            final(self)@.public == old(self)@.public,
    {
        zeroize_seed(&mut self.private);
    }
}

impl Drop for Scalar {
    /// Erases the scalar before its memory is released.
    fn drop(&mut self)
        ensures
            final(self)@ == zero_seed(),
        opens_invariants none
        no_unwind
    {
        zeroize_seed(&mut self.bytes);
    }
}

impl Drop for Ed25519Keypair {
    /// Erases the private seed before its memory is released.
    fn drop(&mut self)
        ensures
            final(self)@.private == zero_seed(),
        opens_invariants none
        no_unwind
    {
        zeroize_seed(&mut self.private);
    }
}

/// `Scalar::from_bytes_mod_order` of `curve25519-dalek`, followed by
/// `Scalar::to_bytes`: the bytes that come back spell the number of `bytes`
/// reduced modulo the group order.
#[verifier::external_body]
fn reduce_mod_group_order(bytes: [u8; 32]) -> (reduced: [u8; 32])
    ensures
        le_value(reduced@) == le_value(bytes@) % group_order(),
{
    curve25519_dalek::scalar::Scalar::from_bytes_mod_order(bytes).to_bytes()
}

/// `Ed25519Keypair::from_seed` of `ssh-key`: the private key of the pair is the
/// seed itself, and its public key is the Ed25519 public key of that seed.
#[verifier::external_body]
fn expand_ed25519_seed(seed: &[u8; 32]) -> (pair: ([u8; 32], [u8; 32]))
    ensures
        pair.0@ == seed@,
        pair.1@ == ed25519_public_key(seed@),
{
    let pair = ssh_key::private::Ed25519Keypair::from_seed(seed);
    (pair.private.to_bytes(), pair.public.0)
}

/// `PrivateKey::from` and `PrivateKey::to_openssh` of `ssh-key`, on the key pair
/// with these private and public bytes: the OpenSSH text of the key with `\n`
/// line ends, or the error of `ssh-key`.
#[verifier::external_body]
fn encode_openssh(pair: &Ed25519Keypair) -> (text: Result<String, ssh_key::Error>)
    ensures
        match text {
            Ok(t) => openssh_private_key(pair@.private, pair@.public) == Some(t@),
            Err(_) => openssh_private_key(pair@.private, pair@.public).is_none(),
        },
{
    let key = ssh_key::PrivateKey::from(
        ssh_key::private::Ed25519Keypair {
            public: ssh_key::public::Ed25519PublicKey(pair.public),
            private: ssh_key::private::Ed25519PrivateKey::from_bytes(&pair.private),
        },
    );
    match key.to_openssh(ssh_key::LineEnding::LF) {
        Ok(mut text) => Ok(std::mem::take(&mut *text)),
        Err(e) => Err(e),
    }
}

/// `Identity::from_buffer` of `age`, on the bytes of `key_text` and with
/// `label` as the name of the key: whether an identity comes back depends on
/// the text alone.
#[verifier::external_body]
fn parse_ssh_identity(key_text: &str, label: String) -> (identity: Result<
    age::ssh::Identity,
    std::io::Error,
>)
    ensures
        identity.is_ok() == ssh_identity_accepts(key_text@),
{
    age::ssh::Identity::from_buffer(std::io::Cursor::new(key_text.as_bytes()), Some(label))
}

/// The scalar of a seed: the seed read as a little-endian number and reduced
/// modulo the group order.
pub fn scalar_from_seed(seed: &[u8; 32]) -> (scalar: Scalar)
    ensures
        scalar.is_canonical(),
        scalar.value() == le_value(seed@) % group_order(),
{
    Scalar { bytes: reduce_mod_group_order(*seed) }
}

/// The Ed25519 key pair of a seed. The seed is the private key as it stands;
/// it is not hashed again.
pub fn keypair_from_seed(seed: &[u8; 32]) -> (pair: Ed25519Keypair)
    ensures
        pair@.private == seed@,
        pair.is_consistent(),
{
    let (private, public) = expand_ed25519_seed(seed);
    Ed25519Keypair { private, public }
}

/// What identity construction yields, given the text that the key is
/// serialised to: an identity where there is a text and `age` accepts it.
pub open spec fn identity_is_built(key_text: Option<Seq<char>>) -> bool {
    match key_text {
        Some(text) => ssh_identity_accepts(text),
        None => false,
    }
}

/// Builds the encryption identity from a serialised private key and erases
/// the serialised key.
///
/// The text is handed to `age` together with `label`. Whether or not an
/// identity comes back, `key_text` is overwritten and empty afterwards. Text
/// that `age` does not accept is [`KeyError::IdentityConstruction`].
pub fn identity_from_key_text(key_text: &mut String, label: String) -> (identity: Result<
    age::ssh::Identity,
    KeyError,
>)
    ensures
        final(key_text)@ == Seq::<char>::empty(),
        match identity {
            Ok(_) => ssh_identity_accepts(old(key_text)@),
            Err(e) => e == KeyError::IdentityConstruction && !ssh_identity_accepts(old(key_text)@),
        },
{
    let parsed = parse_ssh_identity(key_text.as_str(), label);
    zeroize_text(key_text);
    match parsed {
        Ok(identity) => Ok(identity),
        Err(_) => Err(KeyError::IdentityConstruction),
    }
}

/// Serialises the key pair to OpenSSH text and builds the encryption identity
/// from it, under the name `label`. The text is erased before this returns.
/// A failure of either step is [`KeyError::IdentityConstruction`].
pub fn identity_from_keypair(pair: &Ed25519Keypair, label: String) -> (identity: Result<
    age::ssh::Identity,
    KeyError,
>)
    ensures
        match identity {
            Ok(_) => identity_is_built(openssh_private_key(pair@.private, pair@.public)),
            Err(e) => e == KeyError::IdentityConstruction && !identity_is_built(
                openssh_private_key(pair@.private, pair@.public),
            ),
        },
{
    match encode_openssh(pair) {
        Ok(mut key_text) => identity_from_key_text(&mut key_text, label),
        Err(_) => Err(KeyError::IdentityConstruction),
    }
}

} // verus!
