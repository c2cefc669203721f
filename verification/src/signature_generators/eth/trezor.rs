//! The signature source that is backed by a hardware signing device.
//!
//! The device itself is out of reach of this module. What is decided here is
//! what to ask of the device next, given what it reported last, and what to
//! store once it has signed. The caller talks to the device: it performs each
//! [`SignAction`] and reports the outcome as a [`DeviceEvent`].

use crate::codec::{signature_bytes, signature_text};
use crate::error::KeyError;
use crate::generator::{
    RageIdentityGenerator, ScalarGenerator, SignatureToKeyGenerator, SshEd25519KeyGenerator,
};
use crate::metadata::{json_object, json_object_text};
use crate::path::{is_valid_path, path_indices};
use crate::secret::{zero_seed, zeroize_optional_bytes, zeroize_seed, zeroize_text};
use vstd::prelude::*;
use vstd::string::StringSliceAdditionalSpecFns;
use vstd::utf8::encode_utf8;

pub use crate::codec::{signature_to_hex_bytes, signature_to_hex_string, Signature};
pub use crate::path::{bip32_path_to_vec, parse_bip32_path};

verus! {

/// The derivation path of a generator that was given none.
pub open spec fn default_path() -> Seq<char> {
    "m/44h/60h/11h/0/12"@
}

/// The message of a generator that has not signed yet.
pub open spec fn default_message() -> Seq<char> {
    "This is a default message for testing Ethereum signature functionality. It has no financial or operational implications."@
}

/// What a [`TrezorGenerator`] holds.
pub ghost struct GeneratorView {
    /// The derivation path, as text.
    pub path: Seq<char>,
    /// The message that was signed, or the default message before signing.
    pub message: Seq<char>,
    /// The raw signature, once signing has happened.
    pub signature: Option<Seq<u8>>,
    /// The seed buffer: all-zero until a seed is derived.
    pub seed: Seq<u8>,
}

/// A signature source backed by a hardware signing device.
///
/// It owns its signature and its seed; both are overwritten with zeros when
/// the generator is dropped.
pub struct TrezorGenerator {
    bip32_path: String,
    msg: String,
    signature: Option<Vec<u8>>,
    seed: [u8; 32],
}

impl View for TrezorGenerator {
    type V = GeneratorView;

    closed spec fn view(&self) -> GeneratorView {
        GeneratorView {
            path: self.bip32_path@,
            message: self.msg@,
            signature: match self.signature {
                Some(bytes) => Some(bytes@),
                None => None,
            },
            seed: self.seed@,
        }
    }
}

/// Collects the settings of a [`TrezorGenerator`] before it is built.
pub struct TrezorGeneratorBuilder {
    bip32_path: String,
    msg: String,
    signature: Option<Vec<u8>>,
}

impl TrezorGeneratorBuilder {
    /// The derivation path that the generator will have.
    pub closed spec fn path(&self) -> Seq<char> {
        self.bip32_path@
    }

    /// The message that the generator will have.
    pub closed spec fn message(&self) -> Seq<char> {
        self.msg@
    }

    /// The raw signature that the generator will have, if any.
    pub closed spec fn raw_signature(&self) -> Option<Seq<u8>> {
        match self.signature {
            Some(bytes) => Some(bytes@),
            None => None,
        }
    }

    /// Sets the derivation path.
    pub fn bip32_path(self, path: &str) -> (builder: Self)
        ensures
            builder.path() == path@,
            builder.message() == self.message(),
            builder.raw_signature() == self.raw_signature(),
    {
        TrezorGeneratorBuilder {
            bip32_path: path.to_owned(),
            msg: self.msg,
            signature: self.signature,
        }
    }

    /// Sets the message.
    pub fn msg(self, message: &str) -> (builder: Self)
        ensures
            builder.path() == self.path(),
            builder.message() == message@,
            builder.raw_signature() == self.raw_signature(),
    {
        TrezorGeneratorBuilder {
            bip32_path: self.bip32_path,
            msg: message.to_owned(),
            signature: self.signature,
        }
    }

    /// Sets the raw signature: `Some` for a generator that has signed, `None`
    /// for one that has not.
    pub fn signature(self, signature: Option<Vec<u8>>) -> (builder: Self)
        ensures
            builder.path() == self.path(),
            builder.message() == self.message(),
            builder.raw_signature() == match signature {
                Some(bytes) => Some(bytes@),
                None => None,
            },
    {
        TrezorGeneratorBuilder { bip32_path: self.bip32_path, msg: self.msg, signature }
    }

    /// Builds the generator. Its seed is not derived yet.
    pub fn build(self) -> (generator: TrezorGenerator)
        ensures
            generator@ == (GeneratorView {
                path: self.path(),
                message: self.message(),
                signature: self.raw_signature(),
                seed: zero_seed(),
            }),
    {
        let generator = TrezorGenerator {
            bip32_path: self.bip32_path,
            msg: self.msg,
            signature: self.signature,
            seed: [0u8; 32],
        };
        assert(generator.seed@ =~= zero_seed());
        generator
    }
}

impl Default for TrezorGeneratorBuilder {
    /// A builder with the default path `m/44h/60h/11h/0/12`, the default
    /// message and no signature.
    fn default() -> (builder: Self)
        ensures
            builder.path() == default_path(),
            builder.message() == default_message(),
            builder.raw_signature().is_none(),
    {
        TrezorGeneratorBuilder {
            bip32_path: "m/44h/60h/11h/0/12".to_owned(),
            msg: "This is a default message for testing Ethereum signature functionality. It has no financial or operational implications.".to_owned(),
            signature: None,
        }
    }
}

/// What the caller reports of the device.
#[derive(Clone, Copy, Debug, PartialEq, Eq)]
pub enum DeviceEvent {
    /// Nothing has been asked of the device yet.
    Start,
    /// The attached devices were counted.
    DevicesFound(usize),
    /// A session with the one attached device is open and initialised.
    SessionReady,
    /// The device signed the message.
    Signed(Signature),
    /// The device could not be talked to, or the request was refused on it.
    Failed,
}

/// What the caller is to do next.
#[derive(Debug, PartialEq, Eq)]
pub enum SignAction {
    /// Count the attached devices and report [`DeviceEvent::DevicesFound`].
    FindDevices,
    /// Connect to the one attached device, initialise a session and report
    /// [`DeviceEvent::SessionReady`].
    OpenSession,
    /// Ask the device to sign `message` with the key at `path` and report
    /// [`DeviceEvent::Signed`].
    SignMessage {
        /// The bytes to sign.
        message: Vec<u8>,
        /// The derivation path as an index list.
        path: Vec<u32>,
    },
    /// Signing is done; this is the signature as text.
    Done(String),
    /// Signing has failed; nothing more is to be asked of the device.
    Fail(KeyError),
}

/// What a [`SignAction`] holds.
pub ghost enum ActionView {
    /// See [`SignAction::FindDevices`].
    FindDevices,
    /// See [`SignAction::OpenSession`].
    OpenSession,
    /// See [`SignAction::SignMessage`].
    SignMessage {
        /// The bytes to sign.
        message: Seq<u8>,
        /// The derivation path as an index list.
        path: Seq<u32>,
    },
    /// See [`SignAction::Done`].
    Done(Seq<char>),
    /// See [`SignAction::Fail`].
    Fail(KeyError),
}

impl View for SignAction {
    type V = ActionView;

    open spec fn view(&self) -> ActionView {
        match *self {
            SignAction::FindDevices => ActionView::FindDevices,
            SignAction::OpenSession => ActionView::OpenSession,
            SignAction::SignMessage { message, path } => ActionView::SignMessage {
                message: message@,
                path: path@,
            },
            SignAction::Done(text) => ActionView::Done(text@),
            SignAction::Fail(e) => ActionView::Fail(e),
        }
    }
}

/// The next step of signing `message` with the key at `path`, given what the
/// device reported last.
///
/// Exactly one device must be attached: none is [`KeyError::DeviceNotFound`],
/// several are [`KeyError::MultipleDevices`]. The path is read once the
/// session is open, and a path that cannot be read is
/// [`KeyError::PathParse`]. A failure of the device is
/// [`KeyError::DeviceCommunication`]; nothing is tried again.
pub open spec fn next_action(path: Seq<u8>, message: Seq<u8>, event: DeviceEvent) -> ActionView {
    match event {
        DeviceEvent::Start => ActionView::FindDevices,
        DeviceEvent::DevicesFound(count) => if count == 0 {
            ActionView::Fail(KeyError::DeviceNotFound)
        } else if count == 1 {
            ActionView::OpenSession
        } else {
            ActionView::Fail(KeyError::MultipleDevices)
        },
        DeviceEvent::SessionReady => match path_indices(path) {
            Some(indices) => ActionView::SignMessage { message, path: indices },
            None => ActionView::Fail(KeyError::PathParse),
        },
        DeviceEvent::Signed(signature) => ActionView::Done(signature_text(signature)),
        DeviceEvent::Failed => ActionView::Fail(KeyError::DeviceCommunication),
    }
}

impl TrezorGenerator {
    /// The generator with everything erased: empty texts, no signature, an
    /// all-zero seed.
    pub open spec fn erased() -> GeneratorView {
        GeneratorView {
            path: Seq::<char>::empty(),
            message: Seq::<char>::empty(),
            signature: None,
            seed: zero_seed(),
        }
    }

    /// The derivation path.
    pub fn bip32_path(&self) -> (path: &str)
        ensures
            path@ == self@.path,
    {
        self.bip32_path.as_str()
    }

    /// The message that was signed, or the default message before signing.
    pub fn msg(&self) -> (message: &str)
        ensures
            message@ == self@.message,
    {
        self.msg.as_str()
    }

    /// One step of signing `msg` on the device.
    ///
    /// Given what the device reported last, this says what to do next; see
    /// [`next_action`]. When the device has signed, `msg` is recorded as the
    /// message of the generator and the signature comes back as text. No other
    /// event changes the generator.
    pub fn sign_msg_with_trezor(&mut self, msg: &str, event: &DeviceEvent) -> (action: SignAction)
        ensures
            action@ == next_action(encode_utf8(old(self)@.path), msg.spec_bytes(), *event),
            final(self)@ == if *event is Signed {
                GeneratorView { message: msg@, ..old(self)@ }
            } else {
                old(self)@
            },
    {
        match event {
            DeviceEvent::Start => SignAction::FindDevices,
            DeviceEvent::DevicesFound(count) => {
                if *count == 0 {
                    SignAction::Fail(KeyError::DeviceNotFound)
                } else if *count == 1 {
                    SignAction::OpenSession
                } else {
                    SignAction::Fail(KeyError::MultipleDevices)
                }
            },
            DeviceEvent::SessionReady => {
                match bip32_path_to_vec(self.bip32_path.as_str()) {
                    Ok(path) => SignAction::SignMessage { message: msg.as_bytes_vec(), path },
                    Err(e) => SignAction::Fail(e),
                }
            },
            DeviceEvent::Signed(signature) => {
                self.msg = msg.to_owned();
                SignAction::Done(signature_to_hex_string(signature))
            },
            DeviceEvent::Failed => SignAction::Fail(KeyError::DeviceCommunication),
        }
    }

    /// Overwrites everything the generator holds: the texts and the signature
    /// become empty, the seed all-zero.
    pub fn zeroize(&mut self)
        ensures
            final(self)@ == Self::erased(),
        opens_invariants none
        no_unwind
    {
        zeroize_text(&mut self.bip32_path);
        zeroize_text(&mut self.msg);
        zeroize_optional_bytes(&mut self.signature);
        zeroize_seed(&mut self.seed);
    }
}

impl Drop for TrezorGenerator {
    /// Erases the signature and the seed before the memory is released.
    fn drop(&mut self)
        ensures
            final(self)@ == Self::erased(),
        opens_invariants none
        no_unwind
    {
        self.zeroize();
    }
}

impl SignatureToKeyGenerator for TrezorGenerator {
    open spec fn spec_signature(&self) -> Option<Seq<u8>> {
        self@.signature
    }

    open spec fn spec_seed(&self) -> Seq<u8> {
        self@.seed
    }

    open spec fn spec_info(&self) -> Seq<char> {
        json_object_text("message"@, self@.message, "bip32_path"@, self@.path)
    }

    /// Builds the generator that signing `hint_message` at `path` leaves
    /// behind, from the signature that the device returned.
    ///
    /// It succeeds exactly on a valid path. The generator then holds the
    /// path, the message, and the canonical text of the signature as its raw
    /// signature; its seed is not derived yet.
    fn sign_with_bip32_path(path: &str, hint_message: &str, signed: &Signature) -> (generator:
        Result<Self, KeyError>)
        ensures
            match generator {
                Ok(g) => is_valid_path(path.spec_bytes()) && g@ == (GeneratorView {
                    path: path@,
                    message: hint_message@,
                    signature: Some(signature_bytes(*signed)),
                    seed: zero_seed(),
                }),
                Err(e) => e == KeyError::PathParse && !is_valid_path(path.spec_bytes()),
            },
    {
        match bip32_path_to_vec(path) {
            Ok(_) => Ok(
                TrezorGeneratorBuilder::default().bip32_path(path).msg(hint_message).signature(
                    Some(signature_to_hex_bytes(signed)),
                ).build(),
            ),
            Err(e) => Err(e),
        }
    }

    fn signature(&self) -> (signature: Result<Vec<u8>, KeyError>) {
        match &self.signature {
            Some(bytes) => Ok(bytes.clone()),
            None => Err(KeyError::NotYetSigned),
        }
    }

    /// The message and the derivation path as a JSON object.
    fn message_info_json(&self) -> (info: String) {
        json_object("message", self.msg.as_str(), "bip32_path", self.bip32_path.as_str())
    }

    fn seed_mut(&mut self) -> (seed: &mut [u8; 32]) {
        &mut self.seed
    }
}

impl ScalarGenerator for TrezorGenerator {

}

impl SshEd25519KeyGenerator for TrezorGenerator {

}

impl RageIdentityGenerator for TrezorGenerator {

}

} // verus!
