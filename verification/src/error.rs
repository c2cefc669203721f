//! The failures that key derivation and signing can report.

use vstd::prelude::*;

verus! {

/// Why a derivation or signing step did not produce its value.
///
/// Every failure is handed to the immediate caller; nothing is retried and
/// nothing aborts the process.
#[derive(Clone, Copy, Debug, PartialEq, Eq, Structural)]
pub enum KeyError {
    /// A signature, a seed or derived key material was asked for before any
    /// signature had been stored.
    NotYetSigned,
    /// No signing device is attached.
    DeviceNotFound,
    /// More than one signing device is attached; none is picked silently.
    MultipleDevices,
    /// The signing device could not be talked to, or the request was refused.
    DeviceCommunication,
    /// A segment of the derivation path is not a decimal 32-bit index.
    PathParse,
    /// The private key could not be serialised, or the serialised key was not
    /// accepted as an encryption identity.
    IdentityConstruction,
}

impl KeyError {
    /// A short human-readable description of the failure.
    pub fn message(&self) -> (text: &'static str)
        ensures
            text@ == match *self {
                KeyError::NotYetSigned => "have not signed"@,
                KeyError::DeviceNotFound => "no signing device found"@,
                KeyError::MultipleDevices => "more than one signing device found"@,
                KeyError::DeviceCommunication => "communication with the signing device failed"@,
                KeyError::PathParse => "invalid derivation path segment"@,
                KeyError::IdentityConstruction => "failed to create identity"@,
            },
    {
        match self {
            KeyError::NotYetSigned => "have not signed",
            KeyError::DeviceNotFound => "no signing device found",
            KeyError::MultipleDevices => "more than one signing device found",
            KeyError::DeviceCommunication => "communication with the signing device failed",
            KeyError::PathParse => "invalid derivation path segment",
            KeyError::IdentityConstruction => "failed to create identity",
        }
    }
}

} // verus!
