//! The kinds of failure that the service reports.

use vstd::prelude::*;

verus! {

/// Why a call, or the start of the process, failed.
#[derive(Clone, Copy, Debug, PartialEq, Eq, Structural)]
pub enum ErrorKind {
    /// A payload is not thirty-two hexadecimal digits, a colon and a non-empty
    /// run of hexadecimal digits.
    MalformedCiphertext,
    /// A payload has the shape of a wire string, but the cipher rejects it:
    /// the key is wrong, or the text was corrupted or tampered with.
    DecryptionError,
    /// A payload decrypts to bytes that are not UTF-8.
    InvalidEncoding,
    /// The inbound side of a call failed, or an event came that the call's
    /// state does not allow.
    InvalidArgument,
    /// The consumer of a call's replies is gone. This ends the call; it is no
    /// fault of the call.
    PeerDisconnected,
    /// The configuration lacks a value or holds a key of the wrong length. No
    /// call can be served.
    ConfigurationFatal,
}

impl ErrorKind {
    /// Whether this is one of the three kinds that decrypting a payload gives.
    pub open spec fn is_cryptographic(self) -> bool {
        self == ErrorKind::MalformedCiphertext || self == ErrorKind::DecryptionError || self
            == ErrorKind::InvalidEncoding
    }

    /// The name of the kind, as it is shown to a peer or an operator.
    pub fn name(&self) -> (name: &'static str)
        ensures
            name@ == self.name_text(),
    {
        match self {
            ErrorKind::MalformedCiphertext => "MalformedCiphertext",
            ErrorKind::DecryptionError => "DecryptionError",
            ErrorKind::InvalidEncoding => "InvalidEncoding",
            ErrorKind::InvalidArgument => "InvalidArgument",
            ErrorKind::PeerDisconnected => "PeerDisconnected",
            ErrorKind::ConfigurationFatal => "ConfigurationFatal",
        }
    }

    /// The characters of the kind's name.
    pub open spec fn name_text(self) -> Seq<char> {
        match self {
            ErrorKind::MalformedCiphertext => "MalformedCiphertext"@,
            ErrorKind::DecryptionError => "DecryptionError"@,
            ErrorKind::InvalidEncoding => "InvalidEncoding"@,
            ErrorKind::InvalidArgument => "InvalidArgument"@,
            ErrorKind::PeerDisconnected => "PeerDisconnected"@,
            ErrorKind::ConfigurationFatal => "ConfigurationFatal"@,
        }
    }
}

} // verus!
