//! The errors of linking, registration, backup and transport.
use vstd::prelude::*;

use crate::text::concat;

verus! {

/// What went wrong, with a human-readable cause where there is one.
#[derive(Debug, Clone, PartialEq, Eq)]
pub enum SignalError {
    NotRegistered,
    AlreadyRegistered,
    RegistrationFailed(String),
    LinkingFailed(String),
    ConnectionFailed(String),
    SendFailed(String),
    ReceiveFailed(String),
    AttachmentError(String),
    CryptoError(String),
    StorageError(String),
    NetworkError(String),
    ProtocolError(String),
    Unknown(String),
}

impl SignalError {
    /// The error as a sentence: its kind, then its cause.
    pub fn message(&self) -> (r: String)
        ensures
            r@ == self.message_spec(),
    {
        match self {
            SignalError::NotRegistered => concat("Not registered", ""),
            SignalError::AlreadyRegistered => concat("Already registered", ""),
            SignalError::RegistrationFailed(m) => concat("Registration failed: ", m.as_str()),
            SignalError::LinkingFailed(m) => concat("Linking failed: ", m.as_str()),
            SignalError::ConnectionFailed(m) => concat("Connection failed: ", m.as_str()),
            SignalError::SendFailed(m) => concat("Message send failed: ", m.as_str()),
            SignalError::ReceiveFailed(m) => concat("Message receive failed: ", m.as_str()),
            SignalError::AttachmentError(m) => concat("Attachment error: ", m.as_str()),
            SignalError::CryptoError(m) => concat("Crypto error: ", m.as_str()),
            SignalError::StorageError(m) => concat("Storage error: ", m.as_str()),
            SignalError::NetworkError(m) => concat("Network error: ", m.as_str()),
            SignalError::ProtocolError(m) => concat("Protocol error: ", m.as_str()),
            SignalError::Unknown(m) => concat("Unknown error: ", m.as_str()),
        }
    }

    pub open spec fn message_spec(&self) -> Seq<char> {
        match self {
            SignalError::NotRegistered => "Not registered"@ + ""@,
            SignalError::AlreadyRegistered => "Already registered"@ + ""@,
            SignalError::RegistrationFailed(m) => "Registration failed: "@ + m@,
            SignalError::LinkingFailed(m) => "Linking failed: "@ + m@,
            SignalError::ConnectionFailed(m) => "Connection failed: "@ + m@,
            SignalError::SendFailed(m) => "Message send failed: "@ + m@,
            SignalError::ReceiveFailed(m) => "Message receive failed: "@ + m@,
            SignalError::AttachmentError(m) => "Attachment error: "@ + m@,
            SignalError::CryptoError(m) => "Crypto error: "@ + m@,
            SignalError::StorageError(m) => "Storage error: "@ + m@,
            SignalError::NetworkError(m) => "Network error: "@ + m@,
            SignalError::ProtocolError(m) => "Protocol error: "@ + m@,
            SignalError::Unknown(m) => "Unknown error: "@ + m@,
        }
    }
}

} // verus!
