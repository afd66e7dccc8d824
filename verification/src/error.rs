//! Error taxonomy for the bridge.
//!
//! `Invalid` covers malformed caller-supplied arguments and replies whose
//! bytes a device did send but which cannot be understood; `Network` covers
//! socket, bind, send, receive and HTTP transport failures, including
//! non-success HTTP statuses.

use vstd::prelude::*;

verus! {

/// A failure surfaced by any bridge operation, carrying a descriptive
/// message for the caller.
#[derive(Debug, Clone)]
pub enum BridgeError {
    /// Caller-supplied input was empty or malformed, or a device reply was
    /// received but could not be parsed.
    Invalid(String),
    /// A transport-level failure: socket setup, send/receive, or an HTTP
    /// error status.
    Network(String),
}

/// The result type every bridge operation returns.
pub type BridgeResult<T> = Result<T, BridgeError>;

impl BridgeError {
    /// The descriptive message carried by this error.
    pub fn message(&self) -> (r: String)
        ensures
            r@ == self.message_spec(),
    {
        match self {
            BridgeError::Invalid(m) => m.clone(),
            BridgeError::Network(m) => m.clone(),
        }
    }

    /// The message carried by this error, as a sequence of characters.
    pub open spec fn message_spec(&self) -> Seq<char> {
        match self {
            BridgeError::Invalid(m) => m@,
            BridgeError::Network(m) => m@,
        }
    }

    /// Whether this is an `Invalid` (bad input / unparsable reply) error.
    pub fn is_invalid(&self) -> (r: bool)
        ensures
            r == (self is Invalid),
    {
        match self {
            BridgeError::Invalid(_) => true,
            BridgeError::Network(_) => false,
        }
    }

    /// Whether this is a `Network` (transport failure) error.
    pub fn is_network(&self) -> (r: bool)
        ensures
            r == (self is Network),
    {
        match self {
            BridgeError::Invalid(_) => false,
            BridgeError::Network(_) => true,
        }
    }
}

} // verus!
