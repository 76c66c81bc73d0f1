//! The error taxonomy of the protocol client.

use vstd::prelude::*;
use crate::messages::ErrorObject;

verus! {

/// What a protocol operation can fail with.
///
/// `Call` and `UnsupportedContext` are ordinary application-level
/// failures; every other variant means the transport or the protocol
/// itself can no longer be trusted.
#[derive(Debug, Clone, PartialEq)]
pub enum MarionetteError {
    /// An I/O failure in the caller's transport, carried through as text.
    Io(String),
    /// A frame that breaks the `length:payload` format: a missing or
    /// non-numeric length prefix, or a payload that is not UTF-8.
    Frame,
    /// A frame whose payload is not the JSON shape the protocol calls for.
    JSON,
    /// The server answered the call with a structured error object.
    Call(ErrorObject),
    /// A message that is not a command response.
    UnexpectedType,
    /// A response without a numeric message id.
    InvalidMsgId,
    /// A response array with too few elements.
    InvalidResponseArray,
    /// The server greeted with a protocol version other than 3.
    UnsupportedProtocolVersion,
    /// The server reported an execution context this client does not know.
    UnsupportedContext(String),
}

impl MarionetteError {
    /// Whether the connection can no longer be used after this error.
    /// A failed call and an unknown context are the only recoverable
    /// errors; everything else breaks the transport or the protocol.
    pub fn is_fatal(&self) -> (r: bool)
        ensures
            r == !(self is Call || self is UnsupportedContext),
    {
        match self {
            MarionetteError::Call(_) => false,
            MarionetteError::UnsupportedContext(_) => false,
            _ => true,
        }
    }
}

} // verus!
