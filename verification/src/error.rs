//! Errors of service-bus operations.

use vstd::prelude::*;

verus! {

#[verifier::external_type_specification]
#[verifier::external_body]
pub struct ExIoError(std::io::Error);

#[verifier::external_type_specification]
#[verifier::external_body]
pub struct ExJsonError(serde_json::Error);

/// Error type returned by low-level bus operations.
#[derive(Debug)]
pub enum ClientError {
    /// I/O failure while reading from or writing to the TCP socket.
    Io(std::io::Error),
    /// JSON serialization or deserialization failure for protocol frames.
    Serde(serde_json::Error),
    /// Protocol-level error frame returned by the service bus.
    Protocol { code: String, message: String },
    /// A required field was missing from a received frame.
    MissingField(&'static str),
    /// Internal request/response channel closed unexpectedly.
    ChannelClosed,
    /// Received a frame type that does not match the expected response.
    UnexpectedMessage(String),
}

/// Standard result type used by service-bus client operations.
pub type ClientResult<T> = Result<T, ClientError>;

} // verus!
