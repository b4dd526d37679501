//! Service-bus frame type names.

use vstd::prelude::*;

verus! {

/// Connect and authenticate a socket session.
pub const CONNECT: &'static str = "connect";
/// Subscribe to one or more topics.
pub const SUBSCRIBE: &'static str = "subscribe";
/// Unsubscribe from one or more topics.
pub const UNSUBSCRIBE: &'static str = "unsubscribe";
/// Publish an event envelope.
pub const PUBLISH: &'static str = "publish";
/// Send a forward request to another service.
pub const FORWARD: &'static str = "forward";
/// Receive a forward-response payload.
pub const FORWARD_RESPONSE: &'static str = "forward_response";
/// Event pushed from the bus.
pub const EVENT: &'static str = "event";
/// Command acknowledgment.
pub const ACK: &'static str = "ack";
/// Error response frame.
pub const ERROR: &'static str = "error";

} // verus!
