//! Service-bus wire frames and the payloads they carry.

pub mod protocol_types;

use vstd::prelude::*;

use crate::payload::Payload;

verus! {

/// A UTC instant: whole seconds since the Unix epoch and the nanoseconds past
/// that second (at least one billion only within a leap second).
#[derive(Debug, Clone, Copy, PartialEq, Eq)]
pub struct UtcTimestamp {
    pub secs: i64,
    pub nanos: u32,
}

/// Canonical event envelope transported over the Basilisk bus.
#[derive(Debug, Clone)]
pub struct ServiceBusEventEnvelope {
    /// Unique event identifier.
    pub event_id: String,
    /// UTC time at which the event was emitted.
    pub emitted_at_utc: UtcTimestamp,
    /// Origin service identifier.
    pub service_id: String,
    /// Origin service instance identifier.
    pub instance_id: String,
    /// Topic on which the event is routed.
    pub topic: String,
    /// Logical message type.
    pub message_type: String,
    /// Correlation identifier used to link request/response chains.
    pub correlation_id: i64,
    /// Optional causation event id.
    pub causation_id: Option<String>,
    /// Free-form JSON payload.
    pub payload: Payload,
}

/// Forward request payload embedded in a `forward` frame.
#[derive(Debug, Clone)]
pub struct ServiceBusForwardRequest {
    /// Destination service id.
    pub target_service_id: String,
    /// Message type to invoke on destination service.
    pub message_type: String,
    /// Free-form request payload.
    pub payload: Payload,
    /// Optional timeout override in milliseconds.
    pub timeout_ms: Option<u64>,
}

/// Forward response payload returned by the service bus.
#[derive(Debug, Clone)]
pub struct ServiceBusForwardResponse {
    /// Response message type.
    pub message_type: String,
    /// Free-form response payload.
    pub payload: Payload,
}

/// Generic wire frame used by all bus protocol message types.
#[derive(Debug, Clone)]
pub struct ServiceBusProtocolMessage {
    /// Frame type; see the `protocol_types` constants.
    pub frame_type: String,
    /// Service id used in connect/auth related frames.
    pub service_id: Option<String>,
    /// Instance id used in connect/auth related frames.
    pub instance_id: Option<String>,
    /// Authentication token used during connect.
    pub token: Option<String>,
    /// Topic list for subscribe/unsubscribe frames.
    pub topics: Option<Vec<String>>,
    /// Event payload for publish/event frames.
    pub event: Option<ServiceBusEventEnvelope>,
    /// Forward request payload.
    pub forward_request: Option<ServiceBusForwardRequest>,
    /// Forward response payload.
    pub forward_response: Option<ServiceBusForwardResponse>,
    /// Human-readable status or error message.
    pub message: Option<String>,
    /// Structured protocol error code.
    pub error_code: Option<String>,
    /// Number of subscribers that received a published event.
    pub subscriber_count: Option<i32>,
}

/// A frame of the given type with every optional field absent.
pub open spec fn blank_frame(frame_type: String) -> ServiceBusProtocolMessage {
    ServiceBusProtocolMessage {
        frame_type,
        service_id: None,
        instance_id: None,
        token: None,
        topics: None,
        event: None,
        forward_request: None,
        forward_response: None,
        message: None,
        error_code: None,
        subscriber_count: None,
    }
}

impl Default for ServiceBusProtocolMessage {
    fn default() -> (m: Self)
        ensures
            m == blank_frame(m.frame_type),
            m.frame_type@ == Seq::<char>::empty(),
    {
        ServiceBusProtocolMessage {
            frame_type: String::new(),
            service_id: None,
            instance_id: None,
            token: None,
            topics: None,
            event: None,
            forward_request: None,
            forward_response: None,
            message: None,
            error_code: None,
            subscriber_count: None,
        }
    }
}

} // verus!
