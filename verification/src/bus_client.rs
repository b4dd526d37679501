//! The service-bus commands: the frame each command sends, how the reply to
//! a command is read, and the request/response helper types.
//!
//! Frames travel as newline-delimited JSON; turning a frame into JSON text and
//! back, and moving the lines over TCP, is the job of the caller.

use vstd::prelude::*;

use crate::error::{ClientError, ClientResult};
use crate::payload::{Payload, PayloadValue, PayloadValueView};
use crate::protocol::protocol_types;
use crate::protocol::UtcTimestamp;
use crate::protocol::{
    blank_frame, ServiceBusEventEnvelope, ServiceBusForwardRequest,
    ServiceBusForwardResponse, ServiceBusProtocolMessage,
};
use crate::text::text_is;

verus! {

/// Seconds to wait for the reply to a command.
pub const COMMAND_RESPONSE_TIMEOUT_SECS: u64 = 10;
/// Payload key under which a forwarded request names the topic to answer on.
pub const REPLY_TO_KEY: &'static str = "reply_to";
/// Error code reported when no reply to a command arrives in time.
pub const COMMAND_TIMEOUT_CODE: &'static str = "COMMAND_TIMEOUT";
/// Error message reported when no reply to a command arrives in time.
pub const COMMAND_TIMEOUT_MESSAGE: &'static str = "Timed out waiting for protocol response";
/// Error code used when an error frame carries none.
pub const UNKNOWN_ERROR_CODE: &'static str = "UNKNOWN_ERROR";
/// Error message used when an error frame carries none.
pub const DEFAULT_ERROR_MESSAGE: &'static str = "Service bus protocol error";
/// Name of the frame field that carries a forward response.
pub const FORWARD_RESPONSE_FIELD: &'static str = "forwardResponse";

/// Parameters of a forward request to another service.
#[derive(Debug, Clone)]
pub struct ForwardRequest {
    pub target_service_id: String,
    pub message_type: String,
    pub payload: Payload,
    pub timeout_ms: Option<u64>,
}

/// The topic that a payload names under `reply_to`, when it holds a string there.
pub open spec fn reply_topic_of(p: Map<Seq<char>, PayloadValueView>) -> Option<Seq<char>> {
    if p.contains_key(REPLY_TO_KEY@) {
        match p[REPLY_TO_KEY@] {
            PayloadValueView::Text(s) => Some(s),
            _ => None,
        }
    } else {
        None
    }
}

/// The string stored under `reply_to` in a payload, if the value there is a string.
pub fn reply_to_of(payload: &Payload) -> (reply_to: Option<&str>)
    ensures
        match reply_to {
            Some(s) => reply_topic_of(payload@) == Some(s@),
            None => reply_topic_of(payload@) is None,
        },
        match reply_to {
            Some(s) => payload@.contains_key("reply_to"@) && payload@["reply_to"@]
                == PayloadValueView::Text(s@),
            None => !payload@.contains_key("reply_to"@) || !(payload@["reply_to"@] is Text),
        },
{
    match payload.get(REPLY_TO_KEY) {
        Some(PayloadValue::Text(s)) => Some(s.as_str()),
        _ => None,
    }
}

/// A request addressed to this service: an event delivered on its service topic.
#[derive(Debug, Clone)]
pub struct ServiceBusRequest {
    pub event: ServiceBusEventEnvelope,
}

impl ServiceBusRequest {
    /// The topic the requester waits on, if the payload names one as a string.
    pub fn reply_to(&self) -> (reply_to: Option<&str>)
        ensures
            match reply_to {
                Some(s) => reply_topic_of(self.event.payload@) == Some(s@),
                None => reply_topic_of(self.event.payload@) is None,
            },
    {
        reply_to_of(&self.event.payload)
    }
}

/// Where and how to answer one request: the reply topic, and the ids that link
/// the answer to the request.
#[derive(Debug, Clone)]
pub struct RequestResponder {
    reply_to_topic: String,
    causation_id: String,
    correlation_id: i64,
    default_message_type: String,
}

impl RequestResponder {
    /// The topic on which answers are published.
    pub closed spec fn reply_topic(&self) -> Seq<char> {
        self.reply_to_topic@
    }

    /// The id of the request event, recorded as the cause of each answer.
    pub closed spec fn causation(&self) -> Seq<char> {
        self.causation_id@
    }

    /// The correlation id copied from the request.
    pub closed spec fn correlation(&self) -> i64 {
        self.correlation_id
    }

    /// The message type of the request, used by `respond_ok`.
    pub closed spec fn default_type(&self) -> Seq<char> {
        self.default_message_type@
    }

    /// The responder for a request event answered on `reply_to`.
    pub fn for_request(event: &ServiceBusEventEnvelope, reply_to: &str) -> (r: RequestResponder)
        ensures
            r.reply_topic() == reply_to@,
            r.causation() == event.event_id@,
            r.correlation() == event.correlation_id,
            r.default_type() == event.message_type@,
    {
        RequestResponder {
            reply_to_topic: String::from_str(reply_to),
            causation_id: event.event_id.clone(),
            correlation_id: event.correlation_id,
            default_message_type: event.message_type.clone(),
        }
    }

    /// The event, emitted at `emitted_at`, that answers the request with the
    /// given message type and payload.
    pub fn reply_event(
        &self,
        message_type: String,
        payload: Payload,
        emitted_at: UtcTimestamp,
    ) -> (e: ServiceBusEventEnvelope)
        ensures
            e.emitted_at_utc == emitted_at,
            e.event_id@ == Seq::<char>::empty(),
            e.service_id@ == Seq::<char>::empty(),
            e.instance_id@ == Seq::<char>::empty(),
            e.topic@ == self.reply_topic(),
            e.message_type == message_type,
            e.correlation_id == self.correlation(),
            e.causation_id matches Some(c) && c@ == self.causation(),
            e.payload == payload,
    {
        ServiceBusEventEnvelope {
            event_id: String::new(),
            emitted_at_utc: emitted_at,
            service_id: String::new(),
            instance_id: String::new(),
            topic: self.reply_to_topic.clone(),
            message_type,
            correlation_id: self.correlation_id,
            causation_id: Some(self.causation_id.clone()),
            payload,
        }
    }

    /// The event, emitted at `emitted_at`, that answers the request under the
    /// request's own message type.
    pub fn reply_ok_event(&self, payload: Payload, emitted_at: UtcTimestamp) -> (e:
        ServiceBusEventEnvelope)
        ensures
            e.emitted_at_utc == emitted_at,
            e.event_id@ == Seq::<char>::empty(),
            e.service_id@ == Seq::<char>::empty(),
            e.instance_id@ == Seq::<char>::empty(),
            e.topic@ == self.reply_topic(),
            e.message_type@ == self.default_type(),
            e.correlation_id == self.correlation(),
            e.causation_id matches Some(c) && c@ == self.causation(),
            e.payload == payload,
    {
        self.reply_event(self.default_message_type.clone(), payload, emitted_at)
    }
}

/// A frame type name as an owned string.
fn frame_name(name: &'static str) -> (s: String)
    ensures
        s@ == name@,
{
    String::from_str(name)
}

/// The `connect` frame that opens and authenticates a session.
pub fn connect_frame(service_id: String, instance_id: String, token: String) -> (m:
    ServiceBusProtocolMessage)
    ensures
        m.frame_type@ == protocol_types::CONNECT@,
        m == (ServiceBusProtocolMessage {
            service_id: Some(service_id),
            instance_id: Some(instance_id),
            token: Some(token),
            ..blank_frame(m.frame_type)
        }),
{
    ServiceBusProtocolMessage {
        frame_type: frame_name(protocol_types::CONNECT),
        service_id: Some(service_id),
        instance_id: Some(instance_id),
        token: Some(token),
        topics: None,
        event: None,
        forward_request: None,
        forward_response: None,
        message: None,
        error_code: None,
        subscriber_count: None,
    }
}

/// A frame of the given type that carries a topic list and nothing else.
fn topics_frame(name: &'static str, topics: Vec<String>) -> (m: ServiceBusProtocolMessage)
    ensures
        m.frame_type@ == name@,
        m == (ServiceBusProtocolMessage { topics: Some(topics), ..blank_frame(m.frame_type) }),
{
    ServiceBusProtocolMessage {
        frame_type: frame_name(name),
        service_id: None,
        instance_id: None,
        token: None,
        topics: Some(topics),
        event: None,
        forward_request: None,
        forward_response: None,
        message: None,
        error_code: None,
        subscriber_count: None,
    }
}

/// The `subscribe` frame for the given topics.
pub fn subscribe_frame(topics: Vec<String>) -> (m: ServiceBusProtocolMessage)
    ensures
        m.frame_type@ == protocol_types::SUBSCRIBE@,
        m == (ServiceBusProtocolMessage { topics: Some(topics), ..blank_frame(m.frame_type) }),
{
    topics_frame(protocol_types::SUBSCRIBE, topics)
}

/// The `unsubscribe` frame for the given topics.
pub fn unsubscribe_frame(topics: Vec<String>) -> (m: ServiceBusProtocolMessage)
    ensures
        m.frame_type@ == protocol_types::UNSUBSCRIBE@,
        m == (ServiceBusProtocolMessage { topics: Some(topics), ..blank_frame(m.frame_type) }),
{
    topics_frame(protocol_types::UNSUBSCRIBE, topics)
}

/// The `publish` frame that carries an event.
pub fn publish_frame(event: ServiceBusEventEnvelope) -> (m: ServiceBusProtocolMessage)
    ensures
        m.frame_type@ == protocol_types::PUBLISH@,
        m == (ServiceBusProtocolMessage { event: Some(event), ..blank_frame(m.frame_type) }),
{
    ServiceBusProtocolMessage {
        frame_type: frame_name(protocol_types::PUBLISH),
        service_id: None,
        instance_id: None,
        token: None,
        topics: None,
        event: Some(event),
        forward_request: None,
        forward_response: None,
        message: None,
        error_code: None,
        subscriber_count: None,
    }
}

/// The `forward` frame that carries a forward request.
pub fn forward_frame(request: ForwardRequest) -> (m: ServiceBusProtocolMessage)
    ensures
        m.frame_type@ == protocol_types::FORWARD@,
        m == (ServiceBusProtocolMessage {
            forward_request: Some(
                ServiceBusForwardRequest {
                    target_service_id: request.target_service_id,
                    message_type: request.message_type,
                    payload: request.payload,
                    timeout_ms: request.timeout_ms,
                },
            ),
            ..blank_frame(m.frame_type)
        }),
{
    ServiceBusProtocolMessage {
        frame_type: frame_name(protocol_types::FORWARD),
        service_id: None,
        instance_id: None,
        token: None,
        topics: None,
        event: None,
        forward_request: Some(
            ServiceBusForwardRequest {
                target_service_id: request.target_service_id,
                message_type: request.message_type,
                payload: request.payload,
                timeout_ms: request.timeout_ms,
            },
        ),
        forward_response: None,
        message: None,
        error_code: None,
        subscriber_count: None,
    }
}

/// A new event to publish on `topic`, emitted at `emitted_at`: no ids, no correlation.
pub fn outgoing_event(
    topic: String,
    message_type: String,
    payload: Payload,
    emitted_at: UtcTimestamp,
) -> (e: ServiceBusEventEnvelope)
    ensures
        e.emitted_at_utc == emitted_at,
        e.event_id@ == Seq::<char>::empty(),
        e.service_id@ == Seq::<char>::empty(),
        e.instance_id@ == Seq::<char>::empty(),
        e.topic == topic,
        e.message_type == message_type,
        e.correlation_id == 0,
        e.causation_id is None,
        e.payload == payload,
{
    ServiceBusEventEnvelope {
        event_id: String::new(),
        emitted_at_utc: emitted_at,
        service_id: String::new(),
        instance_id: String::new(),
        topic,
        message_type,
        correlation_id: 0,
        causation_id: None,
        payload,
    }
}

/// The line sent on the wire for a frame's JSON text: the text and a newline.
pub fn wire_line(json: String) -> (line: String)
    ensures
        line@ == json@ + "\n"@,
{
    let mut line = json;
    line.append("\n");
    line
}

/// How the wait for the reply to a command ended.
#[derive(Debug)]
pub enum ReplyWait {
    /// A reply frame was delivered.
    Received(ServiceBusProtocolMessage),
    /// No reply came within the command timeout.
    TimedOut,
    /// The reply channel was dropped before a reply came.
    Closed,
}

/// The code of the error reported for an `error` frame.
pub open spec fn error_code_of(m: ServiceBusProtocolMessage) -> Seq<char> {
    match m.error_code {
        Some(c) => c@,
        None => UNKNOWN_ERROR_CODE@,
    }
}

/// The message of the error reported for an `error` frame.
pub open spec fn error_message_of(m: ServiceBusProtocolMessage) -> Seq<char> {
    match m.message {
        Some(s) => s@,
        None => DEFAULT_ERROR_MESSAGE@,
    }
}

/// The outcome of a command once its wait has ended: an `error` frame
/// becomes a protocol error, a timeout and a dropped channel become errors of
/// their own, and any other frame is the reply.
pub fn command_reply(wait: ReplyWait) -> (r: ClientResult<ServiceBusProtocolMessage>)
    ensures
        match wait {
            ReplyWait::TimedOut => r matches Err(ClientError::Protocol { code, message })
                && code@ == COMMAND_TIMEOUT_CODE@ && message@ == COMMAND_TIMEOUT_MESSAGE@,
            ReplyWait::Closed => r matches Err(ClientError::ChannelClosed),
            ReplyWait::Received(m) => if m.frame_type@ == protocol_types::ERROR@ {
                r matches Err(ClientError::Protocol { code, message }) && code@ == error_code_of(m)
                    && message@ == error_message_of(m)
            } else {
                r == Ok::<ServiceBusProtocolMessage, ClientError>(m)
            },
        },
        match wait {
            ReplyWait::Received(m) => m.frame_type@ == protocol_types::ERROR@ ==> (r matches Err(
                ClientError::Protocol { code, message },
            ) && (match m.error_code {
                Some(c) => code@ == c@,
                None => code@ == UNKNOWN_ERROR_CODE@,
            }) && (match m.message {
                Some(s) => message@ == s@,
                None => message@ == DEFAULT_ERROR_MESSAGE@,
            })),
            _ => true,
        },
{
    match wait {
        ReplyWait::TimedOut => Err(
            ClientError::Protocol {
                code: String::from_str(COMMAND_TIMEOUT_CODE),
                message: String::from_str(COMMAND_TIMEOUT_MESSAGE),
            },
        ),
        ReplyWait::Closed => Err(ClientError::ChannelClosed),
        ReplyWait::Received(m) => {
            if text_is(&m.frame_type, protocol_types::ERROR) {
                let code = match m.error_code {
                    Some(c) => c,
                    None => String::from_str(UNKNOWN_ERROR_CODE),
                };
                let message = match m.message {
                    Some(s) => s,
                    None => String::from_str(DEFAULT_ERROR_MESSAGE),
                };
                Err(ClientError::Protocol { code, message })
            } else {
                Ok(m)
            }
        },
    }
}

/// A command that expects an acknowledgment: any reply other than `ack`
/// becomes an unexpected-message error naming the reply's frame type.
pub fn acknowledged(reply: ClientResult<ServiceBusProtocolMessage>) -> (r: ClientResult<
    ServiceBusProtocolMessage,
>)
    ensures
        match reply {
            Err(e) => r == Err::<ServiceBusProtocolMessage, ClientError>(e),
            Ok(m) => if m.frame_type@ == protocol_types::ACK@ {
                r == Ok::<ServiceBusProtocolMessage, ClientError>(m)
            } else {
                r == Err::<ServiceBusProtocolMessage, ClientError>(
                    ClientError::UnexpectedMessage(m.frame_type),
                )
            },
        },
{
    match reply {
        Err(e) => Err(e),
        Ok(m) => {
            if text_is(&m.frame_type, protocol_types::ACK) {
                Ok(m)
            } else {
                Err(ClientError::UnexpectedMessage(m.frame_type))
            }
        },
    }
}

/// The number of subscribers an acknowledged publish reached: zero when the
/// acknowledgment does not say.
pub fn subscriber_count(ack: &ServiceBusProtocolMessage) -> (n: i32)
    ensures
        n == match ack.subscriber_count {
            Some(c) => c,
            None => 0,
        },
{
    match ack.subscriber_count {
        Some(c) => c,
        None => 0,
    }
}

/// The forward response in the reply to a `forward` command.
pub fn forward_reply(reply: ServiceBusProtocolMessage) -> (r: ClientResult<
    ServiceBusForwardResponse,
>)
    ensures
        reply.frame_type@ != protocol_types::FORWARD_RESPONSE@ ==> r == Err::<
            ServiceBusForwardResponse,
            ClientError,
        >(ClientError::UnexpectedMessage(reply.frame_type)),
        reply.frame_type@ == protocol_types::FORWARD_RESPONSE@ ==> match reply.forward_response {
            Some(f) => r == Ok::<ServiceBusForwardResponse, ClientError>(f),
            None => r matches Err(ClientError::MissingField(field))
                && field@ == FORWARD_RESPONSE_FIELD@,
        },
{
    if !text_is(&reply.frame_type, protocol_types::FORWARD_RESPONSE) {
        return Err(ClientError::UnexpectedMessage(reply.frame_type));
    }
    match reply.forward_response {
        Some(f) => Ok(f),
        None => Err(ClientError::MissingField(FORWARD_RESPONSE_FIELD)),
    }
}

/// The error reported for an `error` frame keeps what the bus sent: the
/// frame's error code when it carries one, whatever its message holds, and
/// the frame's message when it carries one, whatever its code holds; the
/// defaults stand only for what is missing.
pub proof fn error_frame_keeps_what_the_bus_sent(m: ServiceBusProtocolMessage)
    ensures
        m.error_code matches Some(c) ==> error_code_of(m) == c@,
        m.error_code is None ==> error_code_of(m) == UNKNOWN_ERROR_CODE@,
        m.message matches Some(s) ==> error_message_of(m) == s@,
        m.message is None ==> error_message_of(m) == DEFAULT_ERROR_MESSAGE@,
{
}

/// A payload names a reply topic exactly when it holds a string under
/// `reply_to`, and the topic is that string.
pub proof fn reply_topic_is_the_reply_to_string(p: Map<Seq<char>, PayloadValueView>)
    ensures
        reply_topic_of(p) is Some <==> (p.contains_key("reply_to"@) && p["reply_to"@] is Text),
        p.contains_key("reply_to"@) ==> (p["reply_to"@] matches PayloadValueView::Text(s)
            ==> reply_topic_of(p) == Some(s)),
{
}

/// A frame built from `blank_frame` carries its type and nothing else.
pub proof fn blank_frame_carries_nothing_else(frame_type: String)
    ensures
        blank_frame(frame_type).frame_type == frame_type,
        blank_frame(frame_type).service_id is None,
        blank_frame(frame_type).instance_id is None,
        blank_frame(frame_type).token is None,
        blank_frame(frame_type).topics is None,
        blank_frame(frame_type).event is None,
        blank_frame(frame_type).forward_request is None,
        blank_frame(frame_type).forward_response is None,
        blank_frame(frame_type).message is None,
        blank_frame(frame_type).error_code is None,
        blank_frame(frame_type).subscriber_count is None,
{
}

} // verus!
