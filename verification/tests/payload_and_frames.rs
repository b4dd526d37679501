use rust_client::bus_client::{
    acknowledged, command_reply, connect_frame, forward_frame, forward_reply, outgoing_event,
    publish_frame, reply_to_of, subscribe_frame, subscriber_count, unsubscribe_frame, wire_line,
    ReplyWait,
};
use rust_client::protocol_types;
use rust_client::{
    ClientError, ForwardRequest, Payload, PayloadValue, RequestResponder, ServiceBusEventEnvelope,
    ServiceBusForwardResponse, ServiceBusProtocolMessage, ServiceBusRequest, UtcTimestamp,
};

fn text(s: &str) -> PayloadValue {
    PayloadValue::Text(s.to_string())
}

fn frame(frame_type: &str) -> ServiceBusProtocolMessage {
    ServiceBusProtocolMessage { frame_type: frame_type.to_string(), ..Default::default() }
}

fn envelope(topic: &str, message_type: &str, payload: Payload) -> ServiceBusEventEnvelope {
    ServiceBusEventEnvelope {
        event_id: "evt-1".to_string(),
        emitted_at_utc: UtcTimestamp { secs: 1_700_000_000, nanos: 5 },
        service_id: "billing".to_string(),
        instance_id: "billing-1".to_string(),
        topic: topic.to_string(),
        message_type: message_type.to_string(),
        correlation_id: 77,
        causation_id: None,
        payload,
    }
}

#[test]
fn protocol_type_names_match_the_wire() {
    assert_eq!(protocol_types::CONNECT, "connect");
    assert_eq!(protocol_types::SUBSCRIBE, "subscribe");
    assert_eq!(protocol_types::UNSUBSCRIBE, "unsubscribe");
    assert_eq!(protocol_types::PUBLISH, "publish");
    assert_eq!(protocol_types::FORWARD, "forward");
    assert_eq!(protocol_types::FORWARD_RESPONSE, "forward_response");
    assert_eq!(protocol_types::EVENT, "event");
    assert_eq!(protocol_types::ACK, "ack");
    assert_eq!(protocol_types::ERROR, "error");
}

#[test]
fn payload_read_gives_back_the_last_write() {
    let mut p = Payload::new();
    assert!(p.is_empty());
    p.insert("orderId".to_string(), text("42"));
    p.insert("value".to_string(), PayloadValue::UInt(1));
    assert_eq!(p.len(), 2);
    assert_eq!(p.get("orderId"), Some(&text("42")));
    assert_eq!(p.get("value"), Some(&PayloadValue::UInt(1)));
    assert_eq!(p.get("missing"), None);
    p.insert("orderId".to_string(), PayloadValue::Int(-3));
    assert_eq!(p.len(), 2);
    assert_eq!(p.get("orderId"), Some(&PayloadValue::Int(-3)));
    assert_eq!(p.get("value"), Some(&PayloadValue::UInt(1)));
}

#[test]
fn payload_entries_hold_each_key_once() {
    let mut p = Payload::new();
    p.insert("a".to_string(), PayloadValue::Null);
    p.insert("b".to_string(), PayloadValue::Bool(true));
    p.insert("a".to_string(), PayloadValue::Json("[1,2]".to_string()));
    let entries = p.entries();
    assert_eq!(entries.len(), 2);
    let a = entries.iter().find(|e| e.key == "a").unwrap();
    assert_eq!(a.value, PayloadValue::Json("[1,2]".to_string()));
    let copy = p.clone();
    assert_eq!(copy.get("b"), Some(&PayloadValue::Bool(true)));
    assert_eq!(copy.len(), 2);
}

#[test]
fn reply_to_reads_only_string_values() {
    let mut p = Payload::new();
    assert_eq!(reply_to_of(&p), None);
    p.insert("reply_to".to_string(), PayloadValue::UInt(5));
    assert_eq!(reply_to_of(&p), None);
    p.insert("reply_to".to_string(), text("reply-topic-9"));
    assert_eq!(reply_to_of(&p), Some("reply-topic-9"));
    let request = ServiceBusRequest { event: envelope("service-orders", "order.query", p) };
    assert_eq!(request.reply_to(), Some("reply-topic-9"));
}

#[test]
fn connect_frame_carries_the_credentials() {
    let m = connect_frame("orders".to_string(), "orders-1".to_string(), "tok".to_string());
    assert_eq!(m.frame_type, "connect");
    assert_eq!(m.service_id.as_deref(), Some("orders"));
    assert_eq!(m.instance_id.as_deref(), Some("orders-1"));
    assert_eq!(m.token.as_deref(), Some("tok"));
    assert!(m.topics.is_none() && m.event.is_none() && m.forward_request.is_none());
    assert!(m.message.is_none() && m.error_code.is_none() && m.subscriber_count.is_none());
}

#[test]
fn topic_frames_carry_the_topic_list() {
    let m = subscribe_frame(vec!["orders.events".to_string(), "service-orders".to_string()]);
    assert_eq!(m.frame_type, "subscribe");
    assert_eq!(
        m.topics,
        Some(vec!["orders.events".to_string(), "service-orders".to_string()])
    );
    assert!(m.service_id.is_none() && m.token.is_none());
    let u = unsubscribe_frame(vec!["orders.events".to_string()]);
    assert_eq!(u.frame_type, "unsubscribe");
    assert_eq!(u.topics, Some(vec!["orders.events".to_string()]));
}

#[test]
fn publish_frame_carries_the_event() {
    let mut p = Payload::new();
    p.insert("value".to_string(), PayloadValue::UInt(1));
    let at = UtcTimestamp { secs: 1_700_000_123, nanos: 456 };
    let e = outgoing_event("orders.events".to_string(), "orders.created".to_string(), p, at);
    assert_eq!(e.emitted_at_utc, at);
    assert_eq!(e.event_id, "");
    assert_eq!(e.service_id, "");
    assert_eq!(e.instance_id, "");
    assert_eq!(e.correlation_id, 0);
    assert_eq!(e.causation_id, None);
    let m = publish_frame(e);
    assert_eq!(m.frame_type, "publish");
    let carried = m.event.unwrap();
    assert_eq!(carried.topic, "orders.events");
    assert_eq!(carried.message_type, "orders.created");
    assert_eq!(carried.payload.get("value"), Some(&PayloadValue::UInt(1)));
}

#[test]
fn forward_frame_carries_the_request() {
    let mut p = Payload::new();
    p.insert("orderId".to_string(), text("42"));
    let m = forward_frame(ForwardRequest {
        target_service_id: "orders".to_string(),
        message_type: "order.query".to_string(),
        payload: p,
        timeout_ms: Some(3_000),
    });
    assert_eq!(m.frame_type, "forward");
    let fr = m.forward_request.unwrap();
    assert_eq!(fr.target_service_id, "orders");
    assert_eq!(fr.message_type, "order.query");
    assert_eq!(fr.timeout_ms, Some(3_000));
    assert_eq!(fr.payload.get("orderId"), Some(&text("42")));
    assert!(m.event.is_none() && m.topics.is_none());
}

#[test]
fn wire_line_appends_one_newline() {
    assert_eq!(wire_line("{\"type\":\"ack\"}".to_string()), "{\"type\":\"ack\"}\n");
    assert_eq!(wire_line(String::new()), "\n");
}

#[test]
fn timed_out_command_reports_command_timeout() {
    match command_reply(ReplyWait::TimedOut) {
        Err(ClientError::Protocol { code, message }) => {
            assert_eq!(code, "COMMAND_TIMEOUT");
            assert_eq!(message, "Timed out waiting for protocol response");
        }
        other => panic!("unexpected {other:?}"),
    }
    assert!(matches!(command_reply(ReplyWait::Closed), Err(ClientError::ChannelClosed)));
}

#[test]
fn error_frames_become_protocol_errors() {
    let mut e = frame("error");
    e.error_code = Some("NOT_AUTHORIZED".to_string());
    e.message = Some("bad token".to_string());
    match command_reply(ReplyWait::Received(e)) {
        Err(ClientError::Protocol { code, message }) => {
            assert_eq!(code, "NOT_AUTHORIZED");
            assert_eq!(message, "bad token");
        }
        other => panic!("unexpected {other:?}"),
    }
    match command_reply(ReplyWait::Received(frame("error"))) {
        Err(ClientError::Protocol { code, message }) => {
            assert_eq!(code, "UNKNOWN_ERROR");
            assert_eq!(message, "Service bus protocol error");
        }
        other => panic!("unexpected {other:?}"),
    }
    let ok = command_reply(ReplyWait::Received(frame("ack"))).unwrap();
    assert_eq!(ok.frame_type, "ack");
}

#[test]
fn only_ack_acknowledges_a_command() {
    let mut ack = frame("ack");
    ack.subscriber_count = Some(3);
    let got = acknowledged(Ok(ack)).unwrap();
    assert_eq!(subscriber_count(&got), 3);
    assert_eq!(subscriber_count(&frame("ack")), 0);
    match acknowledged(Ok(frame("forward_response"))) {
        Err(ClientError::UnexpectedMessage(t)) => assert_eq!(t, "forward_response"),
        other => panic!("unexpected {other:?}"),
    }
    assert!(matches!(
        acknowledged(Err(ClientError::ChannelClosed)),
        Err(ClientError::ChannelClosed)
    ));
}

#[test]
fn forward_reply_requires_a_forward_response() {
    match forward_reply(frame("ack")) {
        Err(ClientError::UnexpectedMessage(t)) => assert_eq!(t, "ack"),
        other => panic!("unexpected {other:?}"),
    }
    match forward_reply(frame("forward_response")) {
        Err(ClientError::MissingField(f)) => assert_eq!(f, "forwardResponse"),
        other => panic!("unexpected {other:?}"),
    }
    let mut p = Payload::new();
    p.insert("handledBy".to_string(), text("orders-1"));
    let mut m = frame("forward_response");
    m.forward_response = Some(ServiceBusForwardResponse {
        message_type: "order.query.response".to_string(),
        payload: p,
    });
    let r = forward_reply(m).unwrap();
    assert_eq!(r.message_type, "order.query.response");
    assert_eq!(r.payload.get("handledBy"), Some(&text("orders-1")));
}

#[test]
fn responder_answers_on_the_reply_topic() {
    let mut p = Payload::new();
    p.insert("reply_to".to_string(), text("reply-7"));
    let request = envelope("service-orders", "order.query", p);
    let responder = RequestResponder::for_request(&request, "reply-7");
    let mut answer = Payload::new();
    answer.insert("orderId".to_string(), text("42"));
    let at = UtcTimestamp { secs: 1_700_000_500, nanos: 1 };
    let e = responder.reply_event("order.query.response".to_string(), answer, at);
    assert_eq!(e.emitted_at_utc, at);
    assert_eq!(e.topic, "reply-7");
    assert_eq!(e.message_type, "order.query.response");
    assert_eq!(e.correlation_id, 77);
    assert_eq!(e.causation_id.as_deref(), Some("evt-1"));
    assert_eq!(e.event_id, "");
    assert_eq!(e.payload.get("orderId"), Some(&text("42")));
    let ok = responder.reply_ok_event(Payload::new(), at);
    assert_eq!(ok.emitted_at_utc, at);
    assert_eq!(ok.message_type, "order.query");
    assert_eq!(ok.topic, "reply-7");
    assert_eq!(ok.causation_id.as_deref(), Some("evt-1"));
}
