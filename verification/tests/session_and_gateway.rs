use rust_client::bus_session::IncomingAction;
use rust_client::connect_retry::{
    after_failed_attempt, backoff_delay_ms, connect_retry_delay_ms, retry_delay_ms, ConnectStep,
};
use rust_client::gateway_api::{auto_registration_request, registry_call_succeeded};
use rust_client::metrics::{memory_bytes_from_statm, metrics_event, metrics_payload, parse_u64};
use rust_client::{
    AuthInfo, BasiliskClientConfig, BusSession, GatewayApiClient, InstanceInfo, Payload,
    PayloadValue, RegistrationRequest, ServiceBusEventEnvelope, ServiceBusProtocolMessage,
    UtcTimestamp,
};

fn frame(frame_type: &str) -> ServiceBusProtocolMessage {
    ServiceBusProtocolMessage { frame_type: frame_type.to_string(), ..Default::default() }
}

fn event(topic: &str, message_type: &str, reply_to: Option<&str>) -> ServiceBusEventEnvelope {
    let mut payload = Payload::new();
    if let Some(r) = reply_to {
        payload.insert("reply_to".to_string(), PayloadValue::Text(r.to_string()));
    }
    ServiceBusEventEnvelope {
        event_id: "evt-9".to_string(),
        emitted_at_utc: UtcTimestamp { secs: 0, nanos: 0 },
        service_id: String::new(),
        instance_id: String::new(),
        topic: topic.to_string(),
        message_type: message_type.to_string(),
        correlation_id: 12,
        causation_id: None,
        payload,
    }
}

fn session() -> BusSession {
    BusSession::new("orders".to_string(), "orders-1".to_string())
}

#[test]
fn session_names_its_connection_and_request_topic() {
    let s = session();
    assert_eq!(s.connection_key(), "orders:orders-1");
    assert_eq!(s.service_topic(), "service-orders");
}

#[test]
fn replies_go_to_commands_in_send_order() {
    let mut s = session();
    s.await_reply(10);
    s.await_reply(11);
    s.await_reply(12);
    match s.on_frame(frame("ack")) {
        IncomingAction::Deliver { ticket, reply } => {
            assert_eq!(ticket, 10);
            assert_eq!(reply.frame_type, "ack");
        }
        other => panic!("unexpected {other:?}"),
    }
    match s.on_frame(frame("error")) {
        IncomingAction::Deliver { ticket, .. } => assert_eq!(ticket, 11),
        other => panic!("unexpected {other:?}"),
    }
    match s.on_frame(frame("forward_response")) {
        IncomingAction::Deliver { ticket, .. } => assert_eq!(ticket, 12),
        other => panic!("unexpected {other:?}"),
    }
    assert!(matches!(s.on_frame(frame("ack")), IncomingAction::Ignore));
}

#[test]
fn events_and_unknown_frames_leave_waiting_commands_alone() {
    let mut s = session();
    s.await_reply(1);
    let mut e = frame("event");
    e.event = Some(event("orders.events", "orders.created", None));
    match s.on_frame(e) {
        IncomingAction::DispatchEvent(ev) => assert_eq!(ev.topic, "orders.events"),
        other => panic!("unexpected {other:?}"),
    }
    assert!(matches!(s.on_frame(frame("event")), IncomingAction::Ignore));
    assert!(matches!(s.on_frame(frame("heartbeat")), IncomingAction::Ignore));
    match s.on_frame(frame("ack")) {
        IncomingAction::Deliver { ticket, .. } => assert_eq!(ticket, 1),
        other => panic!("unexpected {other:?}"),
    }
}

#[test]
fn withdrawing_undoes_the_last_await() {
    let mut s = session();
    assert_eq!(s.withdraw_newest(), None);
    s.await_reply(4);
    s.await_reply(5);
    assert_eq!(s.withdraw_newest(), Some(5));
    match s.on_frame(frame("ack")) {
        IncomingAction::Deliver { ticket, .. } => assert_eq!(ticket, 4),
        other => panic!("unexpected {other:?}"),
    }
    assert!(matches!(s.on_frame(frame("ack")), IncomingAction::Ignore));
}

#[test]
fn events_reach_topic_handlers_then_wildcard_handlers() {
    let mut s = session();
    s.add_event_handler("*".to_string(), 100);
    s.add_event_handler("orders.events".to_string(), 1);
    s.add_event_handler("orders.events".to_string(), 2);
    s.add_event_handler("billing.events".to_string(), 3);
    let route = s.route_event(&event("orders.events", "orders.created", None));
    assert_eq!(route.handlers, vec![1, 2, 100]);
    assert!(route.request.is_none());
    let route = s.route_event(&event("other", "x", None));
    assert_eq!(route.handlers, vec![100]);
}

#[test]
fn requests_reach_the_handler_of_their_message_type() {
    let mut s = session();
    s.set_request_handler("order.query".to_string(), 7);
    s.set_request_handler("order.query".to_string(), 8);
    let route = s.route_event(&event("service-orders", "order.query", Some("reply-1")));
    let request = route.request.expect("request handler");
    assert_eq!(request.handler, 8);
    let answer = request.responder.reply_ok_event(Payload::new(), UtcTimestamp { secs: 9, nanos: 0 });
    assert_eq!(answer.topic, "reply-1");
    assert_eq!(answer.message_type, "order.query");
    assert_eq!(answer.correlation_id, 12);
    assert_eq!(answer.causation_id.as_deref(), Some("evt-9"));

    // no reply topic, wrong topic, or unknown message type: no request handler
    assert!(s.route_event(&event("service-orders", "order.query", None)).request.is_none());
    assert!(s.route_event(&event("service-billing", "order.query", Some("r"))).request.is_none());
    assert!(s.route_event(&event("service-orders", "order.other", Some("r"))).request.is_none());
}

#[test]
fn backoff_doubles_up_to_the_cap() {
    let expected = [500u64, 1000, 2000, 4000, 8000, 16000, 30000, 30000];
    for (attempt, ms) in expected.iter().enumerate() {
        assert_eq!(backoff_delay_ms(attempt), *ms);
    }
    assert_eq!(backoff_delay_ms(40), 30000);
    assert_eq!(backoff_delay_ms(usize::MAX), 30000);
}

#[test]
fn jitter_is_the_clock_nanos_modulo_501() {
    assert_eq!(retry_delay_ms(0, 0), 500);
    assert_eq!(retry_delay_ms(0, 1002), 500);
    assert_eq!(retry_delay_ms(3, 1000), 4000 + 499);
    assert_eq!(retry_delay_ms(9, 999_999_999), 30000 + 999_999_999 % 501);
    for attempt in 0..10 {
        let d = connect_retry_delay_ms(attempt);
        let base = backoff_delay_ms(attempt);
        assert!(base <= d && d <= base + 500);
    }
}

#[test]
fn eight_attempts_are_made_before_giving_up() {
    let mut attempt = 0usize;
    let mut tries = 1;
    loop {
        match after_failed_attempt(attempt) {
            ConnectStep::GiveUp => break,
            ConnectStep::RetryAfter { delay_ms, next_attempt } => {
                assert_eq!(next_attempt, attempt + 1);
                assert!(delay_ms >= backoff_delay_ms(attempt));
                attempt = next_attempt;
                tries += 1;
            }
        }
    }
    assert_eq!(tries, 8);
    assert_eq!(attempt, 7);
    assert_eq!(after_failed_attempt(100), ConnectStep::GiveUp);
}

#[test]
fn metrics_payload_reports_memory_in_bytes() {
    let p = metrics_payload(8192);
    assert_eq!(p.len(), 3);
    assert_eq!(p.get("name"), Some(&PayloadValue::Text("memory_usage".to_string())));
    assert_eq!(p.get("value"), Some(&PayloadValue::UInt(8192)));
    assert_eq!(p.get("unit"), Some(&PayloadValue::Text("bytes".to_string())));
    let e = metrics_event(4096, UtcTimestamp { secs: 60, nanos: 7 });
    assert_eq!(e.emitted_at_utc, UtcTimestamp { secs: 60, nanos: 7 });
    assert_eq!(e.topic, "basilisk.metrics.distribution");
    assert_eq!(e.message_type, "basilisk.internal");
    assert_eq!(e.payload.get("value"), Some(&PayloadValue::UInt(4096)));
}

#[test]
fn statm_first_field_counts_pages() {
    assert_eq!(memory_bytes_from_statm("12345 678 90 1 0 2 0\n"), 12345 * 4096);
    assert_eq!(memory_bytes_from_statm("  \t+7 1"), 7 * 4096);
    assert_eq!(memory_bytes_from_statm("\u{3000}42"), 42 * 4096);
    assert_eq!(memory_bytes_from_statm("abc 1"), 0);
    assert_eq!(memory_bytes_from_statm(""), 0);
    assert_eq!(memory_bytes_from_statm("   "), 0);
    assert_eq!(memory_bytes_from_statm("18446744073709551615 1"), u64::MAX);
    assert_eq!(memory_bytes_from_statm("18446744073709551616"), 0);
}

#[test]
fn parse_u64_reads_like_str_parse() {
    for word in ["0", "007", "+5", "18446744073709551615", "", "+", "-1", "1a", "18446744073709551616", "٣"] {
        assert_eq!(parse_u64(word), word.parse::<u64>().ok(), "word {word:?}");
    }
}

#[test]
fn gateway_client_drops_trailing_slashes() {
    let c = GatewayApiClient::new("http://127.0.0.1:3000///".to_string());
    assert_eq!(c.base_url(), "http://127.0.0.1:3000");
    assert_eq!(c.register_url(), "http://127.0.0.1:3000/registry/register");
    assert_eq!(
        c.deregister_url("orders", "orders-1"),
        "http://127.0.0.1:3000/registry/services/orders/instances/orders-1"
    );
    let plain = GatewayApiClient::new("http://gw".to_string());
    assert_eq!(plain.base_url(), "http://gw");
    let copy = plain.clone();
    assert_eq!(copy.base_url(), "http://gw");
    assert_eq!(GatewayApiClient::new("/".to_string()).base_url(), "");
}

#[test]
fn only_status_200_is_success() {
    assert!(registry_call_succeeded(200));
    assert!(!registry_call_succeeded(201));
    assert!(!registry_call_succeeded(404));
}

fn registration(instance_id: &str) -> RegistrationRequest {
    RegistrationRequest {
        service_id: "orders".to_string(),
        fingerprint: "fp-orders".to_string(),
        path_prefixes: vec!["/api/orders".to_string()],
        instance: InstanceInfo {
            instance_id: instance_id.to_string(),
            scheme: "http".to_string(),
            host: "127.0.0.1".to_string(),
            port: 65530,
            weight: 1,
        },
        auth: AuthInfo { auth_type: "token".to_string(), token: "secret-token".to_string() },
    }
}

#[test]
fn auto_registration_clears_only_the_instance_id() {
    let auto = auto_registration_request(&registration("orders-1"));
    assert_eq!(auto, registration(""));
    assert_eq!(auto_registration_request(&auto), auto);
}

#[test]
fn config_describes_the_registration() {
    let config = BasiliskClientConfig {
        gateway_base_url: "http://127.0.0.1:3000".to_string(),
        bus_host: "127.0.0.1".to_string(),
        bus_port: 5090,
        service_id: "orders".to_string(),
        fingerprint: "fp-orders".to_string(),
        path_prefixes: vec!["/api/orders".to_string()],
        scheme: "http".to_string(),
        host: "127.0.0.1".to_string(),
        port: 65530,
        weight: 1,
        registration_auth_type: "token".to_string(),
        registration_token: "secret-token".to_string(),
    };
    assert_eq!(config.registration_request(), registration(""));
}

#[test]
fn handler_registration_subscribes_first() {
    let m = BusSession::event_handler_subscription(&"orders.events".to_string());
    assert_eq!(m.frame_type, "subscribe");
    assert_eq!(m.topics, Some(vec!["orders.events".to_string()]));
    assert!(m.service_id.is_none() && m.event.is_none());
    let r = session().request_handler_subscription();
    assert_eq!(r.frame_type, "subscribe");
    assert_eq!(r.topics, Some(vec!["service-orders".to_string()]));
}

#[test]
fn default_frame_is_blank() {
    let m = ServiceBusProtocolMessage::default();
    assert_eq!(m.frame_type, "");
    assert!(m.service_id.is_none() && m.instance_id.is_none() && m.token.is_none());
    assert!(m.topics.is_none() && m.event.is_none() && m.forward_request.is_none());
    assert!(m.forward_response.is_none() && m.message.is_none());
    assert!(m.error_code.is_none() && m.subscriber_count.is_none());
}

#[test]
fn answers_go_to_waiting_commands_across_a_run_of_frames() {
    let mut s = session();
    s.await_reply(1);
    s.await_reply(2);
    let mut delivered = Vec::new();
    for frame_type in ["event", "ack", "heartbeat", "error", "ack"] {
        if let IncomingAction::Deliver { ticket, .. } = s.on_frame(frame(frame_type)) {
            delivered.push(ticket);
        }
    }
    assert_eq!(delivered, vec![1, 2]);
}
