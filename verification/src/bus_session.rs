//! The state of one service-bus connection and the decisions taken on it:
//! which waiting command a reply frame belongs to, and which handlers an
//! incoming event is handed to.
//!
//! Commands waiting for a reply and registered handlers are named by numbers
//! that the caller chooses; the caller keeps the reply channels and handler
//! functions under those numbers.

use std::collections::VecDeque;

use vstd::prelude::*;

use crate::bus_client::{reply_to_of, reply_topic_of, subscribe_frame, RequestResponder};
use crate::protocol::protocol_types;
use crate::protocol::{blank_frame, ServiceBusEventEnvelope, ServiceBusProtocolMessage};
use crate::text::{joined, text_is};
use crate::text_map::TextMap;

verus! {

/// Topic whose handlers receive every event.
pub const WILDCARD_TOPIC: &'static str = "*";
/// Prefix of the topic on which a service receives requests.
pub const SERVICE_TOPIC_PREFIX: &'static str = "service-";

/// The topic on which the service `service_id` receives requests.
pub open spec fn service_topic_of(service_id: Seq<char>) -> Seq<char> {
    SERVICE_TOPIC_PREFIX@ + service_id
}

/// The handlers registered for `topic`, in registration order.
pub open spec fn handlers_on(handlers: Map<Seq<char>, Seq<u64>>, topic: Seq<char>) -> Seq<u64> {
    if handlers.contains_key(topic) {
        handlers[topic]
    } else {
        Seq::empty()
    }
}

/// The handlers that an event on `topic` is handed to: those of the topic,
/// then those of the wildcard topic.
pub open spec fn routed_handlers(handlers: Map<Seq<char>, Seq<u64>>, topic: Seq<char>) -> Seq<u64> {
    handlers_on(handlers, topic) + handlers_on(handlers, WILDCARD_TOPIC@)
}

/// The frame types that answer a command.
pub open spec fn is_reply_frame_type(frame_type: Seq<char>) -> bool {
    frame_type == protocol_types::ACK@ || frame_type == protocol_types::ERROR@ || frame_type
        == protocol_types::FORWARD_RESPONSE@
}

/// Whether a frame of this type answers a command: a reply type that is not
/// the event type.
pub open spec fn answers_command(frame_type: Seq<char>) -> bool {
    frame_type != protocol_types::EVENT@ && is_reply_frame_type(frame_type)
}

/// One frame read from the bus, as far as waiting commands go: the waiting
/// list afterwards, and the ticket the frame is delivered to, if any.
pub open spec fn reply_step(pending: Seq<u64>, frame_type: Seq<char>) -> (Seq<u64>, Option<u64>) {
    if answers_command(frame_type) && pending.len() > 0 {
        (pending.drop_first(), Some(pending[0]))
    } else {
        (pending, None)
    }
}

/// A sequence of frames read one after the other: the waiting list at the
/// end, and for each frame the ticket it was delivered to, if any.
pub open spec fn reply_run(pending: Seq<u64>, frame_types: Seq<Seq<char>>) -> (
    Seq<u64>,
    Seq<Option<u64>>,
)
    decreases frame_types.len(),
{
    if frame_types.len() == 0 {
        (pending, Seq::empty())
    } else {
        let step = reply_step(pending, frame_types[0]);
        let rest = reply_run(step.0, frame_types.drop_first());
        (rest.0, seq![step.1] + rest.1)
    }
}

/// The number of frames among `frame_types` that answer a command.
pub open spec fn count_answers(frame_types: Seq<Seq<char>>) -> nat
    decreases frame_types.len(),
{
    if frame_types.len() == 0 {
        0
    } else {
        (if answers_command(frame_types[0]) {
            1nat
        } else {
            0nat
        }) + count_answers(frame_types.drop_first())
    }
}

/// What to do with one frame read from the bus.
#[derive(Debug)]
pub enum IncomingAction {
    /// Hand the event to the handlers that `route_event` names.
    DispatchEvent(ServiceBusEventEnvelope),
    /// Deliver the reply to the command waiting under `ticket`.
    Deliver { ticket: u64, reply: ServiceBusProtocolMessage },
    /// Drop the frame.
    Ignore,
}

/// The ticket that an action delivers a reply to, if it delivers one.
pub open spec fn delivered_ticket(action: IncomingAction) -> Option<u64> {
    match action {
        IncomingAction::Deliver { ticket, .. } => Some(ticket),
        _ => None,
    }
}

/// A request handler chosen for an event, with the responder it is given.
#[derive(Debug)]
pub struct RequestRoute {
    pub handler: u64,
    pub responder: RequestResponder,
}

/// Where an incoming event goes.
#[derive(Debug)]
pub struct EventRoute {
    /// Event handlers to run, in order.
    pub handlers: Vec<u64>,
    /// The request handler to run, when the event is a request to this service.
    pub request: Option<RequestRoute>,
}

/// The bookkeeping of one connection to the service bus.
pub struct BusSession {
    service_id: String,
    instance_id: String,
    pending: VecDeque<u64>,
    event_handlers: TextMap<Vec<u64>>,
    request_handlers: TextMap<u64>,
}

/// `dst` followed by `src`.
fn append_ids(dst: &mut Vec<u64>, src: &Vec<u64>)
    ensures
        final(dst)@ == old(dst)@ + src@,
{
    let ghost start = dst@;
    let mut i: usize = 0;
    while i < src.len()
        invariant
            i <= src@.len(),
            dst@ == start + src@.subrange(0, i as int),
        decreases src@.len() - i,
    {
        dst.push(src[i]);
        i += 1;
        assert(dst@ =~= start + src@.subrange(0, i as int));
    }
    assert(src@.subrange(0, src@.len() as int) =~= src@);
}

impl BusSession {
    /// The service this connection belongs to.
    pub closed spec fn service(&self) -> Seq<char> {
        self.service_id@
    }

    /// The service instance this connection belongs to.
    pub closed spec fn instance(&self) -> Seq<char> {
        self.instance_id@
    }

    /// Commands waiting for a reply, oldest first.
    pub closed spec fn pending(&self) -> Seq<u64> {
        self.pending@
    }

    /// Event handlers by topic, each list in registration order.
    pub closed spec fn event_handlers(&self) -> Map<Seq<char>, Seq<u64>> {
        self.event_handlers@
    }

    /// Request handlers by message type.
    pub closed spec fn request_handlers(&self) -> Map<Seq<char>, u64> {
        self.request_handlers@
    }

    /// A connection with nothing waiting and no handler registered.
    pub fn new(service_id: String, instance_id: String) -> (s: BusSession)
        ensures
            s.service() == service_id@,
            s.instance() == instance_id@,
            s.pending() == Seq::<u64>::empty(),
            s.event_handlers() == Map::<Seq<char>, Seq<u64>>::empty(),
            s.request_handlers() == Map::<Seq<char>, u64>::empty(),
    {
        BusSession {
            service_id,
            instance_id,
            pending: VecDeque::new(),
            event_handlers: TextMap::new(),
            request_handlers: TextMap::new(),
        }
    }

    /// The `service:instance` key that names this connection in diagnostics.
    pub fn connection_key(&self) -> (key: String)
        ensures
            key@ == self.service() + ":"@ + self.instance(),
    {
        let mut key = joined(self.service_id.as_str(), ":");
        key.append(self.instance_id.as_str());
        key
    }

    /// The topic on which this service receives requests.
    pub fn service_topic(&self) -> (topic: String)
        ensures
            topic@ == service_topic_of(self.service()),
            topic@.len() == 8 + self.service().len(),
            topic@.subrange(0, 8) == "service-"@,
            forall|i: int| 0 <= i < self.service().len() ==> #[trigger] topic@[8 + i] == self.service()[i],
    {
        proof {
            reveal_strlit("service-");
        }
        let topic = joined(SERVICE_TOPIC_PREFIX, self.service_id.as_str());
        assert(topic@.subrange(0, 8) =~= "service-"@);
        topic
    }

    /// The `subscribe` command sent before an event handler is registered for
    /// `topic`: a subscription to that topic alone.
    pub fn event_handler_subscription(topic: &String) -> (m: ServiceBusProtocolMessage)
        ensures
            m.frame_type@ == protocol_types::SUBSCRIBE@,
            m.topics matches Some(topics) && topics@.len() == 1 && topics@[0] == *topic,
            m == (ServiceBusProtocolMessage { topics: m.topics, ..blank_frame(m.frame_type) }),
    {
        let mut topics: Vec<String> = Vec::new();
        topics.push(topic.clone());
        subscribe_frame(topics)
    }

    /// The `subscribe` command sent before a request handler is registered: a
    /// subscription to this service's request topic alone.
    pub fn request_handler_subscription(&self) -> (m: ServiceBusProtocolMessage)
        ensures
            m.frame_type@ == protocol_types::SUBSCRIBE@,
            m.topics matches Some(topics) && topics@.len() == 1 && topics@[0]@ == service_topic_of(
                self.service(),
            ),
            m.topics matches Some(topics) && topics@.len() == 1 && topics@[0]@.len() == 8
                + self.service().len() && topics@[0]@.subrange(0, 8) == "service-"@ && (forall|
                i: int,
            |
                0 <= i < self.service().len() ==> #[trigger] topics@[0]@[8 + i]
                    == self.service()[i]),
            m == (ServiceBusProtocolMessage { topics: m.topics, ..blank_frame(m.frame_type) }),
    {
        let mut topics: Vec<String> = Vec::new();
        topics.push(self.service_topic());
        subscribe_frame(topics)
    }

    /// Records that a command has been queued for sending and waits for a reply under `ticket`.
    pub fn await_reply(&mut self, ticket: u64)
        ensures
            final(self).pending() == old(self).pending().push(ticket),
            final(self).service() == old(self).service(),
            final(self).instance() == old(self).instance(),
            final(self).event_handlers() == old(self).event_handlers(),
            final(self).request_handlers() == old(self).request_handlers(),
    {
        self.pending.push_back(ticket);
    }

    /// Withdraws the command queued last, whose frame could not be written.
    pub fn withdraw_newest(&mut self) -> (ticket: Option<u64>)
        ensures
            old(self).pending().len() == 0 ==> ticket is None && final(self).pending() == old(
                self,
            ).pending(),
            old(self).pending().len() > 0 ==> ticket == Some(old(self).pending().last())
                && final(self).pending() == old(self).pending().drop_last(),
            final(self).service() == old(self).service(),
            final(self).instance() == old(self).instance(),
            final(self).event_handlers() == old(self).event_handlers(),
            final(self).request_handlers() == old(self).request_handlers(),
    {
        let t = self.pending.pop_back();
        proof {
            if old(self).pending().len() > 0 {
                assert(old(self).pending().subrange(0, old(self).pending().len() - 1)
                    =~= old(self).pending().drop_last());
            }
        }
        t
    }

    /// Decides what to do with a frame read from the bus: an event with an
    /// envelope is dispatched, a reply goes to the oldest waiting command, and
    /// anything else is dropped.
    pub fn on_frame(&mut self, frame: ServiceBusProtocolMessage) -> (action: IncomingAction)
        ensures
            final(self).service() == old(self).service(),
            final(self).instance() == old(self).instance(),
            final(self).event_handlers() == old(self).event_handlers(),
            final(self).request_handlers() == old(self).request_handlers(),
            if frame.frame_type@ == protocol_types::EVENT@ {
                &&& final(self).pending() == old(self).pending()
                &&& match frame.event {
                    Some(e) => action == IncomingAction::DispatchEvent(e),
                    None => action is Ignore,
                }
            } else if is_reply_frame_type(frame.frame_type@) && old(self).pending().len() > 0 {
                &&& action == (IncomingAction::Deliver {
                    ticket: old(self).pending()[0],
                    reply: frame,
                })
                &&& final(self).pending() == old(self).pending().drop_first()
            } else {
                &&& action is Ignore
                &&& final(self).pending() == old(self).pending()
            },
            (final(self).pending(), delivered_ticket(action)) == reply_step(
                old(self).pending(),
                frame.frame_type@,
            ),
    {
        if text_is(&frame.frame_type, protocol_types::EVENT) {
            match frame.event {
                Some(e) => IncomingAction::DispatchEvent(e),
                None => IncomingAction::Ignore,
            }
        } else if text_is(&frame.frame_type, protocol_types::ACK) || text_is(
            &frame.frame_type,
            protocol_types::ERROR,
        ) || text_is(&frame.frame_type, protocol_types::FORWARD_RESPONSE) {
            match self.pending.pop_front() {
                Some(ticket) => {
                    assert(old(self).pending().subrange(1, old(self).pending().len() as int)
                        =~= old(self).pending().drop_first());
                    IncomingAction::Deliver { ticket, reply: frame }
                },
                None => IncomingAction::Ignore,
            }
        } else {
            IncomingAction::Ignore
        }
    }

    /// Registers event handler `handler` for `topic`, after those already registered there.
    pub fn add_event_handler(&mut self, topic: String, handler: u64)
        ensures
            final(self).event_handlers() == old(self).event_handlers().insert(
                topic@,
                handlers_on(old(self).event_handlers(), topic@).push(handler),
            ),
            final(self).event_handlers().contains_key(topic@),
            final(self).event_handlers()[topic@] == (if old(self).event_handlers().contains_key(
                topic@,
            ) {
                old(self).event_handlers()[topic@]
            } else {
                Seq::<u64>::empty()
            }).push(handler),
            forall|k: Seq<char>|
                k != topic@ ==> (#[trigger] final(self).event_handlers().contains_key(k)
                    == old(self).event_handlers().contains_key(k)) && (old(
                    self,
                ).event_handlers().contains_key(k) ==> final(self).event_handlers()[k] == old(
                    self,
                ).event_handlers()[k]),
            final(self).service() == old(self).service(),
            final(self).instance() == old(self).instance(),
            final(self).pending() == old(self).pending(),
            final(self).request_handlers() == old(self).request_handlers(),
    {
        let mut list: Vec<u64> = Vec::new();
        match self.event_handlers.get(topic.as_str()) {
            Some(existing) => append_ids(&mut list, existing),
            None => {},
        }
        assert(list@ =~= handlers_on(old(self).event_handlers(), topic@));
        list.push(handler);
        self.event_handlers.insert(topic, list);
    }

    /// Registers request handler `handler` for `message_type`, replacing any earlier one.
    pub fn set_request_handler(&mut self, message_type: String, handler: u64)
        ensures
            final(self).request_handlers() == old(self).request_handlers().insert(
                message_type@,
                handler,
            ),
            final(self).service() == old(self).service(),
            final(self).instance() == old(self).instance(),
            final(self).pending() == old(self).pending(),
            final(self).event_handlers() == old(self).event_handlers(),
    {
        self.request_handlers.insert(message_type, handler);
    }

    /// Where an incoming event goes: the handlers of its topic and of the
    /// wildcard topic; and, when the event arrives on this service's request
    /// topic, names a message type that has a request handler, and carries a
    /// `reply_to` string, that request handler with a responder for the reply topic.
    pub fn route_event(&self, event: &ServiceBusEventEnvelope) -> (route: EventRoute)
        ensures
            route.handlers@ == routed_handlers(self.event_handlers(), event.topic@),
            route.handlers@ == (if self.event_handlers().contains_key(event.topic@) {
                self.event_handlers()[event.topic@]
            } else {
                Seq::<u64>::empty()
            }) + (if self.event_handlers().contains_key(WILDCARD_TOPIC@) {
                self.event_handlers()[WILDCARD_TOPIC@]
            } else {
                Seq::<u64>::empty()
            }),
            route.request is Some <==> {
                &&& event.topic@ == service_topic_of(self.service())
                &&& event.topic@.len() == 8 + self.service().len()
                &&& event.topic@.subrange(0, 8) == "service-"@
                &&& forall|i: int|
                    0 <= i < self.service().len() ==> #[trigger] event.topic@[8 + i]
                        == self.service()[i]
                &&& self.request_handlers().contains_key(event.message_type@)
                &&& reply_topic_of(event.payload@) is Some
            },
            route.request matches Some(q) ==> {
                &&& q.handler == self.request_handlers()[event.message_type@]
                &&& Some(q.responder.reply_topic()) == reply_topic_of(event.payload@)
                &&& q.responder.causation() == event.event_id@
                &&& q.responder.correlation() == event.correlation_id
                &&& q.responder.default_type() == event.message_type@
            },
    {
        let mut handlers: Vec<u64> = Vec::new();
        match self.event_handlers.get(event.topic.as_str()) {
            Some(list) => append_ids(&mut handlers, list),
            None => {},
        }
        match self.event_handlers.get(WILDCARD_TOPIC) {
            Some(list) => append_ids(&mut handlers, list),
            None => {},
        }
        assert(handlers@ =~= routed_handlers(self.event_handlers(), event.topic@));

        let service_topic = self.service_topic();
        let mut request: Option<RequestRoute> = None;
        if text_is(&event.topic, service_topic.as_str()) {
            match self.request_handlers.get(event.message_type.as_str()) {
                Some(handler) => match reply_to_of(&event.payload) {
                    Some(reply_to) => {
                        request = Some(
                            RequestRoute {
                                handler: *handler,
                                responder: RequestResponder::for_request(event, reply_to),
                            },
                        );
                    },
                    None => {},
                },
                None => {},
            }
        }
        EventRoute { handlers, request }
    }
}

/// The request topic of a service is `service-` followed by the whole
/// service id: eight characters longer than the id, starting with
/// `service-`, and holding the id character for character from index eight on.
pub proof fn service_topic_names_the_whole_service(service_id: Seq<char>)
    ensures
        service_topic_of(service_id).len() == 8 + service_id.len(),
        service_topic_of(service_id).subrange(0, 8) == "service-"@,
        forall|i: int|
            0 <= i < service_id.len() ==> #[trigger] service_topic_of(service_id)[8 + i]
                == service_id[i],
        forall|t: Seq<char>|
            t.len() == 8 + service_id.len() && t.subrange(0, 8) == "service-"@ && (forall|i: int|
                0 <= i < service_id.len() ==> #[trigger] t[8 + i] == service_id[i])
                ==> #[trigger] service_topic_of(service_id) == t,
{
    reveal_strlit("service-");
    assert(service_topic_of(service_id).subrange(0, 8) =~= "service-"@);
    assert forall|t: Seq<char>|
        t.len() == 8 + service_id.len() && t.subrange(0, 8) == "service-"@ && (forall|i: int|
            0 <= i < service_id.len() ==> #[trigger] t[8 + i] == service_id[i])
            implies #[trigger] service_topic_of(service_id) == t by {
        assert forall|j: int| 0 <= j < t.len() implies service_topic_of(service_id)[j] == t[j] by {
            if j < 8 {
                assert(t.subrange(0, 8)[j] == t[j]);
                assert(service_topic_of(service_id).subrange(0, 8)[j] == service_topic_of(
                    service_id,
                )[j]);
            } else {
                assert(t[8 + (j - 8)] == service_id[j - 8]);
            }
        }
        assert(service_topic_of(service_id) =~= t);
    }
}

/// Replies are matched to commands first in, first out: once the commands
/// that were already waiting have had their replies, the reply frames that
/// follow go to the commands sent afterwards, in the order they were sent.
/// (`on_frame` hands each reply to the first waiting ticket and drops it.)
pub proof fn replies_follow_send_order(waiting: Seq<u64>, sent: Seq<u64>, k: int)
    requires
        0 <= k < sent.len(),
    ensures
        (waiting + sent).skip(waiting.len() + k).len() > 0,
        (waiting + sent).skip(waiting.len() + k)[0] == sent[k],
{
}

/// Handing out one reply and then `k` more is handing out `k + 1` replies:
/// after `n` replies the waiting list is the one before them without its first `n` tickets.
pub proof fn replies_consume_in_order(waiting: Seq<u64>, k: int)
    requires
        0 <= k,
        k + 1 <= waiting.len(),
    ensures
        waiting.drop_first().skip(k) == waiting.skip(k + 1),
{
    assert(waiting.drop_first().skip(k) =~= waiting.skip(k + 1));
}

/// Withdrawing the newest command right after queuing it restores the waiting
/// list and hands back the ticket that was queued.
pub proof fn withdraw_undoes_await(waiting: Seq<u64>, ticket: u64)
    ensures
        waiting.push(ticket).len() > 0,
        waiting.push(ticket).last() == ticket,
        waiting.push(ticket).drop_last() == waiting,
{
    assert(waiting.push(ticket).drop_last() =~= waiting);
}

/// A handler registered for a topic other than the wildcard is handed every
/// later event on that topic, after the handlers registered there before it
/// and before the wildcard handlers.
pub proof fn registered_event_handler_is_routed(
    handlers: Map<Seq<char>, Seq<u64>>,
    topic: Seq<char>,
    handler: u64,
)
    requires
        topic != WILDCARD_TOPIC@,
    ensures
        routed_handlers(handlers.insert(topic, handlers_on(handlers, topic).push(handler)), topic)
            == handlers_on(handlers, topic).push(handler) + handlers_on(
            handlers,
            WILDCARD_TOPIC@,
        ),
{
}

/// Registering a handler on the wildcard topic adds it to the handlers of
/// every event: whatever the event's topic, the handlers it is handed end with
/// all the wildcard handlers registered before, followed by the new one.
/// (Here `before` and `after` are the event-handler tables around
/// `add_event_handler("*", handler)`, and the handed list is what
/// `route_event` returns.)
pub proof fn wildcard_handler_reaches_every_event(
    before: Map<Seq<char>, Seq<u64>>,
    after: Map<Seq<char>, Seq<u64>>,
    handler: u64,
    event_topic: Seq<char>,
)
    requires
        after.contains_key(WILDCARD_TOPIC@),
        after[WILDCARD_TOPIC@] == (if before.contains_key(WILDCARD_TOPIC@) {
            before[WILDCARD_TOPIC@]
        } else {
            Seq::<u64>::empty()
        }).push(handler),
    ensures
        ({
            let handed = (if after.contains_key(event_topic) {
                after[event_topic]
            } else {
                Seq::<u64>::empty()
            }) + after[WILDCARD_TOPIC@];
            let earlier = if before.contains_key(WILDCARD_TOPIC@) {
                before[WILDCARD_TOPIC@]
            } else {
                Seq::<u64>::empty()
            };
            &&& handed.len() >= earlier.len() + 1
            &&& handed.subrange(handed.len() - earlier.len() - 1, handed.len() as int)
                == earlier.push(handler)
        }),
{
    let handed = (if after.contains_key(event_topic) {
        after[event_topic]
    } else {
        Seq::<u64>::empty()
    }) + after[WILDCARD_TOPIC@];
    let earlier = if before.contains_key(WILDCARD_TOPIC@) {
        before[WILDCARD_TOPIC@]
    } else {
        Seq::<u64>::empty()
    };
    let front = if after.contains_key(event_topic) {
        after[event_topic]
    } else {
        Seq::<u64>::empty()
    };
    assert(handed.subrange(handed.len() - earlier.len() - 1, handed.len() as int)
        =~= earlier.push(handler)) by {
        assert(handed.len() == front.len() + earlier.len() + 1);
    }
}

/// Registering an event handler changes where no event on another topic goes.
pub proof fn event_handler_registration_is_local(
    handlers: Map<Seq<char>, Seq<u64>>,
    topic: Seq<char>,
    handler: u64,
    other: Seq<char>,
)
    requires
        topic != WILDCARD_TOPIC@,
        other != topic,
    ensures
        routed_handlers(handlers.insert(topic, handlers_on(handlers, topic).push(handler)), other)
            == routed_handlers(handlers, other),
{
}

/// Wildcard handlers are handed every event, whatever its topic, after the topic's own.
pub proof fn wildcard_handlers_see_every_event(
    handlers: Map<Seq<char>, Seq<u64>>,
    topic: Seq<char>,
)
    ensures
        routed_handlers(handlers, topic).skip(handlers_on(handlers, topic).len() as int)
            == handlers_on(handlers, WILDCARD_TOPIC@),
{
    assert(routed_handlers(handlers, topic).skip(handlers_on(handlers, topic).len() as int)
        =~= handlers_on(handlers, WILDCARD_TOPIC@));
}

/// The answer to a routed request goes back where the requester waits: it is
/// published on the request's `reply_to` topic, keeps the request's
/// correlation id, and names the request event as its cause. (`route_event`
/// builds the responder; `reply_event` and `reply_ok_event` build the answer.)
pub proof fn answer_returns_to_requester(
    request: ServiceBusEventEnvelope,
    responder: RequestResponder,
    answer: ServiceBusEventEnvelope,
)
    requires
        Some(responder.reply_topic()) == reply_topic_of(request.payload@),
        responder.causation() == request.event_id@,
        responder.correlation() == request.correlation_id,
        answer.topic@ == responder.reply_topic(),
        answer.correlation_id == responder.correlation(),
        answer.causation_id matches Some(c) && c@ == responder.causation(),
    ensures
        reply_topic_of(request.payload@) == Some(answer.topic@),
        answer.correlation_id == request.correlation_id,
        answer.causation_id matches Some(c) && c@ == request.event_id@,
{
}

/// Replies reach commands in the order the commands were sent, over any run
/// of frames: with commands waiting under `pending` (oldest first) and frames
/// of types `frame_types` read in order, the `k`-th frame that answers a
/// command goes to the `k`-th waiting command, answers beyond the waiting
/// commands are dropped, no other frame is delivered to any command, and the
/// commands left waiting are those not yet answered.
pub proof fn replies_reach_commands_in_order(pending: Seq<u64>, frame_types: Seq<Seq<char>>)
    ensures
        reply_run(pending, frame_types).1.len() == frame_types.len(),
        forall|i: int|
            0 <= i < frame_types.len() ==> #[trigger] reply_run(pending, frame_types).1[i] == (
            if answers_command(frame_types[i]) && count_answers(frame_types.take(i))
                < pending.len() {
                Some(pending[count_answers(frame_types.take(i)) as int])
            } else {
                None::<u64>
            }),
        reply_run(pending, frame_types).0 == pending.skip(
            if count_answers(frame_types) < pending.len() {
                count_answers(frame_types) as int
            } else {
                pending.len() as int
            },
        ),
    decreases frame_types.len(),
{
    if frame_types.len() == 0 {
        assert(pending.skip(0) =~= pending);
    } else {
        let first = frame_types[0];
        let rest_types = frame_types.drop_first();
        let step = reply_step(pending, first);
        replies_reach_commands_in_order(step.0, rest_types);
        let run = reply_run(pending, frame_types);
        let rest = reply_run(step.0, rest_types);
        assert(run.1 == seq![step.1] + rest.1);
        assert forall|i: int| 0 <= i < frame_types.len() implies #[trigger] run.1[i] == (
        if answers_command(frame_types[i]) && count_answers(frame_types.take(i))
            < pending.len() {
            Some(pending[count_answers(frame_types.take(i)) as int])
        } else {
            None::<u64>
        }) by {
            if i == 0 {
                assert(frame_types.take(0) =~= Seq::<Seq<char>>::empty());
            } else {
                let taken = frame_types.take(i);
                assert(taken[0] == first);
                assert(taken.drop_first() =~= rest_types.take(i - 1));
                assert(rest_types[i - 1] == frame_types[i]);
                assert(run.1[i] == rest.1[i - 1]);
            }
        }
        if answers_command(first) && pending.len() > 0 {
            assert(pending.drop_first().skip(
                if count_answers(rest_types) < pending.len() - 1 {
                    count_answers(rest_types) as int
                } else {
                    pending.len() - 1
                },
            ) =~= pending.skip(
                if count_answers(frame_types) < pending.len() {
                    count_answers(frame_types) as int
                } else {
                    pending.len() as int
                },
            ));
        } else if answers_command(first) {
            assert(pending.skip(0) =~= pending);
            assert(pending.skip(pending.len() as int) =~= pending);
        }
    }
}

/// Exactly the `ack`, `error` and `forward_response` frames answer a
/// command; an `event` frame never does.
pub proof fn answers_are_ack_error_and_forward_response(frame_type: Seq<char>)
    ensures
        answers_command(frame_type) <==> (frame_type == "ack"@ || frame_type == "error"@
            || frame_type == "forward_response"@),
        !answers_command("event"@),
{
    reveal_strlit("ack");
    reveal_strlit("error");
    reveal_strlit("forward_response");
    reveal_strlit("event");
    assert("event"@.len() == 5 && "error"@.len() == 5 && "ack"@.len() == 3);
    assert("event"@[0] == 'e' && "error"@[1] == 'r' && "event"@[1] == 'v');
    assert("forward_response"@.len() == 16);
}

} // verus!
