//! What holds of an endpoint over several steps.

use libp2p_core::transport::ListenerId;
use libp2p_swarm::ConnectionId;
use vstd::prelude::*;

use super::behaviour::{
    handler_reply, relay_error, relay_failure, relay_failures, relay_replies, Delivery, DialReply,
    ListenerSenderWithId, PendingNewConnection, PollStep, State,
};
use super::event::{
    BehaviourToTransportEvent, ConnectionHandlerInEvent, ConnectionHandlerOutEvent,
    TransportToBehaviourEvent,
};
use super::handler::{reported, requested, OutboundOutput};
use super::upgrade::inbound::InboundDecision;
use crate::address::{Multiaddr, PeerId};
use crate::connection::Connection;
use crate::message::ConnectRequest;
use crate::swarm::{
    only_events, ConnectionEvent, FromSwarm, NegotiationError, NetworkBehaviourAction, Polled,
    Readiness,
};
use crate::table::Table;

verus! {

/// The swarm is asked to dial a relay.
pub open spec fn dials<S, O, D>(step: PollStep<S, O, D>, relay: Seq<u8>) -> bool {
    step matches PollStep::Done(Polled::Ready(NetworkBehaviourAction::Dial { peer_id, .. }))
        && peer_id@ == relay
}

/// A handler of a relay is asked for something.
pub open spec fn notifies<S, O, D>(
    step: PollStep<S, O, D>,
    relay: Seq<u8>,
    request: ConnectionHandlerInEvent<O>,
) -> bool {
    step matches PollStep::Done(
        Polled::Ready(NetworkBehaviourAction::NotifyHandler { peer_id, event, .. }),
    ) && peer_id@ == relay && event == request
}

/// A poll asks the swarm to dial a relay exactly if it takes a request that goes through the relay,
/// the relay is not connected, and it is not being dialed. From then on it is being dialed.
pub proof fn lemma_dialed_once<S, O, L, T, D>(
    s: State<S, O, L, T, D>,
    received: Option<TransportToBehaviourEvent<O, L>>,
    relay: Seq<u8>,
)
    requires
        only_events(s.actions),
    ensures
        dials(s.poll(received).1, relay) <==> {
            &&& received matches Some(event)
            &&& event.relay_peer_id_spec()@ == relay
            &&& !s.established.contains_key(relay)
            &&& !s.connecting.contains(relay)
        },
        dials(s.poll(received).1, relay) ==> s.poll(received).0.connecting == s.connecting.insert(
            relay,
        ),
{
}

/// Once a poll has begun, no step of it asks the swarm to dial any more.
pub proof fn lemma_dials_only_at_first<S, O, L, T, D>(
    s: State<S, O, L, T, D>,
    new_connection: PendingNewConnection<S>,
    listener_id: ListenerId,
    listener: Readiness<D>,
    delivery: Delivery,
    delivered: Result<(), D>,
    at: int,
    event: BehaviourToTransportEvent,
    room: Readiness<()>,
    sent: bool,
    relay: Seq<u8>,
)
    requires
        only_events(s.actions),
    ensures
        !dials(s.listener_ready(new_connection, listener_id, listener).1, relay),
        !dials(s.listener_sent(delivery, delivered).1, relay),
        !dials(s.listener_flushed(delivery, delivered).1, relay),
        !dials(s.transport_ready(at, event, room).1, relay),
        !dials(s.transport_sent(at, sent).1, relay),
{
}

impl<S, O, L, T, D> State<S, O, L, T, D> {
    /// Polls with one request after the other.
    pub open spec fn poll_all(self, events: Seq<TransportToBehaviourEvent<O, L>>) -> Self
        decreases events.len(),
    {
        if events.len() == 0 {
            self
        } else {
            self.poll(Some(events[0])).0.poll_all(events.drop_first())
        }
    }
}

/// The requests that come for a relay which is not connected wait in the order in which they come,
/// behind those that wait already. When the relay is connected they are released in that order,
/// and nothing waits for it any more.
pub proof fn lemma_released_in_order<S, O, L, T, D>(
    s: State<S, O, L, T, D>,
    relay: Seq<u8>,
    events: Seq<TransportToBehaviourEvent<O, L>>,
    id: ConnectionId,
)
    requires
        !s.established.contains_key(relay),
        events.len() > 0,
        forall|i: int|
            0 <= i < events.len() ==> (#[trigger] events[i]).relay_peer_id_spec()@ == relay,
    ensures
        s.poll_all(events).waiting_for(relay) == s.waiting_for(relay) + events,
        s.poll_all(events).connecting.contains(relay),
        s.poll_all(events).connection_established(relay, id).released == s.released
            + s.waiting_for(relay) + events,
        s.poll_all(events).connection_established(relay, id).waiting_for(relay).len() == 0,
        s.poll_all(events).connection_established(relay, id).established.contains_key(relay),
{
    lemma_wait(s, relay, events);
    let after = s.poll_all(events);
    assert(after.released + after.waiting_for(relay) =~= s.released + s.waiting_for(relay) + events);
}

/// Requests wait in order.
proof fn lemma_wait<S, O, L, T, D>(
    s: State<S, O, L, T, D>,
    relay: Seq<u8>,
    events: Seq<TransportToBehaviourEvent<O, L>>,
)
    requires
        !s.established.contains_key(relay),
        forall|i: int|
            0 <= i < events.len() ==> (#[trigger] events[i]).relay_peer_id_spec()@ == relay,
    ensures
        s.poll_all(events).waiting_for(relay) == s.waiting_for(relay) + events,
        s.poll_all(events).released == s.released,
        events.len() > 0 || s.connecting.contains(relay) ==> s.poll_all(
            events,
        ).connecting.contains(relay),
    decreases events.len(),
{
    if events.len() == 0 {
        assert(s.waiting_for(relay) + events =~= s.waiting_for(relay));
    } else {
        let next = s.poll(Some(events[0])).0;
        let rest = events.drop_first();
        assert forall|i: int| 0 <= i < rest.len() implies (#[trigger] rest[i]).relay_peer_id_spec()@
            == relay by {
            assert(rest[i] == events[i + 1]);
        }
        lemma_wait(next, relay, rest);
        assert(s.waiting_for(relay).push(events[0]) + rest =~= s.waiting_for(relay) + events);
    }
}

/// The requests that have been released are handed to the handlers of their relays in order, as
/// long as the transports send nothing.
pub proof fn lemma_released_begins<S, O, L, T, D>(s: State<S, O, L, T, D>)
    requires
        s.released.len() > 0,
    ensures
        s.poll(None).0.released == s.released.drop_first(),
        match s.released[0] {
            TransportToBehaviourEvent::Dial {
                dst_peer_id,
                dst_addr,
                relay_peer_id,
                connection_sender,
                ..
            } => notifies(
                s.poll(None).1,
                relay_peer_id@,
                ConnectionHandlerInEvent::Dial { dst_peer_id, dst_addr, connection_sender },
            ),
            TransportToBehaviourEvent::Listen {
                listener_id,
                local_peer_id,
                local_addr,
                relay_peer_id,
                ..
            } => notifies(
                s.poll(None).1,
                relay_peer_id@,
                ConnectionHandlerInEvent::Listen { listener_id, local_peer_id, local_addr },
            ),
        },
{
}

/// When a relay that has a transport could not be dialed, the transport is told of every request
/// that waited for it, one by one and in order, behind what it is still to be told. Nothing waits
/// for the relay any more.
pub proof fn lemma_dial_failure_is_told<S, O, L, T, D>(
    s: State<S, O, L, T, D>,
    relay: Seq<u8>,
    error: String,
)
    requires
        s.to_transport.contains_key(relay),
    ensures
        s.dial_failed(relay, error).waiting_for(relay).len() == 0,
        s.dial_failed(relay, error).to_transport[relay].len() == s.to_transport[relay].len()
            + s.waiting_for(relay).len(),
        forall|i: int|
            0 <= i < s.to_transport[relay].len() ==> #[trigger] s.dial_failed(
                relay,
                error,
            ).to_transport[relay][i] == s.to_transport[relay][i],
        forall|i: int|
            0 <= i < s.waiting_for(relay).len() ==> s.dial_failed(
                relay,
                error,
            ).to_transport[relay][s.to_transport[relay].len() + i] == relay_failure(
                #[trigger] s.waiting_for(relay)[i],
                error,
            ),
{
    if s.waiting.contains_key(relay) {
        assert(relay_failures(s.waiting[relay], error).len() == s.waiting[relay].len());
    }
}

/// How many of the requests are dials.
pub open spec fn dial_count<O, L>(events: Seq<TransportToBehaviourEvent<O, L>>) -> nat
    decreases events.len(),
{
    if events.len() == 0 {
        0
    } else {
        dial_count(events.drop_last()) + if events.last() is Dial {
            1nat
        } else {
            0nat
        }
    }
}

/// When a relay could not be dialed, each dialer whose request waited for it is told so through its
/// own sender: the reply to a dial stands where the dial stands among the dials.
pub proof fn lemma_dialers_are_told<S, O, L>(
    events: Seq<TransportToBehaviourEvent<O, L>>,
    error: String,
)
    ensures
        relay_replies::<S, O, L>(events, error).len() == dial_count(events),
        forall|i: int|
            0 <= i < events.len() && (#[trigger] events[i]) is Dial ==> {
                &&& dial_count(events.take(i)) < relay_replies::<S, O, L>(events, error).len()
                &&& relay_replies::<S, O, L>(events, error)[dial_count(events.take(i)) as int]
                    == (DialReply::<S, O> {
                    sender: events[i]->Dial_connection_sender,
                    result: Err(relay_error(events[i], error)),
                })
            },
    decreases events.len(),
{
    if events.len() > 0 {
        let front = events.drop_last();
        lemma_dialers_are_told::<S, O, L>(front, error);
        assert forall|i: int| 0 <= i < events.len() && (#[trigger] events[i]) is Dial implies {
            &&& dial_count(events.take(i)) < relay_replies::<S, O, L>(events, error).len()
            &&& relay_replies::<S, O, L>(events, error)[dial_count(events.take(i)) as int] == (
            DialReply::<S, O> {
                sender: events[i]->Dial_connection_sender,
                result: Err(relay_error(events[i], error)),
            })
        } by {
            if i < front.len() {
                assert(front[i] == events[i]);
                assert(front.take(i) =~= events.take(i));
            } else {
                assert(events.take(i) =~= front);
            }
        }
    }
}

/// A relay that was dialed counts as connected until its last connection is closed.
pub proof fn lemma_connected_while_open<S, O, L, T, D>(
    s: State<S, O, L, T, D>,
    relay: Seq<u8>,
    first: ConnectionId,
    second: ConnectionId,
)
    requires
        s.connecting.contains(relay),
        !s.established.contains_key(relay),
    ensures
        s.connection_established(relay, first).established.contains_key(relay),
        first != second ==> s.connection_established(relay, first).connection_closed(
            relay,
            second,
        ).established == s.connection_established(relay, first).established,
        s.connection_established(relay, first).connection_closed(relay, first).established
            == s.established,
{
    let open = s.connection_established(relay, first);
    assert(Set::<ConnectionId>::empty().insert(first).remove(first) =~= Set::empty());
    assert(open.established.remove(relay) =~= s.established);
    if first != second {
        assert(open.established[relay].remove(second) =~= open.established[relay]);
        assert(open.established[relay].contains(first));
        assert(open.connection_closed(relay, second).established =~= open.established);
    }
}

/// A connection whose listener has no room is neither lost nor overtaken.
pub proof fn lemma_waiting_connection_is_kept<S, O, L, T, D>(
    s: State<S, O, L, T, D>,
    new_connection: PendingNewConnection<S>,
    listener_id: ListenerId,
)
    requires
        s.next_connection().1 == (PollStep::<S, O, D>::PollListener { new_connection, listener_id }),
        s.new_connections.len() > 0,
    ensures
        s.next_connection().0.listener_ready(
            new_connection,
            listener_id,
            Readiness::Pending,
        ).0.new_connections == s.new_connections,
{
    assert(seq![s.new_connections[0]] + s.new_connections.drop_first() =~= s.new_connections);
}

/// An event whose transport has no room is neither lost nor overtaken.
pub proof fn lemma_waiting_event_is_kept<S, O, L, T, D>(
    s: State<S, O, L, T, D>,
    from: int,
    at: usize,
    event: BehaviourToTransportEvent,
)
    requires
        0 <= from,
        s.relays.len() <= usize::MAX,
        s.relays.no_duplicates(),
        s.next_transport(from).1 == (PollStep::<S, O, D>::PollTransport { at, event }),
    ensures
        s.next_transport(from).0.transport_ready(
            at as int,
            event,
            Readiness::Pending,
        ).0.to_transport[s.relays[at as int]] == s.to_transport[s.relays[at as int]],
{
    lemma_untold(s, from);
    let relay = s.relays[at as int];
    let events = s.to_transport[relay];
    assert(seq![events[0]] + events.drop_first() =~= events);
    let popped = s.next_transport(from).0;
    let back = State {
        to_transport: popped.to_transport.insert(relay, seq![event] + popped.to_transport[relay]),
        ..popped
    };
    assert(back.to_transport[relay] == events);
    lemma_untold(back, at + 1);
}

/// The next transport to be told something is found at or behind the position, and the queues before
/// it are empty.
pub proof fn lemma_untold<S, O, L, T, D>(s: State<S, O, L, T, D>, from: int)
    requires
        0 <= from,
    ensures
        from <= s.first_untold(from),
        s.first_untold(from) < s.relays.len() ==> s.to_transport[s.relays[s.first_untold(
            from,
        )]].len() > 0,
        forall|j: int|
            from <= j < s.first_untold(from) && j < s.relays.len()
                ==> s.to_transport[#[trigger] s.relays[j]].len() == 0,
        from <= s.relays.len() ==> s.first_untold(from) <= s.relays.len(),
    decreases s.relays.len() - from,
{
    if from < s.relays.len() && s.to_transport[s.relays[from]].len() == 0 {
        lemma_untold(s, from + 1);
    }
}

/// What comes of a dial goes to the dialer that asked for it: the request that reaches a handler
/// keeps the sender with its substream, and whether the exchange there succeeds or fails, the
/// report of it is a reply through that sender.
pub proof fn lemma_dial_is_answered<S, O, D>(
    dst_peer_id: PeerId,
    dst_addr: Multiaddr,
    connection_sender: O,
    relay: PeerId,
    connection: Connection<S>,
    error: NegotiationError,
)
    ensures
        ({
            let request = requested::<S, O, D>(
                ConnectionHandlerInEvent::Dial { dst_peer_id, dst_addr, connection_sender },
            );
            let info = request->OutboundSubstreamRequest_info;
            let success = reported::<S, O, D>(
                relay,
                ConnectionEvent::FullyNegotiatedOutbound {
                    protocol: OutboundOutput::Dial(connection),
                    info,
                },
            );
            let failure = reported::<S, O, D>(
                relay,
                ConnectionEvent::DialUpgradeError { info, error },
            );
            &&& request is OutboundSubstreamRequest
            &&& success is Some && handler_reply(success->0) == Some(
                DialReply::<S, O> { sender: connection_sender, result: Ok(connection) },
            )
            &&& failure is Some && handler_reply(failure->0) == Some(
                DialReply::<S, O> { sender: connection_sender, result: Err(error.io_error()) },
            )
        }),
{
}

/// What comes of a listener is told to the transport of its relay, under the id of the listener.
pub proof fn lemma_listen_is_told<S, O, L, T, D>(
    s: State<S, O, L, T, D>,
    listener_id: ListenerId,
    local_peer_id: PeerId,
    local_addr: Multiaddr,
    relay: PeerId,
    error: NegotiationError,
)
    requires
        s.to_transport.contains_key(relay@),
    ensures
        ({
            let request = requested::<S, O, D>(
                ConnectionHandlerInEvent::Listen { listener_id, local_peer_id, local_addr },
            );
            let info = request->OutboundSubstreamRequest_info;
            let success = reported::<S, O, D>(
                relay,
                ConnectionEvent::FullyNegotiatedOutbound { protocol: OutboundOutput::Listen, info },
            );
            let failure = reported::<S, O, D>(
                relay,
                ConnectionEvent::DialUpgradeError { info, error },
            );
            &&& request is OutboundSubstreamRequest
            &&& success is Some && s.on_connection_handler_event(success->0).to_transport[relay@]
                == s.to_transport[relay@].push(
                BehaviourToTransportEvent::ListenSuccess { listener_id, listen_addr: local_addr },
            )
            &&& failure is Some && s.on_connection_handler_event(failure->0).to_transport[relay@]
                == s.to_transport[relay@].push(
                BehaviourToTransportEvent::ListenFailed {
                    err: error.io_error(),
                    listener_id,
                    local_addr,
                },
            )
        }),
{
}

/// A request of a relay that arrives is always answered.
pub proof fn lemma_request_is_answered(
    decision: InboundDecision,
    local_peer_id: Seq<u8>,
    request: ConnectRequest,
    dst_addr: Result<Seq<u8>, Seq<char>>,
    dst_peer_id: Result<Seq<u8>, Seq<char>>,
    dialer_addr: Result<Seq<u8>, Seq<char>>,
)
    requires
        decision.decides(local_peer_id, request, dst_addr, dst_peer_id, dialer_addr),
    ensures
        decision !is Fail,
        decision is Accept <==> dst_addr is Ok && dst_peer_id == Ok::<Seq<u8>, Seq<char>>(
            local_peer_id,
        ) && dialer_addr is Ok,
{
}

/// A relay that could not be dialed still counts as being dialed: later requests for it wait, and it
/// is not dialed again.
pub proof fn lemma_failed_relay_is_not_dialed_again<S, O, L, T, D>(
    s: State<S, O, L, T, D>,
    relay: Seq<u8>,
    error: String,
    event: TransportToBehaviourEvent<O, L>,
)
    requires
        only_events(s.actions),
        s.connecting.contains(relay),
        !s.established.contains_key(relay),
        event.relay_peer_id_spec()@ == relay,
    ensures
        s.dial_failed(relay, error).connecting.contains(relay),
        !dials(s.dial_failed(relay, error).poll(Some(event)).1, relay),
        s.dial_failed(relay, error).poll(Some(event)).0.waiting_for(relay) == seq![event],
{
    assert(Seq::<TransportToBehaviourEvent<O, L>>::empty().push(event) =~= seq![event]);
}

/// Anything that can happen to a behaviour.
pub enum Operation<S, O, L, D> {
    Poll(Option<TransportToBehaviourEvent<O, L>>),
    ListenerReady(PendingNewConnection<S>, ListenerId, Readiness<D>),
    ListenerSent(Delivery, Result<(), D>),
    ListenerFlushed(Delivery, Result<(), D>),
    TransportReady(usize, BehaviourToTransportEvent, Readiness<()>),
    TransportSent(usize, bool),
    SwarmEvent(FromSwarm),
    HandlerEvent(ConnectionHandlerOutEvent<S, O, D>),
}

impl<S, O, L, T, D> State<S, O, L, T, D> {
    /// What the behaviour becomes by an operation. A transport that is not there cannot be told
    /// anything.
    pub open spec fn apply(self, operation: Operation<S, O, L, D>) -> Self {
        match operation {
            Operation::Poll(received) => self.poll(received).0,
            Operation::ListenerReady(new_connection, listener_id, readiness) => {
                self.listener_ready(new_connection, listener_id, readiness).0
            },
            Operation::ListenerSent(delivery, sent) => self.listener_sent(delivery, sent).0,
            Operation::ListenerFlushed(delivery, flushed) => {
                self.listener_flushed(delivery, flushed).0
            },
            Operation::TransportReady(at, event, readiness) => if at < self.relays.len() {
                self.transport_ready(at as int, event, readiness).0
            } else {
                self
            },
            Operation::TransportSent(at, sent) => if at < self.relays.len() {
                self.transport_sent(at as int, sent).0
            } else {
                self
            },
            Operation::SwarmEvent(event) => self.on_swarm_event(event),
            Operation::HandlerEvent(event) => self.on_connection_handler_event(event),
        }
    }

    /// What the behaviour becomes by one operation after the other.
    pub open spec fn apply_all(self, operations: Seq<Operation<S, O, L, D>>) -> Self
        decreases operations.len(),
    {
        if operations.len() == 0 {
            self
        } else {
            self.apply(operations[0]).apply_all(operations.drop_first())
        }
    }

    /// The requests that wait for a relay all go through it, and it is being dialed; a relay that is
    /// being dialed is not connected; a connected relay has an open connection; and only events are
    /// kept for the swarm.
    pub open spec fn consistent(self) -> bool {
        &&& forall|relay: Seq<u8>| #[trigger]
            self.waiting.contains_key(relay) ==> {
                &&& self.connecting.contains(relay)
                &&& self.waiting[relay].len() > 0
                &&& forall|i: int|
                    0 <= i < self.waiting[relay].len() ==> (
                    #[trigger] self.waiting[relay][i]).relay_peer_id_spec()@ == relay
            }
        &&& forall|relay: Seq<u8>| #[trigger]
            self.connecting.contains(relay) ==> !self.established.contains_key(relay)
        &&& forall|relay: Seq<u8>| #[trigger]
            self.established.contains_key(relay) ==> !self.established[relay].is_empty()
        &&& only_events(self.actions)
    }
}

/// Every operation keeps a behaviour consistent: in particular no request is left waiting for a
/// relay that nobody dials.
pub proof fn lemma_operation_keeps_consistent<S, O, L, T, D>(
    s: State<S, O, L, T, D>,
    operation: Operation<S, O, L, D>,
)
    requires
        s.consistent(),
    ensures
        s.apply(operation).consistent(),
{
    match operation {
        Operation::Poll(Some(event)) => {
            let relay = event.relay_peer_id_spec()@;
            if !s.established.contains_key(relay) {
                let waiting = s.waiting.insert(relay, s.waiting_for(relay).push(event));
                let after = s.poll(Some(event)).0;
                assert(after.waiting == waiting);
                assert forall|r: Seq<u8>| #[trigger] after.waiting.contains_key(r) implies {
                    &&& after.connecting.contains(r)
                    &&& after.waiting[r].len() > 0
                    &&& forall|i: int|
                        0 <= i < after.waiting[r].len() ==> (
                        #[trigger] after.waiting[r][i]).relay_peer_id_spec()@ == r
                } by {
                    if r == relay {
                        let before = s.waiting_for(relay);
                        assert forall|i: int| 0 <= i < before.push(event).len() implies (
                        #[trigger] before.push(event)[i]).relay_peer_id_spec()@ == relay by {
                            if i < before.len() {
                                assert(s.waiting.contains_key(relay));
                                assert(before.push(event)[i] == s.waiting[relay][i]);
                            }
                        }
                    } else {
                        assert(s.waiting.contains_key(r));
                    }
                }
            }
        },
        Operation::SwarmEvent(FromSwarm::ConnectionEstablished { peer_id, connection_id }) => {
            let after = s.connection_established(peer_id@, connection_id);
            if s.connecting.contains(peer_id@) {
                assert(after.established[peer_id@].contains(connection_id));
            }
        },
        Operation::HandlerEvent(event) => {
            let after = s.on_connection_handler_event(event);
            assert(only_events(after.actions));
        },
        _ => {},
    }
}

/// A behaviour that starts out consistent, as a fresh one does, is so after any operations.
pub proof fn lemma_always_consistent<S, O, L, T, D>(
    s: State<S, O, L, T, D>,
    operations: Seq<Operation<S, O, L, D>>,
)
    requires
        s.consistent(),
    ensures
        s.apply_all(operations).consistent(),
    decreases operations.len(),
{
    if operations.len() > 0 {
        lemma_operation_keeps_consistent(s, operations[0]);
        lemma_always_consistent(s.apply(operations[0]), operations.drop_first());
    }
}

/// A behaviour to which nothing has happened yet is consistent.
pub proof fn lemma_fresh_is_consistent<S, O, L, T, D>(s: State<S, O, L, T, D>)
    requires
        s.waiting == Map::<Seq<u8>, Seq<TransportToBehaviourEvent<O, L>>>::empty(),
        s.connecting == Set::<Seq<u8>>::empty(),
        s.established == Map::<Seq<u8>, Set<ConnectionId>>::empty(),
        s.actions.len() == 0,
    ensures
        s.consistent(),
{
}

/// A request to listen on an address.
pub open spec fn claims<O, L>(event: TransportToBehaviourEvent<O, L>, addr: Seq<u8>) -> bool {
    event matches TransportToBehaviourEvent::Listen { local_addr, .. } && local_addr@ == addr
}

impl<S, O, L, D> Operation<S, O, L, D> {
    /// The operation brings a request to listen on an address.
    pub open spec fn claims(self, addr: Seq<u8>) -> bool {
        self matches Operation::Poll(Some(event)) && claims(event, addr)
    }
}

impl<S, O, L, T, D> State<S, O, L, T, D> {
    /// No request to listen on an address is on its way.
    pub open spec fn unclaimed(self, addr: Seq<u8>) -> bool {
        &&& forall|relay: Seq<u8>, i: int|
            self.waiting.contains_key(relay) && 0 <= i < self.waiting[relay].len() ==> !claims(
                #[trigger] self.waiting[relay][i],
                addr,
            )
        &&& forall|i: int|
            0 <= i < self.released.len() ==> !claims(#[trigger] self.released[i], addr)
    }
}

/// One operation leaves the listener of an address alone.
proof fn lemma_listener_kept<S, O, L, T, D>(
    s: State<S, O, L, T, D>,
    operation: Operation<S, O, L, D>,
    addr: Seq<u8>,
)
    requires
        s.unclaimed(addr),
        s.listeners.contains_key(addr),
        !operation.claims(addr),
    ensures
        s.apply(operation).unclaimed(addr),
        s.apply(operation).listeners.contains_key(addr),
        s.apply(operation).listeners[addr] == s.listeners[addr],
{
    let after = s.apply(operation);
    match operation {
        Operation::Poll(Some(event)) => {
            let relay = event.relay_peer_id_spec()@;
            if !s.established.contains_key(relay) {
                let before = s.waiting_for(relay);
                assert(after.waiting == s.waiting.insert(relay, before.push(event)));
                assert forall|r: Seq<u8>, i: int|
                    after.waiting.contains_key(r) && 0 <= i < after.waiting[r].len() implies !claims(
                    #[trigger] after.waiting[r][i],
                    addr,
                ) by {
                    if r == relay {
                        if i < before.len() {
                            assert(before.push(event)[i] == s.waiting[relay][i]);
                        }
                    } else {
                        assert(after.waiting[r] == s.waiting[r]);
                    }
                }
            }
        },
        Operation::Poll(None) => {
            if s.released.len() > 0 {
                assert(!claims(s.released[0], addr));
                assert forall|i: int| 0 <= i < after.released.len() implies !claims(
                    #[trigger] after.released[i],
                    addr,
                ) by {
                    assert(after.released[i] == s.released[i + 1]);
                }
            }
        },
        Operation::SwarmEvent(FromSwarm::ConnectionEstablished { peer_id, .. }) => {
            assert forall|i: int| 0 <= i < after.released.len() implies !claims(
                #[trigger] after.released[i],
                addr,
            ) by {
                if i < s.released.len() {
                    assert(after.released[i] == s.released[i]);
                } else {
                    let k = i - s.released.len();
                    assert(after.released[i] == s.waiting_for(peer_id@)[k]);
                    assert(after.released[i] == s.waiting[peer_id@][k]);
                }
            }
        },
        _ => {},
    }
}

/// Operations leave the listener of an address alone.
proof fn lemma_listener_stays<S, O, L, T, D>(
    s: State<S, O, L, T, D>,
    operations: Seq<Operation<S, O, L, D>>,
    addr: Seq<u8>,
)
    requires
        s.unclaimed(addr),
        s.listeners.contains_key(addr),
        forall|i: int| 0 <= i < operations.len() ==> !(#[trigger] operations[i]).claims(addr),
    ensures
        s.apply_all(operations).listeners.contains_key(addr),
        s.apply_all(operations).listeners[addr] == s.listeners[addr],
    decreases operations.len(),
{
    if operations.len() > 0 {
        lemma_listener_kept(s, operations[0], addr);
        let rest = operations.drop_first();
        assert forall|i: int| 0 <= i < rest.len() implies !(#[trigger] rest[i]).claims(addr) by {
            assert(rest[i] == operations[i + 1]);
        }
        lemma_listener_stays(s.apply(operations[0]), rest, addr);
    }
}

/// Once a listener was made to listen on an address, it is the one that connections for the address
/// go to, whatever happens after it, as long as nothing else is asked to listen on the address.
pub proof fn lemma_connection_reaches_listener<S, O, L, T, D>(
    s: State<S, O, L, T, D>,
    event: TransportToBehaviourEvent<O, L>,
    operations: Seq<Operation<S, O, L, D>>,
)
    requires
        event is Listen,
        s.unclaimed(event->Listen_local_addr@),
        forall|i: int|
            0 <= i < operations.len() ==> !(#[trigger] operations[i]).claims(
                event->Listen_local_addr@,
            ),
    ensures
        ({
            let addr = event->Listen_local_addr@;
            let after = s.begin(event).0.apply_all(operations);
            &&& after.listeners.contains_key(addr)
            &&& after.listeners[addr] == (ListenerSenderWithId {
                listener_id: event->Listen_listener_id,
                sender: event->Listen_connection_sender,
            })
            &&& after.new_connections.len() > 0 && after.new_connections[0].listen_addr@ == addr
                ==> after.next_connection().1 == (PollStep::<S, O, D>::PollListener {
                new_connection: after.new_connections[0],
                listener_id: event->Listen_listener_id,
            })
        }),
{
    let begun = s.begin(event).0;
    assert(begun.unclaimed(event->Listen_local_addr@));
    lemma_listener_stays(begun, operations, event->Listen_local_addr@);
}

impl<S, O, L, T, D> State<S, O, L, T, D> {
    /// The relays, the queues and the senders for the transports go together.
    pub open spec fn paired(self) -> bool {
        &&& self.relays.no_duplicates()
        &&& forall|relay: Seq<u8>| #[trigger]
            self.to_transport.contains_key(relay) <==> self.relays.contains(relay)
        &&& forall|relay: Seq<u8>| #[trigger]
            self.transports.contains_key(relay) <==> self.relays.contains(relay)
    }
}

/// One operation keeps queues and senders together.
proof fn lemma_operation_keeps_paired<S, O, L, T, D>(
    s: State<S, O, L, T, D>,
    operation: Operation<S, O, L, D>,
)
    requires
        s.paired(),
    ensures
        s.apply(operation).paired(),
        s.apply(operation).transports.dom().subset_of(s.transports.dom()),
{
    lemma_untold_is_queued(s);
    match operation {
        Operation::Poll(Some(event)) => {
            let relay = event.relay_peer_id_spec()@;
            lemma_untold_is_queued(
                State {
                    waiting: s.waiting.insert(relay, s.waiting_for(relay).push(event)),
                    ..s
                },
            );
        },
        Operation::ListenerReady(new_connection, _, Readiness::Pending) => {
            lemma_untold_is_queued(
                State { new_connections: seq![new_connection] + s.new_connections, ..s },
            );
        },
        Operation::ListenerFlushed(delivery, Ok(_)) => {
            let told = s.tell(
                delivery.relay_peer_id@,
                BehaviourToTransportEvent::ListenSuccess {
                    listener_id: delivery.listener_id,
                    listen_addr: delivery.listen_addr,
                },
            );
            lemma_untold_is_queued(told);
        },
        Operation::TransportReady(at, event, readiness) => {
            if at < s.relays.len() {
                let relay = s.relays[at as int];
                assert(s.relays.contains(relay));
                crate::table::lemma_without(s.relays, relay);
                let back = State {
                    to_transport: s.to_transport.insert(relay, seq![event] + s.to_transport[relay]),
                    ..s
                };
                lemma_untold_is_queued(back);
            }
        },
        _ => {},
    }
}

/// What the next transport to be told is told comes from a queue that is there.
proof fn lemma_untold_is_queued<S, O, L, T, D>(s: State<S, O, L, T, D>)
    requires
        s.paired(),
    ensures
        forall|from: int|
            0 <= from ==> (#[trigger] s.next_transport(from)).0.paired() && s.next_transport(
                from,
            ).0.transports == s.transports,
{
    assert forall|from: int| 0 <= from implies (#[trigger] s.next_transport(from)).0.paired()
        && s.next_transport(from).0.transports == s.transports by {
        lemma_untold(s, from);
        let at = s.first_untold(from);
        if at < s.relays.len() {
            assert(s.relays.contains(s.relays[at]));
        }
    }
}

/// Whatever happens, the queues and the senders for the transports have the same relays, and there
/// is none among them that was not there from the start.
pub proof fn lemma_always_paired<S, O, L, T, D>(
    s: State<S, O, L, T, D>,
    operations: Seq<Operation<S, O, L, D>>,
)
    requires
        s.paired(),
    ensures
        s.apply_all(operations).paired(),
        s.apply_all(operations).to_transport.dom() == s.apply_all(operations).transports.dom(),
        s.apply_all(operations).transports.dom().subset_of(s.transports.dom()),
    decreases operations.len(),
{
    if operations.len() > 0 {
        lemma_operation_keeps_paired(s, operations[0]);
        lemma_always_paired(s.apply(operations[0]), operations.drop_first());
    }
    let after = s.apply_all(operations);
    assert(after.to_transport.dom() =~= after.transports.dom());
}

/// A behaviour to which nothing has happened yet has a queue and a sender for each relay that it was
/// given.
pub proof fn lemma_fresh_is_paired<S, O, L, T, D>(
    s: State<S, O, L, T, D>,
    to_transports: Table<PeerId, T>,
)
    requires
        to_transports.wf(),
        s.relays == to_transports.keys(),
        s.transports == to_transports@,
        s.to_transport.dom() == to_transports@.dom(),
    ensures
        s.paired(),
{
}

} // verus!
