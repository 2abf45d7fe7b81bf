//! What holds of a client over several steps.

use libp2p_core::transport::ListenerId;
use vstd::prelude::*;

use super::behaviour::{
    handler_reply, Delivery, DialReply, ListenerSenderWithId, PendingNewConnection, PollStep, State,
};
use super::event::{
    BehaviourToTransportEvent, ConnectionHandlerInEvent, ConnectionHandlerOutEvent,
    TransportToBehaviourEvent,
};
use super::handler::{reported, requested, OutboundOutput};
use super::message::ConnectRequest;
use super::transport::{position, Listener};
use super::upgrade::inbound::InboundDecision;
use crate::address::{Multiaddr, PeerId};
use crate::connection::Connection;
use crate::error::IoError;
use crate::swarm::{
    only_events, ConnectionEvent, NegotiationError, NetworkBehaviourAction, Polled, Readiness,
    Received,
};

verus! {

/// A connection whose listener has no room is neither lost nor overtaken.
pub proof fn lemma_waiting_connection_is_kept<S, O, L, D>(
    s: State<S, O, L, D>,
    new_connection: PendingNewConnection<S>,
    listener_id: ListenerId,
)
    requires
        s.next_connection().1 == (PollStep::<S, O, D>::PollListener { new_connection, listener_id }),
        s.new_connections.len() > 0,
    ensures
        s.next_connection().0.listener_ready(
            new_connection,
            listener_id,
            Readiness::Pending,
        ).0.new_connections == s.new_connections,
{
    assert(seq![s.new_connections[0]] + s.new_connections.drop_first() =~= s.new_connections);
}

/// An event for the transport that has no room is neither lost nor overtaken.
pub proof fn lemma_waiting_event_is_kept<S, O, L, D>(
    s: State<S, O, L, D>,
    event: BehaviourToTransportEvent,
)
    requires
        s.next_event().1 == (PollStep::<S, O, D>::PollTransport { event }),
    ensures
        s.next_event().0.transport_ready(event, Readiness::Pending).0 == s,
{
    assert(seq![s.to_transport[0]] + s.to_transport.drop_first() =~= s.to_transport);
}

/// A request to listen on an address.
pub open spec fn claims<O, L>(event: TransportToBehaviourEvent<O, L>, addr: Seq<u8>) -> bool {
    event matches TransportToBehaviourEvent::Listen { local_addr, .. } && local_addr@ == addr
}

/// Anything that can happen to a behaviour.
pub enum Operation<S, O, L, D> {
    Poll(Received<TransportToBehaviourEvent<O, L>>),
    ListenerReady(PendingNewConnection<S>, ListenerId, Readiness<D>),
    ListenerSent(Delivery, Result<(), D>),
    TransportReady(BehaviourToTransportEvent, Readiness<()>),
    TransportSent(bool),
    TransportFlushed(bool),
    HandlerEvent(ConnectionHandlerOutEvent<S, O, D>),
}

impl<S, O, L, D> Operation<S, O, L, D> {
    /// The operation brings a request to listen on an address.
    pub open spec fn claims(self, addr: Seq<u8>) -> bool {
        self matches Operation::Poll(Received::Item(event)) && claims(event, addr)
    }
}

impl<S, O, L, D> State<S, O, L, D> {
    /// What the behaviour becomes by an operation.
    pub open spec fn apply(self, operation: Operation<S, O, L, D>) -> Self {
        match operation {
            Operation::Poll(received) => self.poll(received).0,
            Operation::ListenerReady(new_connection, listener_id, readiness) => {
                self.listener_ready(new_connection, listener_id, readiness).0
            },
            Operation::ListenerSent(delivery, sent) => self.listener_sent(delivery, sent).0,
            Operation::TransportReady(event, readiness) => {
                self.transport_ready(event, readiness).0
            },
            Operation::TransportSent(sent) => self.transport_sent(sent).0,
            Operation::TransportFlushed(flushed) => self.transport_flushed(flushed).0,
            Operation::HandlerEvent(event) => self.on_connection_handler_event(event),
        }
    }

    /// What the behaviour becomes by one operation after the other.
    pub open spec fn apply_all(self, operations: Seq<Operation<S, O, L, D>>) -> Self
        decreases operations.len(),
    {
        if operations.len() == 0 {
            self
        } else {
            self.apply(operations[0]).apply_all(operations.drop_first())
        }
    }
}

/// Operations leave the listener of an address alone.
proof fn lemma_listener_stays<S, O, L, D>(
    s: State<S, O, L, D>,
    operations: Seq<Operation<S, O, L, D>>,
    addr: Seq<u8>,
)
    requires
        s.listeners.contains_key(addr),
        forall|i: int| 0 <= i < operations.len() ==> !(#[trigger] operations[i]).claims(addr),
    ensures
        s.apply_all(operations).listeners.contains_key(addr),
        s.apply_all(operations).listeners[addr] == s.listeners[addr],
    decreases operations.len(),
{
    if operations.len() > 0 {
        assert(!operations[0].claims(addr));
        let rest = operations.drop_first();
        assert forall|i: int| 0 <= i < rest.len() implies !(#[trigger] rest[i]).claims(addr) by {
            assert(rest[i] == operations[i + 1]);
        }
        lemma_listener_stays(s.apply(operations[0]), rest, addr);
    }
}

/// Once a listener was made to listen on an address, it is the one that connections for the address
/// go to, whatever happens after it, as long as nothing else is asked to listen on the address.
pub proof fn lemma_connection_reaches_listener<S, O, L, D>(
    s: State<S, O, L, D>,
    event: TransportToBehaviourEvent<O, L>,
    operations: Seq<Operation<S, O, L, D>>,
)
    requires
        event is Listen,
        forall|i: int|
            0 <= i < operations.len() ==> !(#[trigger] operations[i]).claims(
                event->Listen_local_addr@,
            ),
    ensures
        ({
            let addr = event->Listen_local_addr@;
            let after = s.begin(event).0.apply_all(operations);
            &&& after.listeners.contains_key(addr)
            &&& after.listeners[addr] == (ListenerSenderWithId {
                listener_id: event->Listen_listener_id,
                sender: event->Listen_connection_sender,
            })
            &&& after.new_connections.len() > 0 && after.new_connections[0].listen_addr@ == addr
                ==> after.next_connection().1 == (PollStep::<S, O, D>::PollListener {
                new_connection: after.new_connections[0],
                listener_id: event->Listen_listener_id,
            })
        }),
{
    lemma_listener_stays(s.begin(event).0, operations, event->Listen_local_addr@);
}

/// What comes of a dial goes to the dialer that asked for it: the request that reaches a handler
/// keeps the sender with its substream, and whether the exchange there succeeds or fails, the
/// report of it is a reply through that sender.
pub proof fn lemma_dial_is_answered<S, O, D>(
    dst_addr: Multiaddr,
    connection_sender: O,
    connection: Connection<S>,
    error: NegotiationError,
)
    ensures
        ({
            let request = requested::<S, O, D>(
                ConnectionHandlerInEvent::Dial { dst_addr, connection_sender },
            );
            let info = request->OutboundSubstreamRequest_info;
            let success = reported::<S, O, D>(
                ConnectionEvent::FullyNegotiatedOutbound {
                    protocol: OutboundOutput::Dial(connection),
                    info,
                },
            );
            let failure = reported::<S, O, D>(ConnectionEvent::DialUpgradeError { info, error });
            &&& request is OutboundSubstreamRequest
            &&& success is Some && handler_reply(success->0) == Some(
                DialReply::<S, O> { sender: connection_sender, result: Ok(connection) },
            )
            &&& failure is Some && handler_reply(failure->0) == Some(
                DialReply::<S, O> { sender: connection_sender, result: Err(error.io_error()) },
            )
        }),
{
}

/// What comes of a listener is told to the transport, under the id of the listener.
pub proof fn lemma_listen_is_told<S, O, L, D>(
    s: State<S, O, L, D>,
    listener_id: ListenerId,
    local_peer_id: PeerId,
    local_addr: Multiaddr,
    error: NegotiationError,
)
    ensures
        ({
            let request = requested::<S, O, D>(
                ConnectionHandlerInEvent::Listen { listener_id, local_peer_id, local_addr },
            );
            let info = request->OutboundSubstreamRequest_info;
            let success = reported::<S, O, D>(
                ConnectionEvent::FullyNegotiatedOutbound { protocol: OutboundOutput::Listen, info },
            );
            let failure = reported::<S, O, D>(ConnectionEvent::DialUpgradeError { info, error });
            &&& request is OutboundSubstreamRequest
            &&& success is Some && s.on_connection_handler_event(success->0).to_transport
                == s.to_transport.push(
                BehaviourToTransportEvent::ListenSuccess { listener_id, local_addr },
            )
            &&& failure is Some && s.on_connection_handler_event(failure->0).to_transport
                == s.to_transport.push(
                BehaviourToTransportEvent::ListenFailed {
                    err: error.io_error(),
                    listener_id,
                    local_addr,
                },
            )
        }),
{
}

/// The swarm is asked to dial.
pub open spec fn dials<S, O, D>(step: PollStep<S, O, D>) -> bool {
    step matches PollStep::Done(Polled::Ready(NetworkBehaviourAction::Dial { .. }))
}

/// A client never asks the swarm to dial: no step of a poll does.
pub proof fn lemma_never_dials<S, O, L, D>(
    s: State<S, O, L, D>,
    received: Received<TransportToBehaviourEvent<O, L>>,
    new_connection: PendingNewConnection<S>,
    listener_id: ListenerId,
    listener: Readiness<D>,
    delivery: Delivery,
    delivered: Result<(), D>,
    event: BehaviourToTransportEvent,
    room: Readiness<()>,
    done: bool,
)
    requires
        only_events(s.actions),
    ensures
        !dials(s.poll(received).1),
        !dials(s.listener_ready(new_connection, listener_id, listener).1),
        !dials(s.listener_sent(delivery, delivered).1),
        !dials(s.transport_ready(event, room).1),
        !dials(s.transport_sent(done).1),
        !dials(s.transport_flushed(done).1),
{
}

/// What a transport asks of the behaviour, when it is made to listen, leads to a request to the
/// relay for the same listener, and the connections for the address go to that listener.
pub proof fn lemma_listen_reaches_relay<S, O, L, R, D>(
    t: super::transport::State<O, L, R>,
    s: State<S, O, L, D>,
    listener_id: ListenerId,
    addr: Multiaddr,
    connection_sender: L,
    receiver: R,
)
    ensures
        ({
            let event = t.listen(listener_id, addr, connection_sender, receiver).to_behaviour.last();
            let (listening, step) = s.poll(Received::Item(event));
            &&& listening.listeners[addr@] == (ListenerSenderWithId {
                listener_id,
                sender: connection_sender,
            })
            &&& step matches PollStep::Done(
                Polled::Ready(NetworkBehaviourAction::NotifyHandler { peer_id, event, .. }),
            )
            &&& peer_id == t.relay_peer_id
            &&& event == (ConnectionHandlerInEvent::<O>::Listen {
                listener_id,
                local_peer_id: t.local_peer_id,
                local_addr: addr,
            })
        }),
{
}

/// An event for the behaviour that has no room is neither lost nor overtaken.
pub proof fn lemma_waiting_request_is_kept<S, O, L, R>(
    t: super::transport::State<O, L, R>,
    event: TransportToBehaviourEvent<O, L>,
)
    requires
        t.next_event::<S>().1 == (super::transport::PollStep::<S, O, L>::PollSender { event }),
    ensures
        t.next_event::<S>().0.behaviour_ready::<S>(event, false).0 == t,
{
    assert(seq![t.to_behaviour[0]] + t.to_behaviour.drop_first() =~= t.to_behaviour);
}

/// Where a listener stands that was made to listen last.
proof fn lemma_position_of_last<R>(
    listeners: Seq<Listener<R>>,
    listener: Listener<R>,
)
    requires
        position(listeners, listener.listener_id) >= listeners.len(),
    ensures
        position(listeners.push(listener), listener.listener_id) == listeners.len(),
    decreases listeners.len(),
{
    if listeners.len() > 0 {
        lemma_position_of_last(listeners.drop_first(), listener);
        assert(listeners.push(listener).drop_first() =~= listeners.drop_first().push(listener));
    }
}

/// The first listener with an id stands at its position, and none with the id before it; there is
/// none if the position is behind the last.
pub proof fn lemma_first_position<R>(listeners: Seq<Listener<R>>, id: ListenerId)
    ensures
        position(listeners, id) <= listeners.len(),
        position(listeners, id) < listeners.len() ==> listeners[position(
            listeners,
            id,
        ) as int].listener_id == id,
        forall|j: int|
            0 <= j < position(listeners, id) ==> (#[trigger] listeners[j]).listener_id != id,
    decreases listeners.len(),
{
    if listeners.len() > 0 && listeners[0].listener_id != id {
        let rest = listeners.drop_first();
        lemma_first_position(rest, id);
        assert forall|j: int| 0 <= j < position(listeners, id) implies (
        #[trigger] listeners[j]).listener_id != id by {
            if j > 0 {
                assert(rest[j - 1] == listeners[j]);
            }
        }
    }
}

/// Where a listener stands does not depend on whether listeners have ended.
proof fn lemma_position_kept<R>(listeners: Seq<Listener<R>>, id: ListenerId, i: int)
    requires
        0 <= i < listeners.len(),
    ensures
        position(listeners.update(i, listeners[i].ended()), id)
            == position(listeners, id),
    decreases listeners.len(),
{
    let updated = listeners.update(i, listeners[i].ended());
    if i == 0 {
        assert(updated.drop_first() =~= listeners.drop_first());
    } else {
        assert(updated.drop_first() =~= listeners.drop_first().update(
            i - 1,
            listeners.drop_first()[i - 1].ended(),
        ));
        lemma_position_kept(listeners.drop_first(), id, i - 1);
    }
}

/// A listener that was made to listen under a fresh id can be removed, whatever its receiver still
/// holds: it gives nothing any more, and the first poll of it leaves the listeners as they were.
pub proof fn lemma_listen_then_remove<S, O, L, R>(
    t: super::transport::State<O, L, R>,
    listener_id: ListenerId,
    addr: Multiaddr,
    connection_sender: L,
    receiver: R,
    received: Received<Result<Connection<S>, IoError>>,
)
    requires
        position(t.listeners, listener_id) >= t.listeners.len(),
    ensures
        t.listen(listener_id, addr, connection_sender, receiver).has_listener(listener_id),
        ({
            let removed = t.listen(
                listener_id,
                addr,
                connection_sender,
                receiver,
            ).remove_listener(listener_id);
            let (after, given) = removed.listener_polled(listener_id, received);
            &&& removed.has_listener(listener_id)
            &&& given is Closed
            &&& after.listeners == t.listeners
        }),
{
    let listener = Listener { local_addr: addr, listener_id, receiver: Some(receiver) };
    lemma_position_of_last(t.listeners, listener);
    let listening = t.listen(listener_id, addr, connection_sender, receiver);
    let at = t.listeners.len() as int;
    lemma_position_kept(listening.listeners, listener_id, at);
    let removed = listening.remove_listener(listener_id);
    assert(removed.listeners.remove(at) =~= t.listeners);
}

/// A request of a relay that arrives is always answered.
pub proof fn lemma_request_is_answered(
    decision: InboundDecision,
    request: ConnectRequest,
    dst_addr: Result<Seq<u8>, Seq<char>>,
    listening: bool,
    dialer_addr: Result<Seq<u8>, Seq<char>>,
)
    requires
        decision.decides(request, dst_addr, listening, dialer_addr),
    ensures
        decision !is Fail,
        decision is Accept <==> dst_addr is Ok && listening && dialer_addr is Ok,
{
}

/// How much of a queue a channel takes that has this much room.
pub open spec fn taken<E>(queue: Seq<E>, room: nat) -> int {
    if queue.len() <= room {
        queue.len() as int
    } else {
        room as int
    }
}

impl<S, O, L, D> State<S, O, L, D> {
    /// Tells the transport, from a step on, over a channel that has this much room: what the state
    /// and the step come to, and what the transport was told.
    pub open spec fn tell_transport(self, step: PollStep<S, O, D>, room: nat) -> (
        Self,
        PollStep<S, O, D>,
        Seq<BehaviourToTransportEvent>,
    )
        decreases room,
    {
        match step {
            PollStep::PollTransport { event } => if room > 0 {
                let (ready, _) = self.transport_ready(event, Readiness::Ready);
                let (sent, next) = ready.transport_sent(true);
                let (after, last, told) = sent.tell_transport(next, (room - 1) as nat);
                (after, last, seq![event] + told)
            } else {
                let (refused, next) = self.transport_ready(event, Readiness::Pending);
                (refused, next, Seq::empty())
            },
            _ => (self, step, Seq::empty()),
        }
    }
}

/// When a poll comes to the transport, it is told the first events of its queue, in order, as many
/// as its channel has room for; the others stay queued, and nothing else changes.
pub proof fn lemma_transport_is_told<S, O, L, D>(s: State<S, O, L, D>, room: nat)
    ensures
        s.next_event().0.tell_transport(s.next_event().1, room) == (
            State { to_transport: s.to_transport.skip(taken(s.to_transport, room)), ..s },
            PollStep::<S, O, D>::FlushTransport,
            s.to_transport.take(taken(s.to_transport, room)),
        ),
    decreases room,
{
    let queue = s.to_transport;
    let (next, step) = s.next_event();
    if queue.len() == 0 {
        assert(queue.skip(0) =~= queue);
        assert(queue.take(0) =~= Seq::empty());
    } else if room == 0 {
        assert(seq![queue[0]] + queue.drop_first() =~= queue);
        assert(queue.skip(0) =~= queue);
        assert(queue.take(0) =~= Seq::empty());
    } else {
        let less = (room - 1) as nat;
        lemma_transport_is_told(next, less);
        let rest = queue.drop_first();
        let k = taken(rest, less);
        assert(taken(queue, room) == k + 1);
        assert(rest.skip(k) =~= queue.skip(k + 1));
        assert(seq![queue[0]] + rest.take(k) =~= queue.take(k + 1));
    }
}

impl<O, L, R> super::transport::State<O, L, R> {
    /// Begins a poll with the events that the behaviour has sent.
    pub open spec fn hear<S>(self, events: Seq<BehaviourToTransportEvent>) -> (
        Self,
        super::transport::PollStep<S, O, L>,
    )
        decreases events.len(),
    {
        if events.len() == 0 {
            self.poll(Received::Pending)
        } else {
            let (after, step) = self.poll::<S>(Received::Item(events[0]));
            if step is PollBehaviour {
                after.hear(events.drop_first())
            } else {
                (after, step)
            }
        }
    }

    /// Tells the behaviour, from a step on, over a channel that has this much room: what the state
    /// and the step come to, and what the behaviour was told.
    pub open spec fn tell_behaviour<S>(
        self,
        step: super::transport::PollStep<S, O, L>,
        room: nat,
    ) -> (Self, super::transport::PollStep<S, O, L>, Seq<TransportToBehaviourEvent<O, L>>)
        decreases room,
    {
        match step {
            super::transport::PollStep::PollSender { event } => if room > 0 {
                let (ready, _) = self.behaviour_ready::<S>(event, true);
                let (sent, next) = ready.next_event::<S>();
                let (after, last, told) = sent.tell_behaviour(next, (room - 1) as nat);
                (after, last, seq![event] + told)
            } else {
                let (refused, next) = self.behaviour_ready::<S>(event, false);
                (refused, next, Seq::empty())
            },
            _ => (self, step, Seq::empty()),
        }
    }

    /// A whole poll up to the listeners: what the state and the last step come to, and what the
    /// behaviour was told.
    pub open spec fn whole_poll<S>(self, events: Seq<BehaviourToTransportEvent>, room: nat) -> (
        Self,
        super::transport::PollStep<S, O, L>,
        Seq<TransportToBehaviourEvent<O, L>>,
    ) {
        let (heard, step) = self.hear::<S>(events);
        heard.tell_behaviour(step, room)
    }
}

/// The behaviour is told the first requests, in order, as many as its channel has room for.
proof fn lemma_behaviour_is_told<S, O, L, R>(t: super::transport::State<O, L, R>, room: nat)
    ensures
        t.next_event::<S>().0.tell_behaviour(t.next_event::<S>().1, room) == (
            super::transport::State {
                to_behaviour: t.to_behaviour.skip(taken(t.to_behaviour, room)),
                ..t
            },
            super::transport::PollStep::<S, O, L>::FlushSender,
            t.to_behaviour.take(taken(t.to_behaviour, room)),
        ),
    decreases room,
{
    let queue = t.to_behaviour;
    let (next, step) = t.next_event::<S>();
    if queue.len() == 0 {
        assert(queue.skip(0) =~= queue);
        assert(queue.take(0) =~= Seq::empty());
    } else if room == 0 {
        assert(seq![queue[0]] + queue.drop_first() =~= queue);
        assert(queue.skip(0) =~= queue);
        assert(queue.take(0) =~= Seq::empty());
    } else {
        let less = (room - 1) as nat;
        lemma_behaviour_is_told::<S, O, L, R>(next, less);
        let rest = queue.drop_first();
        let k = taken(rest, less);
        assert(taken(queue, room) == k + 1);
        assert(rest.skip(k) =~= queue.skip(k + 1));
        assert(seq![queue[0]] + rest.take(k) =~= queue.take(k + 1));
    }
}

/// In one poll of the transport the behaviour is told requests in the order in which they were made,
/// and what it was not told stays queued: all that its channel has room for, unless the poll ends
/// with something that the behaviour had sent, and nothing in that case.
pub proof fn lemma_poll_tells_in_order<S, O, L, R>(
    t: super::transport::State<O, L, R>,
    events: Seq<BehaviourToTransportEvent>,
    room: nat,
)
    ensures
        ({
            let (after, last, told) = t.whole_poll::<S>(events, room);
            let k = taken(t.to_behaviour, room);
            &&& last is Done || last is FlushSender
            &&& last is FlushSender ==> told == t.to_behaviour.take(k) && after.to_behaviour
                == t.to_behaviour.skip(k)
            &&& last is Done ==> told.len() == 0 && after.to_behaviour == t.to_behaviour
        }),
    decreases events.len(),
{
    if events.len() == 0 {
        lemma_behaviour_is_told::<S, O, L, R>(t, room);
    } else if t.poll::<S>(Received::Item(events[0])).1 is PollBehaviour {
        lemma_poll_tells_in_order::<S, O, L, R>(t, events.drop_first(), room);
    }
}

} // verus!
