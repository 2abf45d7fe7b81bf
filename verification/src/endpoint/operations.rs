//! What each operation of an endpoint does, in terms of what goes in and what comes out.

use libp2p_core::transport::ListenerId;
use libp2p_swarm::ConnectionId;
use vstd::prelude::*;

use super::behaviour::{
    Behaviour, Delivery, DialReply, HandlerOutcome, ListenerSenderWithId, PendingNewConnection,
    PollStep, State, SwarmOutcome,
};
use super::event::{
    BehaviourToTransportEvent, ConnectionHandlerInEvent, ConnectionHandlerOutEvent, Event,
    TransportToBehaviourEvent,
};
use super::handler::IntoConnectionHandler;
use super::laws::{dial_count, lemma_dialers_are_told, lemma_untold};
use crate::address::{Multiaddr, PeerId};
use crate::connection::Connection;
use crate::error::{Cause, IoError, IoErrorKind};
use crate::swarm::{
    FromSwarm, KeepAlive, NetworkBehaviourAction, NotifyHandler, Polled, Readiness,
};
use crate::table::Table;

verus! {

/// A request to dial whose relay is connected goes to a handler of that relay at once, as it is, and
/// leaves the behaviour alone.
pub proof fn lemma_dial_goes_to_relay<S, O, L, T, D>(
    b: &mut Behaviour<S, O, L, T, D>,
    dst_peer_id: PeerId,
    dst_addr: Multiaddr,
    relay_addr: Multiaddr,
    relay_peer_id: PeerId,
    connection_sender: O,
    step: PollStep<S, O, D>,
)
    requires
        old(b).wf(),
        old(b).established_relay_connection@.contains_key(relay_peer_id@),
        call_ensures(
            Behaviour::<S, O, L, T, D>::poll,
            (
                b,
                Some(
                    TransportToBehaviourEvent::Dial {
                        dst_peer_id,
                        dst_addr,
                        relay_addr,
                        relay_peer_id,
                        connection_sender,
                    },
                ),
            ),
            step,
        ),
    ensures
        step matches PollStep::Done(
            Polled::Ready(NetworkBehaviourAction::NotifyHandler { peer_id, handler, event }),
        ) && peer_id == relay_peer_id && handler == NotifyHandler::Any && event == (
        ConnectionHandlerInEvent::Dial { dst_peer_id, dst_addr, connection_sender }),
        final(b)@ == old(b)@,
{
}

/// A request to listen whose relay is connected goes to a handler of that relay at once, as it is.
/// From then on the listener has the address, whoever had it before, and all other addresses keep
/// their listeners.
pub proof fn lemma_listen_goes_to_relay<S, O, L, T, D>(
    b: &mut Behaviour<S, O, L, T, D>,
    listener_id: ListenerId,
    local_peer_id: PeerId,
    local_addr: Multiaddr,
    relay_peer_id: PeerId,
    relay_addr: Multiaddr,
    connection_sender: L,
    step: PollStep<S, O, D>,
)
    requires
        old(b).wf(),
        old(b).established_relay_connection@.contains_key(relay_peer_id@),
        call_ensures(
            Behaviour::<S, O, L, T, D>::poll,
            (
                b,
                Some(
                    TransportToBehaviourEvent::Listen {
                        listener_id,
                        local_peer_id,
                        local_addr,
                        relay_peer_id,
                        relay_addr,
                        connection_sender,
                    },
                ),
            ),
            step,
        ),
    ensures
        step matches PollStep::Done(
            Polled::Ready(NetworkBehaviourAction::NotifyHandler { peer_id, handler, event }),
        ) && peer_id == relay_peer_id && handler == NotifyHandler::Any && event == (
        ConnectionHandlerInEvent::<O>::Listen { listener_id, local_peer_id, local_addr }),
        final(b).listeners@ == old(b).listeners@.insert(
            local_addr@,
            ListenerSenderWithId { listener_id, sender: connection_sender },
        ),
        final(b)@ == (State { listeners: final(b)@.listeners, ..old(b)@ }),
{
}

/// A request whose relay is neither connected nor being dialed has the relay dialed, under the
/// address that the request gives and with a handler of this peer that keeps the connection. The
/// request waits for the relay, behind the requests that wait already, and nothing else changes.
pub proof fn lemma_relay_is_dialed<S, O, L, T, D>(
    b: &mut Behaviour<S, O, L, T, D>,
    request: TransportToBehaviourEvent<O, L>,
    relay: PeerId,
    addr: Multiaddr,
    step: PollStep<S, O, D>,
)
    requires
        old(b).wf(),
        request matches TransportToBehaviourEvent::Dial { relay_peer_id, relay_addr, .. }
            ==> relay_peer_id == relay && relay_addr == addr,
        request matches TransportToBehaviourEvent::Listen { relay_peer_id, relay_addr, .. }
            ==> relay_peer_id == relay && relay_addr == addr,
        !old(b).established_relay_connection@.contains_key(relay@),
        !old(b).connecting_relay@.contains_key(relay@),
        call_ensures(Behaviour::<S, O, L, T, D>::poll, (b, Some(request)), step),
    ensures
        step matches PollStep::Done(
            Polled::Ready(NetworkBehaviourAction::Dial { peer_id, address, handler }),
        ) && peer_id == relay && address == addr && handler == (IntoConnectionHandler {
            keepalive: KeepAlive::Yes,
            local_peer_id: old(b).peer_id,
        }),
        waits_behind(old(b)@, final(b)@, relay@, request),
        final(b)@.connecting == old(b)@.connecting.insert(relay@),
        final(b)@ == (State {
            waiting: final(b)@.waiting,
            connecting: final(b)@.connecting,
            ..old(b)@
        }),
{
    lemma_waits_behind(old(b)@, relay@, request);
}

/// The model lets a request wait behind those that waited before.
proof fn lemma_waits_behind<S, O, L, T, D>(
    s: State<S, O, L, T, D>,
    relay: Seq<u8>,
    request: TransportToBehaviourEvent<O, L>,
)
    ensures
        waits_behind(
            s,
            State { waiting: s.waiting.insert(relay, s.waiting_for(relay).push(request)), ..s },
            relay,
            request,
        ),
{
    let waiting = s.waiting.insert(relay, s.waiting_for(relay).push(request));
    assert(waiting.remove(relay) =~= s.waiting.remove(relay));
    assert(Seq::<TransportToBehaviourEvent<O, L>>::empty().push(request) =~= seq![request]);
}

/// After an operation a request waits for its relay, behind those that waited before; the requests
/// for other relays wait as before.
pub open spec fn waits_behind<S, O, L, T, D>(
    before: State<S, O, L, T, D>,
    after: State<S, O, L, T, D>,
    relay: Seq<u8>,
    request: TransportToBehaviourEvent<O, L>,
) -> bool {
    &&& after.waiting.contains_key(relay)
    &&& before.waiting.contains_key(relay) ==> after.waiting[relay] == before.waiting[relay].push(
        request,
    )
    &&& !before.waiting.contains_key(relay) ==> after.waiting[relay] == seq![request]
    &&& after.waiting.remove(relay) == before.waiting.remove(relay)
}

/// A request whose relay is being dialed waits for it, behind the requests that wait already. The
/// relay is not dialed again and no handler is asked for anything; the poll goes on as one that
/// brings no request, and the released requests stay where they are.
pub proof fn lemma_request_waits<S, O, L, T, D>(
    b: &mut Behaviour<S, O, L, T, D>,
    request: TransportToBehaviourEvent<O, L>,
    relay: PeerId,
    step: PollStep<S, O, D>,
    bare: &mut Behaviour<S, O, L, T, D>,
    bare_step: PollStep<S, O, D>,
)
    requires
        old(b).wf(),
        request matches TransportToBehaviourEvent::Dial { relay_peer_id, .. }
            ==> relay_peer_id == relay,
        request matches TransportToBehaviourEvent::Listen { relay_peer_id, .. }
            ==> relay_peer_id == relay,
        !old(b).established_relay_connection@.contains_key(relay@),
        old(b).connecting_relay@.contains_key(relay@),
        call_ensures(Behaviour::<S, O, L, T, D>::poll, (b, Some(request)), step),
        old(bare).wf(),
        old(bare)@ == (State { released: Seq::empty(), ..old(b)@ }),
        call_ensures(Behaviour::<S, O, L, T, D>::poll, (bare, None), bare_step),
    ensures
        waits_behind(old(b)@, final(b)@, relay@, request),
        step == bare_step,
        final(b)@ == (State {
            waiting: final(b)@.waiting,
            released: old(b)@.released,
            ..final(bare)@
        }),
{
    let s = old(b)@;
    lemma_waits_behind(s, relay@, request);
    let waits = State {
        waiting: s.waiting.insert(relay@, s.waiting_for(relay@).push(request)),
        ..s
    };
    lemma_same_first_untold(waits, old(bare)@, 0);
}

/// Which transport is told next depends on the queues alone.
proof fn lemma_same_first_untold<S, O, L, T, D>(
    s: State<S, O, L, T, D>,
    other: State<S, O, L, T, D>,
    from: int,
)
    requires
        0 <= from,
        s.relays == other.relays,
        s.to_transport == other.to_transport,
    ensures
        s.first_untold(from) == other.first_untold(from),
    decreases s.relays.len() - from,
{
    if from < s.relays.len() {
        lemma_same_first_untold(s, other, from + 1);
    }
}

/// A poll without a request first hands a released request to a handler of its relay, as it is: the
/// one that was released first. The others stay in order, and a listener gets its address.
pub proof fn lemma_released_goes_to_relay<S, O, L, T, D>(
    b: &mut Behaviour<S, O, L, T, D>,
    step: PollStep<S, O, D>,
)
    requires
        old(b).wf(),
        old(b).pending_transport_to_behaviour_events@.len() > 0,
        call_ensures(Behaviour::<S, O, L, T, D>::poll, (b, None), step),
    ensures
        final(b).pending_transport_to_behaviour_events@ == old(
            b,
        ).pending_transport_to_behaviour_events@.drop_first(),
        step matches PollStep::Done(
            Polled::Ready(NetworkBehaviourAction::NotifyHandler { peer_id, handler, event }),
        ) && handler == NotifyHandler::Any && match old(
            b,
        ).pending_transport_to_behaviour_events@[0] {
            TransportToBehaviourEvent::Dial {
                dst_peer_id,
                dst_addr,
                relay_peer_id,
                connection_sender,
                ..
            } => {
                &&& peer_id == relay_peer_id
                &&& event == (ConnectionHandlerInEvent::Dial {
                    dst_peer_id,
                    dst_addr,
                    connection_sender,
                })
                &&& final(b).listeners@ == old(b).listeners@
            },
            TransportToBehaviourEvent::Listen {
                listener_id,
                local_peer_id,
                local_addr,
                relay_peer_id,
                connection_sender,
                ..
            } => {
                &&& peer_id == relay_peer_id
                &&& event == (ConnectionHandlerInEvent::<O>::Listen {
                    listener_id,
                    local_peer_id,
                    local_addr,
                })
                &&& final(b).listeners@ == old(b).listeners@.insert(
                    local_addr@,
                    ListenerSenderWithId { listener_id, sender: connection_sender },
                )
            },
        },
        final(b)@ == (State {
            released: final(b)@.released,
            listeners: final(b)@.listeners,
            ..old(b)@
        }),
{
}

/// From a position on, the first transport that has something to be told is polled for the first
/// thing that it is to be told, and only that leaves its queue. If there is none, the poll ends with
/// what the swarm was to be asked first, or is pending if there is nothing.
pub open spec fn turns_to_transports<S, O, L, T, D>(
    before: State<S, O, L, T, D>,
    from: int,
    after: State<S, O, L, T, D>,
    step: PollStep<S, O, D>,
) -> bool {
    match step {
        PollStep::PollTransport { at, event } => {
            let relay = before.relays[at as int];
            &&& from <= at < before.relays.len()
            &&& forall|j: int|
                from <= j < at ==> before.to_transport[#[trigger] before.relays[j]].len() == 0
            &&& before.to_transport[relay] == seq![event] + after.to_transport[relay]
            &&& after == State {
                to_transport: before.to_transport.insert(relay, after.to_transport[relay]),
                ..before
            }
        },
        PollStep::Done(polled) => {
            &&& forall|j: int|
                from <= j < before.relays.len() ==> before.to_transport[
                #[trigger] before.relays[j]].len() == 0
            &&& match polled {
                Polled::Ready(action) => {
                    &&& before.actions == seq![action] + after.actions
                    &&& after == State { actions: after.actions, ..before }
                },
                Polled::Pending => before.actions.len() == 0 && after == before,
            }
        },
        _ => false,
    }
}

/// The first connection that no listener has got yet leaves the queue: the sender of the listener of
/// its address is polled, or, when nothing listens there, the swarm is told so. If there is no
/// connection, it is the transports' turn.
pub open spec fn turns_to_connections<S, O, L, T, D>(
    before: State<S, O, L, T, D>,
    after: State<S, O, L, T, D>,
    step: PollStep<S, O, D>,
) -> bool {
    if before.new_connections.len() == 0 {
        turns_to_transports(before, 0, after, step)
    } else {
        let first = before.new_connections[0];
        &&& before.new_connections == seq![first] + after.new_connections
        &&& after == State { new_connections: after.new_connections, ..before }
        &&& if before.listeners.contains_key(first.listen_addr@) {
            &&& step matches PollStep::PollListener { new_connection, listener_id }
            &&& new_connection == first
            &&& listener_id == before.listeners[first.listen_addr@].listener_id
        } else {
            &&& step matches PollStep::Done(
                Polled::Ready(
                    NetworkBehaviourAction::GenerateEvent(Event::UnexpectedConnection { listen_addr }),
                ),
            )
            &&& listen_addr == first.listen_addr
        }
    }
}

/// The steps of the model turn to the transports, and to the connections.
proof fn lemma_turns<S, O, L, T, D>(s: State<S, O, L, T, D>, from: int)
    requires
        0 <= from <= s.relays.len() <= usize::MAX,
        s.relays.no_duplicates(),
    ensures
        turns_to_transports(s, from, s.next_transport(from).0, s.next_transport(from).1),
        turns_to_connections(s, s.next_connection().0, s.next_connection().1),
{
    lemma_turn_to_transports(s, from);
    lemma_turn_to_transports(s, 0);
    if s.new_connections.len() > 0 {
        assert(s.new_connections =~= seq![s.new_connections[0]] + s.new_connections.drop_first());
    }
}

proof fn lemma_turn_to_transports<S, O, L, T, D>(s: State<S, O, L, T, D>, from: int)
    requires
        0 <= from <= s.relays.len() <= usize::MAX,
    ensures
        turns_to_transports(s, from, s.next_transport(from).0, s.next_transport(from).1),
{
    lemma_untold(s, from);
    let at = s.first_untold(from);
    let (after, step) = s.next_transport(from);
    if at < s.relays.len() {
        let queue = s.to_transport[s.relays[at]];
        assert(queue =~= seq![queue[0]] + queue.drop_first());
        assert(after.to_transport[s.relays[at]] == queue.drop_first());
    } else if s.actions.len() > 0 {
        assert(s.actions =~= seq![s.actions[0]] + s.actions.drop_first());
    }
}

/// The keys of a behaviour's queues are no more than can be counted.
proof fn lemma_relays_bounded<S, O, L, T, D>(b: Behaviour<S, O, L, T, D>)
    requires
        b.wf(),
    ensures
        b@.relays.no_duplicates(),
        b@.relays.len() <= usize::MAX,
{
    b.pending_to_transport.lemma_len();
}

/// A poll that has neither a request nor a released one turns to the connections.
pub proof fn lemma_idle_poll<S, O, L, T, D>(
    b: &mut Behaviour<S, O, L, T, D>,
    step: PollStep<S, O, D>,
)
    requires
        old(b).wf(),
        old(b).pending_transport_to_behaviour_events@.len() == 0,
        call_ensures(Behaviour::<S, O, L, T, D>::poll, (b, None), step),
    ensures
        turns_to_connections(old(b)@, final(b)@, step),
{
    lemma_relays_bounded(*old(b));
    lemma_turns(old(b)@, 0);
}

/// A connection goes to the listener that has room for it. If the listener has none, the connection
/// goes back to the front of the queue, and it is the transports' turn; if the listener is gone, the
/// swarm is told so under the address.
pub proof fn lemma_listener_polled<S, O, L, T, D>(
    b: &mut Behaviour<S, O, L, T, D>,
    new_connection: PendingNewConnection<S>,
    listener_id: ListenerId,
    readiness: Readiness<D>,
    step: PollStep<S, O, D>,
)
    requires
        old(b).wf(),
        call_ensures(
            Behaviour::<S, O, L, T, D>::listener_ready,
            (b, new_connection, listener_id, readiness),
            step,
        ),
    ensures
        match readiness {
            Readiness::Ready => {
                &&& step matches PollStep::SendConnection { delivery, connection }
                &&& connection == new_connection.connection
                &&& delivery.listen_addr == new_connection.listen_addr
                &&& delivery.relay_peer_id == new_connection.relay_peer_id
                &&& delivery.listener_id == listener_id
                &&& final(b)@ == old(b)@
            },
            Readiness::Failed(error) => {
                &&& step matches PollStep::Done(
                    Polled::Ready(
                        NetworkBehaviourAction::GenerateEvent(
                            Event::UnexpectedListenerClosed { listen_addr, err },
                        ),
                    ),
                )
                &&& listen_addr == new_connection.listen_addr
                &&& err == error
                &&& final(b)@ == old(b)@
            },
            Readiness::Pending => turns_to_transports(
                State {
                    new_connections: seq![new_connection] + old(b)@.new_connections,
                    ..old(b)@
                },
                0,
                final(b)@,
                step,
            ),
        },
{
    lemma_relays_bounded(*old(b));
    lemma_turns(
        State { new_connections: seq![new_connection] + old(b)@.new_connections, ..old(b)@ },
        0,
    );
}

/// A connection that was sent is flushed next. A listener that is gone by then is reported.
pub proof fn lemma_listener_got<S, O, L, T, D>(
    b: &mut Behaviour<S, O, L, T, D>,
    delivered: Delivery,
    sent: Result<(), D>,
    step: PollStep<S, O, D>,
)
    requires
        old(b).wf(),
        call_ensures(Behaviour::<S, O, L, T, D>::listener_sent, (b, delivered, sent), step),
    ensures
        final(b)@ == old(b)@,
        match sent {
            Ok(_) => step matches PollStep::FlushListener { delivery } && delivery == delivered,
            Err(error) => {
                &&& step matches PollStep::Done(
                    Polled::Ready(
                        NetworkBehaviourAction::GenerateEvent(
                            Event::UnexpectedListenerClosed { listen_addr, err },
                        ),
                    ),
                )
                &&& listen_addr == delivered.listen_addr
                &&& err == error
            },
        },
{
}

/// When a listener has got its connection, the transport of the relay that brought it, and no other,
/// is still to be told that the listener listens on the address, behind all else that it is to be
/// told; then it is the turn of the next connection. A listener that is gone by then is reported.
pub proof fn lemma_listener_flushed<S, O, L, T, D>(
    b: &mut Behaviour<S, O, L, T, D>,
    delivered: Delivery,
    flushed: Result<(), D>,
    step: PollStep<S, O, D>,
)
    requires
        old(b).wf(),
        flushed is Ok ==> old(b).pending_to_transport@.contains_key(delivered.relay_peer_id@),
        call_ensures(Behaviour::<S, O, L, T, D>::listener_flushed, (b, delivered, flushed), step),
    ensures
        match flushed {
            Ok(_) => turns_to_connections(
                told(
                    old(b)@,
                    delivered.relay_peer_id@,
                    seq![
                        BehaviourToTransportEvent::ListenSuccess {
                            listener_id: delivered.listener_id,
                            listen_addr: delivered.listen_addr,
                        },
                    ],
                ),
                final(b)@,
                step,
            ),
            Err(error) => {
                &&& step matches PollStep::Done(
                    Polled::Ready(
                        NetworkBehaviourAction::GenerateEvent(
                            Event::UnexpectedListenerClosed { listen_addr, err },
                        ),
                    ),
                )
                &&& listen_addr == delivered.listen_addr
                &&& err == error
                &&& final(b)@ == old(b)@
            },
        },
{
    lemma_relays_bounded(*old(b));
    let event = BehaviourToTransportEvent::ListenSuccess {
        listener_id: delivered.listener_id,
        listen_addr: delivered.listen_addr,
    };
    if flushed is Ok {
        lemma_told(old(b)@, delivered.relay_peer_id@, event);
        lemma_turns(told(old(b)@, delivered.relay_peer_id@, seq![event]), 0);
    }
}

/// The state in which the transport of a relay has more to be told, behind all else.
pub open spec fn told<S, O, L, T, D>(
    before: State<S, O, L, T, D>,
    relay: Seq<u8>,
    events: Seq<BehaviourToTransportEvent>,
) -> State<S, O, L, T, D> {
    State {
        to_transport: before.to_transport.insert(relay, before.to_transport[relay] + events),
        ..before
    }
}

proof fn lemma_told<S, O, L, T, D>(
    s: State<S, O, L, T, D>,
    relay: Seq<u8>,
    event: BehaviourToTransportEvent,
)
    requires
        s.to_transport.contains_key(relay),
    ensures
        s.tell(relay, event) == told(s, relay, seq![event]),
{
    assert(s.to_transport[relay].push(event) =~= s.to_transport[relay] + seq![event]);
}

/// An event goes to the transport that has room for it. If the transport has none, the event goes
/// back to the front of its queue, and it is the turn of the transports behind it; if the transport
/// is gone, it is forgotten, and no other, and the swarm is told so.
pub proof fn lemma_transport_polled<S, O, L, T, D>(
    b: &mut Behaviour<S, O, L, T, D>,
    position: usize,
    event: BehaviourToTransportEvent,
    readiness: Readiness<()>,
    step: PollStep<S, O, D>,
)
    requires
        old(b).wf(),
        position < old(b)@.relays.len(),
        call_ensures(
            Behaviour::<S, O, L, T, D>::transport_ready,
            (b, position, event, readiness),
            step,
        ),
    ensures
        ({
            let relay = old(b)@.relays[position as int];
            match readiness {
                Readiness::Ready => {
                    &&& step == (PollStep::<S, O, D>::SendEvent { at: position, event })
                    &&& final(b)@ == old(b)@
                },
                Readiness::Failed(_) => {
                    &&& step == PollStep::<S, O, D>::Done(
                        Polled::Ready(
                            NetworkBehaviourAction::GenerateEvent(
                                Event::UnexpectedTransportDropped,
                            ),
                        ),
                    )
                    &&& final(b)@ == (State {
                        relays: old(b)@.relays.remove(position as int),
                        to_transport: old(b)@.to_transport.remove(relay),
                        transports: old(b)@.transports.remove(relay),
                        ..old(b)@
                    })
                },
                Readiness::Pending => turns_to_transports(
                    State {
                        to_transport: old(b)@.to_transport.insert(
                            relay,
                            seq![event] + old(b)@.to_transport[relay],
                        ),
                        ..old(b)@
                    },
                    position + 1,
                    final(b)@,
                    step,
                ),
            }
        }),
{
    lemma_relays_bounded(*old(b));
    let relay = old(b)@.relays[position as int];
    crate::table::lemma_filter_once(old(b)@.relays, position as int);
    lemma_turns(
        State {
            to_transport: old(b)@.to_transport.insert(
                relay,
                seq![event] + old(b)@.to_transport[relay],
            ),
            ..old(b)@
        },
        position + 1,
    );
}

/// When an event was sent to a transport, the transport may have more to be told; a transport that
/// is gone by then is reported.
pub proof fn lemma_transport_got<S, O, L, T, D>(
    b: &mut Behaviour<S, O, L, T, D>,
    position: usize,
    sent: bool,
    step: PollStep<S, O, D>,
)
    requires
        old(b).wf(),
        position < old(b)@.relays.len(),
        call_ensures(Behaviour::<S, O, L, T, D>::transport_sent, (b, position, sent), step),
    ensures
        sent ==> turns_to_transports(old(b)@, position as int, final(b)@, step),
        !sent ==> step == PollStep::<S, O, D>::Done(
            Polled::Ready(
                NetworkBehaviourAction::GenerateEvent(Event::UnexpectedTransportDropped),
            ),
        ) && final(b)@ == old(b)@,
{
    lemma_relays_bounded(*old(b));
    lemma_turns(old(b)@, position as int);
}

/// What a handler reports goes where it belongs, and nowhere else: a new connection behind the
/// connections that no listener has got yet, with its address and its relay; an error to the swarm,
/// behind all else that it is still to be told; what comes of a listener to the transport of its
/// relay, under the id of the listener; and what comes of a dial to its dialer at once, through its
/// own sender. All but the last has the task woken.
pub proof fn lemma_handler_is_heard<S, O, L, T, D>(
    b: &mut Behaviour<S, O, L, T, D>,
    event: ConnectionHandlerOutEvent<S, O, D>,
    outcome: HandlerOutcome<S, O>,
)
    requires
        old(b).wf(),
        call_ensures(
            Behaviour::<S, O, L, T, D>::on_connection_handler_event,
            (b, event),
            outcome,
        ),
    ensures
        event matches ConnectionHandlerOutEvent::NewConnection {
            relay_peer_id,
            listen_addr,
            connection,
        } ==> {
            &&& final(b).pending_new_connections@ == old(b).pending_new_connections@ + seq![
                PendingNewConnection { listen_addr, relay_peer_id, connection },
            ]
            &&& final(b)@ == (State { new_connections: final(b)@.new_connections, ..old(b)@ })
            &&& outcome.reply is None && outcome.wake
        },
        event matches ConnectionHandlerOutEvent::Error(err) ==> {
            &&& final(b).pending_actions@ == old(b).pending_actions@ + seq![
                NetworkBehaviourAction::GenerateEvent(Event::OtherError(err)),
            ]
            &&& final(b)@ == (State { actions: final(b)@.actions, ..old(b)@ })
            &&& outcome.reply is None && outcome.wake
        },
        event matches ConnectionHandlerOutEvent::ListenSuccess {
            relay_peer_id,
            listener_id,
            listen_addr,
            ..
        } ==> {
            &&& final(b)@ == if old(b).pending_to_transport@.contains_key(relay_peer_id@) {
                told(
                    old(b)@,
                    relay_peer_id@,
                    seq![BehaviourToTransportEvent::ListenSuccess { listener_id, listen_addr }],
                )
            } else {
                old(b)@
            }
            &&& outcome.reply is None && outcome.wake
        },
        event matches ConnectionHandlerOutEvent::ListenFailed {
            err,
            relay_peer_id,
            listener_id,
            listen_addr,
            ..
        } ==> {
            &&& final(b)@ == if old(b).pending_to_transport@.contains_key(relay_peer_id@) {
                told(
                    old(b)@,
                    relay_peer_id@,
                    seq![
                        BehaviourToTransportEvent::ListenFailed {
                            err,
                            listener_id,
                            local_addr: listen_addr,
                        },
                    ],
                )
            } else {
                old(b)@
            }
            &&& outcome.reply is None && outcome.wake
        },
        event matches ConnectionHandlerOutEvent::DialSuccess { connection, sender, .. } ==> {
            &&& outcome.reply == Some(DialReply::<S, O> { sender, result: Ok(connection) })
            &&& !outcome.wake
            &&& final(b)@ == old(b)@
        },
        event matches ConnectionHandlerOutEvent::DialFailed { err, sender, .. } ==> {
            &&& outcome.reply == Some(DialReply::<S, O> { sender, result: Err(err) })
            &&& !outcome.wake
            &&& final(b)@ == old(b)@
        },
{
    match event {
        ConnectionHandlerOutEvent::ListenSuccess {
            relay_peer_id,
            listener_id,
            listen_addr,
            ..
        } => {
            if old(b)@.to_transport.contains_key(relay_peer_id@) {
                lemma_told(
                    old(b)@,
                    relay_peer_id@,
                    BehaviourToTransportEvent::ListenSuccess { listener_id, listen_addr },
                );
            }
        },
        ConnectionHandlerOutEvent::ListenFailed {
            err,
            relay_peer_id,
            listener_id,
            listen_addr,
            ..
        } => {
            if old(b)@.to_transport.contains_key(relay_peer_id@) {
                lemma_told(
                    old(b)@,
                    relay_peer_id@,
                    BehaviourToTransportEvent::ListenFailed {
                        err,
                        listener_id,
                        local_addr: listen_addr,
                    },
                );
            }
        },
        _ => {},
    }
    assert(final(b)@.new_connections == final(b).pending_new_connections@);
    assert(final(b)@.actions == final(b).pending_actions@);
}

/// A relay that was being dialed is connected from its first connection on, and not being dialed any
/// more: the requests that waited for it are released in order, behind those that were released
/// before, and the task is woken if there are any. A connection to any other peer changes nothing.
pub proof fn lemma_relay_is_connected<S, O, L, T, D>(
    b: &mut Behaviour<S, O, L, T, D>,
    peer_id: PeerId,
    connection_id: ConnectionId,
    outcome: SwarmOutcome<S, O>,
)
    requires
        old(b).wf(),
        call_ensures(
            Behaviour::<S, O, L, T, D>::on_swarm_event,
            (b, FromSwarm::ConnectionEstablished { peer_id, connection_id }),
            outcome,
        ),
    ensures
        outcome.replies@.len() == 0,
        !old(b).connecting_relay@.contains_key(peer_id@) ==> final(b)@ == old(b)@ && !outcome.wake,
        old(b).connecting_relay@.contains_key(peer_id@) ==> {
            let before = old(b)@;
            let after = final(b)@;
            &&& after.connecting == before.connecting.remove(peer_id@)
            &&& after.established.contains_key(peer_id@)
            &&& forall|id: ConnectionId| #[trigger]
                after.established[peer_id@].contains(id) <==> id == connection_id || (
                before.established.contains_key(peer_id@) && before.established[peer_id@].contains(
                    id,
                ))
            &&& after.established.remove(peer_id@) == before.established.remove(peer_id@)
            &&& after.waiting == before.waiting.remove(peer_id@)
            &&& before.waiting.contains_key(peer_id@) ==> after.released == before.released
                + before.waiting[peer_id@]
            &&& !before.waiting.contains_key(peer_id@) ==> after.released == before.released
            &&& outcome.wake == before.waiting.contains_key(peer_id@)
            &&& after == State {
                connecting: after.connecting,
                established: after.established,
                waiting: after.waiting,
                released: after.released,
                ..before
            }
        },
{
    let before = old(b)@;
    let after = final(b)@;
    assert(old(b).connecting_relay@.contains_key(peer_id@) == before.connecting.contains(peer_id@));
    if before.connecting.contains(peer_id@) {
        assert(after.established.remove(peer_id@) =~= before.established.remove(peer_id@));
        assert(before.released + Seq::empty() =~= before.released);
    }
}

/// When a connection to a peer is closed, the transport of that relay, if there is one, is still to
/// be told so. The relay is connected as long as another connection is open, and no other relay is
/// concerned. The task is woken.
pub proof fn lemma_connection_is_closed<S, O, L, T, D>(
    b: &mut Behaviour<S, O, L, T, D>,
    peer_id: PeerId,
    connection_id: ConnectionId,
    remote_addr: Multiaddr,
    outcome: SwarmOutcome<S, O>,
)
    requires
        old(b).wf(),
        call_ensures(
            Behaviour::<S, O, L, T, D>::on_swarm_event,
            (b, FromSwarm::ConnectionClosed { peer_id, connection_id, remote_addr }),
            outcome,
        ),
    ensures
        outcome.replies@.len() == 0,
        outcome.wake,
        ({
            let before = old(b)@;
            let after = final(b)@;
            let open = before.established[peer_id@];
            &&& after.established.contains_key(peer_id@) <==> {
                &&& before.established.contains_key(peer_id@)
                &&& exists|id: ConnectionId| id != connection_id && #[trigger] open.contains(id)
            }
            &&& after.established.contains_key(peer_id@) ==> after.established[peer_id@]
                == open.remove(connection_id)
            &&& after.established.remove(peer_id@) == before.established.remove(peer_id@)
            &&& after == State {
                established: after.established,
                ..if before.to_transport.contains_key(peer_id@) {
                    told(
                        before,
                        peer_id@,
                        seq![
                            BehaviourToTransportEvent::PeerClosed {
                                peer_id,
                                peer_addr: remote_addr,
                                connection_id,
                            },
                        ],
                    )
                } else {
                    before
                }
            }
        }),
{
    let before = old(b)@;
    let after = final(b)@;
    let event = BehaviourToTransportEvent::PeerClosed {
        peer_id,
        peer_addr: remote_addr,
        connection_id,
    };
    if before.to_transport.contains_key(peer_id@) {
        lemma_told(before, peer_id@, event);
    }
    assert(after.established.remove(peer_id@) =~= before.established.remove(peer_id@));
    if before.established.contains_key(peer_id@) {
        let open = before.established[peer_id@];
        let left = open.remove(connection_id);
        if !left.is_empty() {
            let id = choose|id: ConnectionId| left.contains(id);
            assert(left.contains(id));
            assert(id != connection_id && open.contains(id));
        } else {
            assert forall|id: ConnectionId| id != connection_id implies !#[trigger] open.contains(
                id,
            ) by {
                assert(!left.contains(id));
            }
        }
    }
}

/// When a relay could not be dialed, no request waits for it any more. The transport of the relay,
/// if there is one, is told of each of them in order, behind all else: which dial or which listener
/// failed, and why; and each of the dialers among them is told so through its own sender, in order.
pub proof fn lemma_relay_is_out_of_reach<S, O, L, T, D>(
    b: &mut Behaviour<S, O, L, T, D>,
    peer_id: PeerId,
    error: String,
    outcome: SwarmOutcome<S, O>,
)
    requires
        old(b).wf(),
        call_ensures(
            Behaviour::<S, O, L, T, D>::on_swarm_event,
            (b, FromSwarm::DialFailure { peer_id: Some(peer_id), error }),
            outcome,
        ),
    ensures
        ({
            let before = old(b)@;
            let after = final(b)@;
            let waiting = before.waiting[peer_id@];
            let queue = after.to_transport[peer_id@];
            let others = before.to_transport[peer_id@].len();
            &&& after.waiting == before.waiting.remove(peer_id@)
            &&& outcome.wake == before.waiting.contains_key(peer_id@)
            &&& after == State {
                waiting: after.waiting,
                to_transport: after.to_transport,
                ..before
            }
            &&& if before.waiting.contains_key(peer_id@) && before.to_transport.contains_key(
                peer_id@,
            ) {
                &&& after.to_transport == before.to_transport.insert(peer_id@, queue)
                &&& queue.len() == others + waiting.len()
                &&& queue.take(others as int) == before.to_transport[peer_id@]
                &&& forall|i: int|
                    0 <= i < waiting.len() ==> is_told_of(
                        #[trigger] waiting[i],
                        error,
                        queue[others + i],
                    )
                &&& outcome.replies@.len() == dial_count(waiting)
                &&& forall|i: int|
                    0 <= i < waiting.len() && (#[trigger] waiting[i]) is Dial ==> {
                        let reply = outcome.replies@[dial_count(waiting.take(i)) as int];
                        &&& dial_count(waiting.take(i)) < outcome.replies@.len()
                        &&& reply.sender == waiting[i]->Dial_connection_sender
                        &&& reply.result == Err::<Connection<S>, IoError>(
                            IoError::Caused {
                                kind: IoErrorKind::Other,
                                cause: Cause::RelayDialFailed {
                                    dst_peer_id: waiting[i]->Dial_dst_peer_id,
                                    dst_addr: waiting[i]->Dial_dst_addr,
                                    error,
                                },
                            },
                        )
                    }
            } else {
                after.to_transport == before.to_transport && outcome.replies@.len() == 0
            }
        }),
{
    let before = old(b)@;
    let after = final(b)@;
    let waiting = before.waiting[peer_id@];
    if before.waiting.contains_key(peer_id@) && before.to_transport.contains_key(peer_id@) {
        lemma_dialers_are_told::<S, O, L>(waiting, error);
        let queue = after.to_transport[peer_id@];
        assert(queue.take(before.to_transport[peer_id@].len() as int)
            =~= before.to_transport[peer_id@]);
    }
}

/// The transport is told that a request failed since its relay could not be dialed.
pub open spec fn is_told_of<O, L>(
    request: TransportToBehaviourEvent<O, L>,
    error: String,
    event: BehaviourToTransportEvent,
) -> bool {
    match request {
        TransportToBehaviourEvent::Dial { dst_peer_id, dst_addr, .. } => event == (
        BehaviourToTransportEvent::DialFailed {
            err: IoError::Caused {
                kind: IoErrorKind::Other,
                cause: Cause::RelayDialFailed { dst_peer_id, dst_addr, error },
            },
            dst_peer_id,
            dst_addr,
        }),
        TransportToBehaviourEvent::Listen { listener_id, local_peer_id, local_addr, .. } => event
            == (BehaviourToTransportEvent::ListenFailed {
            err: IoError::Caused {
                kind: IoErrorKind::Other,
                cause: Cause::RelayListenFailed { local_peer_id, local_addr, error },
            },
            listener_id,
            local_addr,
        }),
    }
}

/// Nothing else that the swarm says matters to an endpoint.
pub proof fn lemma_swarm_is_ignored<S, O, L, T, D>(
    b: &mut Behaviour<S, O, L, T, D>,
    event: FromSwarm,
    outcome: SwarmOutcome<S, O>,
)
    requires
        old(b).wf(),
        event !is ConnectionEstablished,
        event !is ConnectionClosed,
        event matches FromSwarm::DialFailure { peer_id, .. } ==> peer_id is None,
        call_ensures(Behaviour::<S, O, L, T, D>::on_swarm_event, (b, event), outcome),
    ensures
        final(b)@ == old(b)@,
        outcome.replies@.len() == 0,
        !outcome.wake,
{
}

/// A fresh behaviour knows its own peer and the transports that it was given, and nothing else: it
/// is idle until something happens. Its handlers are those of its own peer, and keep their
/// connections.
pub proof fn lemma_fresh_behaviour<S, O, L, T, D>(
    peer_id: PeerId,
    to_transports: Table<PeerId, T>,
    b: Behaviour<S, O, L, T, D>,
    handler: IntoConnectionHandler,
    relay: PeerId,
    known: bool,
)
    requires
        to_transports.wf(),
        call_ensures(Behaviour::<S, O, L, T, D>::new, (peer_id, to_transports), b),
        call_ensures(Behaviour::<S, O, L, T, D>::new_handler, (&b,), handler),
        call_ensures(Behaviour::<S, O, L, T, D>::has_transport, (&b, &relay), known),
    ensures
        b.wf(),
        b.peer_id == peer_id,
        b@.transports == to_transports@,
        known == to_transports@.contains_key(relay@),
        b@.relays == to_transports.keys(),
        forall|r: Seq<u8>|
            to_transports@.contains_key(r) ==> (#[trigger] b@.to_transport[r]).len() == 0,
        b.listeners@ == Map::<Seq<u8>, ListenerSenderWithId<L>>::empty(),
        b.pending_new_connections@.len() == 0,
        b.pending_actions@.len() == 0,
        b.pending_transport_to_behaviour_events@.len() == 0,
        b@.established == Map::<Seq<u8>, Set<ConnectionId>>::empty(),
        b@.connecting == Set::<Seq<u8>>::empty(),
        b@.waiting == Map::<Seq<u8>, Seq<TransportToBehaviourEvent<O, L>>>::empty(),
        handler.local_peer_id == peer_id,
        handler.keepalive == KeepAlive::Yes,
{
    assert(b@.new_connections.len() == 0);
    assert(b@.actions.len() == 0);
    assert(b@.released.len() == 0);
}

/// A connection is sent through the sender of the listener that has its address, and an event
/// through the sender for the transport of its relay.
pub proof fn lemma_senders<S, O, L, T, D>(
    b: &mut Behaviour<S, O, L, T, D>,
    listen_addr: Multiaddr,
    listener: Option<&mut L>,
    c: &mut Behaviour<S, O, L, T, D>,
    position: usize,
    transport: &mut T,
)
    requires
        old(b).wf(),
        call_ensures(Behaviour::<S, O, L, T, D>::listener_sender, (b, &listen_addr), listener),
        old(c).wf(),
        position < old(c)@.relays.len(),
        call_ensures(Behaviour::<S, O, L, T, D>::transport_sender, (c, position), transport),
    ensures
        listener is Some <==> old(b).listeners@.contains_key(listen_addr@),
        listener matches Some(sender) ==> *sender == old(b).listeners@[listen_addr@].sender,
        *old(transport) == old(c).to_transports@[old(c)@.relays[position as int]],
{
}

/// A request names the relay that it goes through, and the address of that relay.
pub proof fn lemma_request_names_relay<O, L>(
    request: TransportToBehaviourEvent<O, L>,
    peer_id: PeerId,
    addr: Multiaddr,
)
    requires
        call_ensures(TransportToBehaviourEvent::<O, L>::relay_peer_id, (&request,), peer_id),
        call_ensures(TransportToBehaviourEvent::<O, L>::relay_addr, (&request,), addr),
    ensures
        request matches TransportToBehaviourEvent::Dial { relay_peer_id, relay_addr, .. } ==> peer_id
            == relay_peer_id && addr == relay_addr,
        request matches TransportToBehaviourEvent::Listen { relay_peer_id, relay_addr, .. }
            ==> peer_id == relay_peer_id && addr == relay_addr,
{
}

} // verus!
