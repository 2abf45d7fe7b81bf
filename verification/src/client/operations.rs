//! What each operation of a client's behaviour and transport does, in terms of what goes in and what
//! comes out.

use std::sync::Arc;

use libp2p_core::transport::ListenerId;
use vstd::prelude::*;

use super::behaviour::{
    Client, Delivery, DialReply, ListenerSenderWithId, PendingNewConnection, PollStep, State,
};
use super::event::{
    BehaviourToTransportEvent, ConnectionHandlerInEvent, ConnectionHandlerOutEvent, Event,
    TransportToBehaviourEvent,
};
use super::laws::lemma_first_position;
use super::transport::{dialed, position, Error, Listener, Transport};
use crate::address::{Multiaddr, PeerId};
use crate::connection::Connection;
use crate::error::{Cause, IoError, IoErrorKind};
use crate::swarm::{
    FromSwarm, NetworkBehaviourAction, NotifyHandler, Polled, Readiness, Received, TransportError,
    TransportEvent,
};

verus! {

/// A request to dial goes to a handler at once, as it is, and leaves the behaviour alone. The peer
/// that is named for it is the client's own.
pub proof fn lemma_dial_goes_to_handler<S, O, L, D>(
    b: &mut Client<S, O, L, D>,
    dst_addr: Multiaddr,
    relay_addr: Multiaddr,
    connection_sender: O,
    step: PollStep<S, O, D>,
)
    requires
        old(b).wf(),
        call_ensures(
            Client::<S, O, L, D>::poll,
            (
                b,
                Received::Item(
                    TransportToBehaviourEvent::Dial { dst_addr, relay_addr, connection_sender },
                ),
            ),
            step,
        ),
    ensures
        step matches PollStep::Done(
            Polled::Ready(NetworkBehaviourAction::NotifyHandler { peer_id, handler, event }),
        ) && peer_id == old(b).peer_id && handler == NotifyHandler::Any && event == (
        ConnectionHandlerInEvent::Dial { dst_addr, connection_sender }),
        final(b)@ == old(b)@,
{
}

/// A request to listen goes to a handler of the relay at once, as it is. From then on the listener
/// has the address, whoever had it before, and all other addresses keep their listeners.
pub proof fn lemma_listen_goes_to_relay<S, O, L, D>(
    b: &mut Client<S, O, L, D>,
    listener_id: ListenerId,
    local_peer_id: PeerId,
    local_addr: Multiaddr,
    relay_peer_id: PeerId,
    relay_addr: Multiaddr,
    connection_sender: L,
    step: PollStep<S, O, D>,
)
    requires
        old(b).wf(),
        call_ensures(
            Client::<S, O, L, D>::poll,
            (
                b,
                Received::Item(
                    TransportToBehaviourEvent::Listen {
                        listener_id,
                        local_peer_id,
                        local_addr,
                        relay_peer_id,
                        relay_addr,
                        connection_sender,
                    },
                ),
            ),
            step,
        ),
    ensures
        step matches PollStep::Done(
            Polled::Ready(NetworkBehaviourAction::NotifyHandler { peer_id, handler, event }),
        ) && peer_id == relay_peer_id && handler == NotifyHandler::Any && event == (
        ConnectionHandlerInEvent::<O>::Listen { listener_id, local_peer_id, local_addr }),
        final(b).listeners@ == old(b).listeners@.insert(
            local_addr@,
            ListenerSenderWithId { listener_id, sender: connection_sender },
        ),
        final(b)@ == (State { listeners: final(b)@.listeners, ..old(b)@ }),
{
}

/// The transport is polled for the first thing that it is to be told, and only that leaves the
/// queue. If there is nothing, its sender is flushed.
pub open spec fn turns_to_transport<S, O, L, D>(
    before: State<S, O, L, D>,
    after: State<S, O, L, D>,
    step: PollStep<S, O, D>,
) -> bool {
    match step {
        PollStep::PollTransport { event } => {
            &&& before.to_transport == seq![event] + after.to_transport
            &&& after == State { to_transport: after.to_transport, ..before }
        },
        PollStep::FlushTransport => before.to_transport.len() == 0 && after == before,
        _ => false,
    }
}

/// The first connection that no listener has got yet leaves the queue: the sender of the listener of
/// its address is polled, or, when nothing listens there, the swarm is told so. If there is no
/// connection, it is the transport's turn.
pub open spec fn turns_to_connections<S, O, L, D>(
    before: State<S, O, L, D>,
    after: State<S, O, L, D>,
    step: PollStep<S, O, D>,
) -> bool {
    if before.new_connections.len() == 0 {
        turns_to_transport(before, after, step)
    } else {
        let first = before.new_connections[0];
        &&& before.new_connections == seq![first] + after.new_connections
        &&& after == State { new_connections: after.new_connections, ..before }
        &&& if before.listeners.contains_key(first.listen_addr@) {
            &&& step matches PollStep::PollListener { new_connection, listener_id }
            &&& new_connection == first
            &&& listener_id == before.listeners[first.listen_addr@].listener_id
        } else {
            &&& step matches PollStep::Done(
                Polled::Ready(
                    NetworkBehaviourAction::GenerateEvent(Event::UnexpectedConnection { listen_addr }),
                ),
            )
            &&& listen_addr == first.listen_addr
        }
    }
}

/// The steps of the model turn to the transport, and to the connections.
proof fn lemma_turns<S, O, L, D>(s: State<S, O, L, D>)
    ensures
        turns_to_transport(s, s.next_event().0, s.next_event().1),
        turns_to_connections(s, s.next_connection().0, s.next_connection().1),
{
    if s.to_transport.len() > 0 {
        assert(s.to_transport =~= seq![s.to_transport[0]] + s.to_transport.drop_first());
    }
    if s.new_connections.len() > 0 {
        assert(s.new_connections =~= seq![s.new_connections[0]] + s.new_connections.drop_first());
    }
}

/// As long as the transport may still send something and has sent nothing, a poll is pending and
/// changes nothing. When the transport can send nothing any more, a poll turns to the connections.
pub proof fn lemma_idle_poll<S, O, L, D>(
    b: &mut Client<S, O, L, D>,
    step: PollStep<S, O, D>,
    c: &mut Client<S, O, L, D>,
    closed_step: PollStep<S, O, D>,
)
    requires
        old(b).wf(),
        call_ensures(Client::<S, O, L, D>::poll, (b, Received::Pending), step),
        old(c).wf(),
        call_ensures(Client::<S, O, L, D>::poll, (c, Received::Closed), closed_step),
    ensures
        step == PollStep::<S, O, D>::Done(Polled::Pending),
        final(b)@ == old(b)@,
        turns_to_connections(old(c)@, final(c)@, closed_step),
{
    lemma_turns(old(c)@);
}

/// A connection goes to the listener that has room for it. If the listener has none, the connection
/// goes back to the front of the queue, and it is the transport's turn; if the listener is gone, the
/// swarm is told so under the address.
pub proof fn lemma_listener_polled<S, O, L, D>(
    b: &mut Client<S, O, L, D>,
    new_connection: PendingNewConnection<S>,
    listener_id: ListenerId,
    readiness: Readiness<D>,
    step: PollStep<S, O, D>,
)
    requires
        old(b).wf(),
        call_ensures(
            Client::<S, O, L, D>::listener_ready,
            (b, new_connection, listener_id, readiness),
            step,
        ),
    ensures
        match readiness {
            Readiness::Ready => {
                &&& step matches PollStep::SendConnection { delivery, connection }
                &&& connection == new_connection.connection
                &&& delivery.listen_addr == new_connection.listen_addr
                &&& delivery.listener_id == listener_id
                &&& final(b)@ == old(b)@
            },
            Readiness::Failed(error) => {
                &&& step matches PollStep::Done(
                    Polled::Ready(
                        NetworkBehaviourAction::GenerateEvent(
                            Event::UnexpectedListenerClosed { listen_addr, err },
                        ),
                    ),
                )
                &&& listen_addr == new_connection.listen_addr
                &&& err == error
                &&& final(b)@ == old(b)@
            },
            Readiness::Pending => turns_to_transport(
                State {
                    new_connections: seq![new_connection] + old(b)@.new_connections,
                    ..old(b)@
                },
                final(b)@,
                step,
            ),
        },
{
    lemma_turns(
        State { new_connections: seq![new_connection] + old(b)@.new_connections, ..old(b)@ },
    );
}

/// When a listener has got its connection, the transport is still to be told that the listener
/// listens on the address, behind all else; then it is the turn of the next connection. A listener
/// that is gone by then is reported.
pub proof fn lemma_listener_got<S, O, L, D>(
    b: &mut Client<S, O, L, D>,
    delivered: Delivery,
    sent: Result<(), D>,
    step: PollStep<S, O, D>,
)
    requires
        old(b).wf(),
        call_ensures(Client::<S, O, L, D>::listener_sent, (b, delivered, sent), step),
    ensures
        match sent {
            Ok(_) => turns_to_connections(
                State {
                    to_transport: old(b)@.to_transport.push(
                        BehaviourToTransportEvent::ListenSuccess {
                            listener_id: delivered.listener_id,
                            local_addr: delivered.listen_addr,
                        },
                    ),
                    ..old(b)@
                },
                final(b)@,
                step,
            ),
            Err(error) => {
                &&& step matches PollStep::Done(
                    Polled::Ready(
                        NetworkBehaviourAction::GenerateEvent(
                            Event::UnexpectedListenerClosed { listen_addr, err },
                        ),
                    ),
                )
                &&& listen_addr == delivered.listen_addr
                &&& err == error
                &&& final(b)@ == old(b)@
            },
        },
{
    lemma_turns(
        State {
            to_transport: old(b)@.to_transport.push(
                BehaviourToTransportEvent::ListenSuccess {
                    listener_id: delivered.listener_id,
                    local_addr: delivered.listen_addr,
                },
            ),
            ..old(b)@
        },
    );
}

/// The swarm is told that the transport is gone.
pub open spec fn transport_is_gone<S, O, D>(step: PollStep<S, O, D>) -> bool {
    step == PollStep::<S, O, D>::Done(
        Polled::Ready(NetworkBehaviourAction::GenerateEvent(Event::UnexpectedTransportDropped)),
    )
}

/// An event goes to the transport when there is room for it. If there is none, it goes back to the
/// front of the queue, and the sender is flushed. A transport that is gone is reported.
pub proof fn lemma_transport_polled<S, O, L, D>(
    b: &mut Client<S, O, L, D>,
    event: BehaviourToTransportEvent,
    readiness: Readiness<()>,
    step: PollStep<S, O, D>,
)
    requires
        old(b).wf(),
        call_ensures(Client::<S, O, L, D>::transport_ready, (b, event, readiness), step),
    ensures
        readiness is Ready ==> step == (PollStep::<S, O, D>::SendEvent { event }) && final(b)@
            == old(b)@,
        readiness is Failed ==> transport_is_gone(step) && final(b)@ == old(b)@,
        readiness is Pending ==> {
            &&& step == PollStep::<S, O, D>::FlushTransport
            &&& final(b)@ == (State {
                to_transport: seq![event] + old(b)@.to_transport,
                ..old(b)@
            })
        },
{
}

/// When an event was sent, the transport may have more to be told; when all is flushed, the poll
/// ends with what the swarm was to be asked first, or is pending if there is nothing. A transport
/// that is gone by then is reported.
pub proof fn lemma_transport_got<S, O, L, D>(
    b: &mut Client<S, O, L, D>,
    sent: bool,
    step: PollStep<S, O, D>,
    c: &mut Client<S, O, L, D>,
    flushed: bool,
    last: PollStep<S, O, D>,
)
    requires
        old(b).wf(),
        call_ensures(Client::<S, O, L, D>::transport_sent, (b, sent), step),
        old(c).wf(),
        call_ensures(Client::<S, O, L, D>::transport_flushed, (c, flushed), last),
    ensures
        sent ==> turns_to_transport(old(b)@, final(b)@, step),
        !sent ==> transport_is_gone(step) && final(b)@ == old(b)@,
        !flushed ==> transport_is_gone(last) && final(c)@ == old(c)@,
        flushed ==> {
            &&& last matches PollStep::Done(polled)
            &&& match polled {
                Polled::Ready(action) => {
                    &&& old(c)@.actions == seq![action] + final(c)@.actions
                    &&& final(c)@ == (State { actions: final(c)@.actions, ..old(c)@ })
                },
                Polled::Pending => old(c)@.actions.len() == 0 && final(c)@ == old(c)@,
            }
        },
{
    lemma_turns(old(b)@);
    let actions = old(c)@.actions;
    if actions.len() > 0 {
        assert(actions =~= seq![actions[0]] + actions.drop_first());
    }
}

/// What a handler reports goes where it belongs, and nowhere else: a new connection behind the
/// connections that no listener has got yet, with its address; an error to the swarm, behind all
/// else that it is still to be told; what comes of a listener to the transport, under the id of the
/// listener; and what comes of a dial to its dialer at once, through its own sender.
pub proof fn lemma_handler_is_heard<S, O, L, D>(
    b: &mut Client<S, O, L, D>,
    event: ConnectionHandlerOutEvent<S, O, D>,
    reply: Option<DialReply<S, O>>,
)
    requires
        old(b).wf(),
        call_ensures(Client::<S, O, L, D>::on_connection_handler_event, (b, event), reply),
    ensures
        match event {
            ConnectionHandlerOutEvent::NewConnection { listen_addr, connection } => {
                &&& final(b).pending_new_connections@ == old(b).pending_new_connections@.push(
                    PendingNewConnection { listen_addr, connection },
                )
                &&& final(b)@ == (State { new_connections: final(b)@.new_connections, ..old(b)@ })
                &&& reply is None
            },
            ConnectionHandlerOutEvent::Error(err) => {
                &&& final(b).pending_actions@ == old(b).pending_actions@.push(
                    NetworkBehaviourAction::GenerateEvent(Event::OtherError(err)),
                )
                &&& final(b)@ == (State { actions: final(b)@.actions, ..old(b)@ })
                &&& reply is None
            },
            ConnectionHandlerOutEvent::ListenSuccess { listener_id, listen_addr, .. } => {
                &&& final(b).pending_to_transport@ == old(b).pending_to_transport@.push(
                    BehaviourToTransportEvent::ListenSuccess {
                        listener_id,
                        local_addr: listen_addr,
                    },
                )
                &&& final(b)@ == (State { to_transport: final(b)@.to_transport, ..old(b)@ })
                &&& reply is None
            },
            ConnectionHandlerOutEvent::ListenFailed { err, listener_id, listen_addr, .. } => {
                &&& final(b).pending_to_transport@ == old(b).pending_to_transport@.push(
                    BehaviourToTransportEvent::ListenFailed {
                        err,
                        listener_id,
                        local_addr: listen_addr,
                    },
                )
                &&& final(b)@ == (State { to_transport: final(b)@.to_transport, ..old(b)@ })
                &&& reply is None
            },
            ConnectionHandlerOutEvent::DialSuccess { connection, sender } => {
                &&& reply == Some(DialReply::<S, O> { sender, result: Ok(connection) })
                &&& final(b)@ == old(b)@
            },
            ConnectionHandlerOutEvent::DialFailed { err, sender } => {
                &&& reply == Some(DialReply::<S, O> { sender, result: Err(err) })
                &&& final(b)@ == old(b)@
            },
        },
{
    assert(final(b)@.new_connections == final(b).pending_new_connections@);
    assert(final(b)@.actions == final(b).pending_actions@);
    assert(final(b)@.to_transport == final(b).pending_to_transport@);
}

/// A fresh client and its transport know their own peer and the relay, and nothing else. Nothing
/// that the swarm says matters to the client. A connection is sent through the sender of the
/// listener that has its address.
pub proof fn lemma_fresh_client<S, O, L, R, D>(
    local_peer_id: PeerId,
    relay_addr: Multiaddr,
    relay_peer_id: PeerId,
    fresh: (Transport<O, L, R>, Client<S, O, L, D>),
    b: &mut Client<S, O, L, D>,
    event: FromSwarm,
    r: (),
    c: &mut Client<S, O, L, D>,
    listen_addr: Multiaddr,
    listener: Option<&mut L>,
)
    requires
        call_ensures(
            Transport::<O, L, R>::new::<S, D>,
            (local_peer_id, relay_addr, relay_peer_id),
            fresh,
        ),
        call_ensures(Client::<S, O, L, D>::on_swarm_event, (b, event), r),
        old(c).wf(),
        call_ensures(Client::<S, O, L, D>::listener_sender, (c, &listen_addr), listener),
    ensures
        fresh.0.local_peer_id == local_peer_id,
        fresh.0.relay_addr == relay_addr,
        fresh.0.relay_peer_id == relay_peer_id,
        fresh.0.pending_to_behaviour@.len() == 0,
        fresh.0.listeners@.len() == 0,
        fresh.1.wf(),
        fresh.1.peer_id == local_peer_id,
        fresh.1.listeners@ == Map::<Seq<u8>, ListenerSenderWithId<L>>::empty(),
        fresh.1.pending_new_connections@.len() == 0,
        fresh.1.pending_actions@.len() == 0,
        fresh.1.pending_to_transport@.len() == 0,
        *final(b) == *old(b),
        listener is Some <==> old(c).listeners@.contains_key(listen_addr@),
        listener matches Some(sender) ==> *sender == old(c).listeners@[listen_addr@].sender,
{
    assert(fresh.0@.to_behaviour.len() == 0);
    assert(fresh.0@.listeners.len() == 0);
    assert(fresh.1@.new_connections.len() == 0);
    assert(fresh.1@.actions.len() == 0);
    assert(fresh.1@.to_transport.len() == 0);
}

/// The transports are for the same peer and the same relay.
pub open spec fn same_ends<O, L, R>(before: Transport<O, L, R>, after: Transport<O, L, R>) -> bool {
    &&& after.local_peer_id == before.local_peer_id
    &&& after.relay_addr == before.relay_addr
    &&& after.relay_peer_id == before.relay_peer_id
}

/// A transport that is made to listen has one listener more, under an id that none of the others
/// has, with its address and receiver. The behaviour is still to be asked to listen for it, behind
/// all else: under that id, for this peer on that address, through this relay, with the sender.
pub proof fn lemma_listening<O, L, R>(
    t: &mut Transport<O, L, R>,
    addr: Multiaddr,
    connection_sender: L,
    receiver: R,
    listened: Result<ListenerId, TransportError<Error>>,
)
    requires
        call_ensures(
            Transport::<O, L, R>::listen_on,
            (t, addr, connection_sender, receiver),
            listened,
        ),
    ensures
        listened is Ok,
        forall|i: int|
            0 <= i < old(t).listeners@.len() ==> (#[trigger] old(t).listeners@[i]).listener_id
                != listened->Ok_0,
        listens_more(*old(t), *final(t), listened->Ok_0, addr, connection_sender, receiver),
{
    lemma_first_position(old(t).listeners@, listened->Ok_0);
}

/// A transport is made to listen under an id.
pub open spec fn listens_more<O, L, R>(
    before: Transport<O, L, R>,
    after: Transport<O, L, R>,
    listener_id: ListenerId,
    addr: Multiaddr,
    connection_sender: L,
    receiver: R,
) -> bool {
    &&& after.listeners@ == before.listeners@.push(
        Listener { local_addr: addr, listener_id, receiver: Some(receiver) },
    )
    &&& after.pending_to_behaviour@ == before.pending_to_behaviour@.push(
        TransportToBehaviourEvent::Listen {
            listener_id,
            local_peer_id: before.local_peer_id,
            local_addr: addr,
            relay_peer_id: before.relay_peer_id,
            relay_addr: before.relay_addr,
            connection_sender,
        },
    )
    &&& same_ends(before, after)
}

/// Under an id that is given, a transport listens in the same way. A transport that is made to dial
/// has the behaviour still to be asked for it, behind all else: the address, the relay's address and
/// the sender. It cannot be dialed through as a listener.
pub proof fn lemma_asking<O, L, R>(
    t: &mut Transport<O, L, R>,
    listener_id: ListenerId,
    addr: Multiaddr,
    connection_sender: L,
    receiver: R,
    u: &mut Transport<O, L, R>,
    dst_addr: Multiaddr,
    dialer: O,
    v: &mut Transport<O, L, R>,
    refused: Result<(), TransportError<Error>>,
    r: (),
)
    requires
        call_ensures(
            Transport::<O, L, R>::listen_as,
            (t, listener_id, addr, connection_sender, receiver),
            r,
        ),
        call_ensures(Transport::<O, L, R>::dial, (u, dst_addr, dialer), r),
        call_ensures(Transport::<O, L, R>::dial_as_listener, (v, dst_addr), refused),
    ensures
        listens_more(*old(t), *final(t), listener_id, addr, connection_sender, receiver),
        final(u).pending_to_behaviour@ == old(u).pending_to_behaviour@.push(
            TransportToBehaviourEvent::Dial {
                dst_addr,
                relay_addr: old(u).relay_addr,
                connection_sender: dialer,
            },
        ),
        final(u).listeners@ == old(u).listeners@,
        same_ends(*old(u), *final(u)),
        *final(v) == *old(v),
        refused matches Err(TransportError::Other(Error::UnsupportedDialAsListener)),
{
    assert(final(t)@.to_behaviour == final(t).pending_to_behaviour@);
    assert(final(u)@.to_behaviour == final(u).pending_to_behaviour@);
}

/// A listener is removed exactly if there is one with the id: the first such loses its receiver, and
/// nothing else changes. It stays until it is polled.
pub proof fn lemma_removing<O, L, R>(t: &mut Transport<O, L, R>, id: ListenerId, removed: bool)
    requires
        call_ensures(Transport::<O, L, R>::remove_listener, (t, id), removed),
    ensures
        removed <==> exists|i: int|
            0 <= i < old(t).listeners@.len() && (#[trigger] old(t).listeners@[i]).listener_id == id,
        !removed ==> final(t)@ == old(t)@,
        removed ==> loses_receiver(*old(t), *final(t), id),
        final(t).pending_to_behaviour@ == old(t).pending_to_behaviour@,
        same_ends(*old(t), *final(t)),
{
    lemma_ended(old(t)@, id);
    assert(final(t)@.to_behaviour == final(t).pending_to_behaviour@);
}

/// The first listener with an id, and no other, loses its receiver.
pub open spec fn loses_receiver<O, L, R>(
    before: Transport<O, L, R>,
    after: Transport<O, L, R>,
    id: ListenerId,
) -> bool {
    exists|i: int|
        {
            &&& 0 <= i < before.listeners@.len()
            &&& before.listeners@[i].listener_id == id
            &&& forall|j: int|
                0 <= j < i ==> (#[trigger] before.listeners@[j]).listener_id != id
            &&& after.listeners@ == #[trigger] before.listeners@.update(
                i,
                Listener {
                    local_addr: before.listeners@[i].local_addr,
                    listener_id: id,
                    receiver: None,
                },
            )
        }
}

/// Where the first listener with an id stands in the model.
proof fn lemma_ended<O, L, R>(s: super::transport::State<O, L, R>, id: ListenerId)
    ensures
        s.has_listener(id) <==> exists|i: int|
            0 <= i < s.listeners.len() && (#[trigger] s.listeners[i]).listener_id == id,
        s.has_listener(id) ==> s.listener(id).listener_id == id,
        forall|j: int|
            0 <= j < position(s.listeners, id) && j < s.listeners.len() ==> (
            #[trigger] s.listeners[j]).listener_id != id,
{
    lemma_first_position(s.listeners, id);
}

/// What the behaviour tells a transport is passed on to the swarm: a listener that listens as its new
/// address; one that could not, with the reason, as an error of that listener, which loses its
/// receiver. Of a closed peer nothing is passed on, and the behaviour is asked on. When there is
/// nothing to pass on, the first request leaves the queue for the behaviour; if there is none, the
/// sender is flushed.
pub proof fn lemma_transport_hears<S, O, L, R>(
    t: &mut Transport<O, L, R>,
    received: Received<BehaviourToTransportEvent>,
    step: super::transport::PollStep<S, O, L>,
)
    requires
        received !is Closed,
        call_ensures(Transport::<O, L, R>::poll::<S>, (t, received), step),
    ensures
        same_ends(*old(t), *final(t)),
        match received {
            Received::Item(BehaviourToTransportEvent::ListenSuccess { listener_id, local_addr }) => {
                &&& step matches super::transport::PollStep::Done(
                    Polled::Ready(TransportEvent::NewAddress { listener_id: id, listen_addr }),
                )
                &&& id == listener_id && listen_addr == local_addr
                &&& final(t)@ == old(t)@
            },
            Received::Item(BehaviourToTransportEvent::ListenFailed { err, listener_id, .. }) => {
                &&& step matches super::transport::PollStep::Done(
                    Polled::Ready(TransportEvent::ListenerError { listener_id: id, error }),
                )
                &&& id == listener_id && error == Error::ListenFailed(err)
                &&& final(t).pending_to_behaviour@ == old(t).pending_to_behaviour@
                &&& loses_receiver(*old(t), *final(t), listener_id) || {
                    &&& final(t)@ == old(t)@
                    &&& forall|i: int|
                        0 <= i < old(t).listeners@.len() ==> (
                        #[trigger] old(t).listeners@[i]).listener_id != listener_id
                }
            },
            Received::Item(BehaviourToTransportEvent::PeerClosed { .. }) => {
                step is PollBehaviour && final(t)@ == old(t)@
            },
            _ => asks_behaviour(*old(t), *final(t), step),
        },
{
    if let Received::Item(BehaviourToTransportEvent::ListenFailed { listener_id, .. }) = received {
        lemma_ended(old(t)@, listener_id);
        assert(final(t)@.to_behaviour == final(t).pending_to_behaviour@);
    }
    lemma_asks(*old(t), *final(t), step);
}

/// The first request leaves the queue for the behaviour; if there is none, the sender is flushed.
pub open spec fn asks_behaviour<S, O, L, R>(
    before: Transport<O, L, R>,
    after: Transport<O, L, R>,
    step: super::transport::PollStep<S, O, L>,
) -> bool {
    &&& after.listeners@ == before.listeners@
    &&& same_ends(before, after)
    &&& match step {
        super::transport::PollStep::PollSender { event } => before.pending_to_behaviour@ == seq![
            event,
        ] + after.pending_to_behaviour@,
        super::transport::PollStep::FlushSender => {
            before.pending_to_behaviour@.len() == 0 && after.pending_to_behaviour@.len() == 0
        },
        _ => false,
    }
}

proof fn lemma_asks<S, O, L, R>(
    before: Transport<O, L, R>,
    after: Transport<O, L, R>,
    step: super::transport::PollStep<S, O, L>,
)
    ensures
        (after@, step) == before@.next_event::<S>() ==> asks_behaviour(before, after, step),
{
    let queue = before.pending_to_behaviour@;
    assert(before@.to_behaviour == queue);
    assert(after@.to_behaviour == after.pending_to_behaviour@);
    if queue.len() > 0 {
        assert(queue =~= seq![queue[0]] + queue.drop_first());
    }
}

/// A request goes to the behaviour when there is room for it, and the next one is looked for when it
/// was sent. If there is no room, the request goes back to the front of the queue, and the sender is
/// flushed.
pub proof fn lemma_behaviour_polled<S, O, L, R>(
    t: &mut Transport<O, L, R>,
    event: TransportToBehaviourEvent<O, L>,
    ready: bool,
    step: super::transport::PollStep<S, O, L>,
    u: &mut Transport<O, L, R>,
    next: super::transport::PollStep<S, O, L>,
)
    requires
        call_ensures(Transport::<O, L, R>::behaviour_ready::<S>, (t, event, ready), step),
        call_ensures(Transport::<O, L, R>::behaviour_sent::<S>, (u,), next),
    ensures
        ready ==> step == (super::transport::PollStep::<S, O, L>::SendEvent { event }) && final(t)@
            == old(t)@,
        !ready ==> {
            &&& step is FlushSender
            &&& final(t).pending_to_behaviour@ == seq![event] + old(t).pending_to_behaviour@
            &&& final(t).listeners@ == old(t).listeners@
            &&& same_ends(*old(t), *final(t))
        },
        asks_behaviour(*old(u), *final(u), next),
{
    assert(final(t)@.to_behaviour == final(t).pending_to_behaviour@);
    lemma_asks(*old(u), *final(u), next);
}

/// A listener passes on what its receiver gives: a connection as one that came to its address from
/// the remote address of the connection; an error as its own, after which it has no receiver. A
/// listener without a receiver, or one whose senders are gone, gives nothing any more.
pub proof fn lemma_listener_gives<S, R>(
    l: &mut Listener<R>,
    received: Received<Result<Connection<S>, IoError>>,
    given: Received<super::transport::Event<S>>,
)
    requires
        call_ensures(Listener::<R>::poll_next::<S>, (l, received), given),
    ensures
        final(l).listener_id == old(l).listener_id,
        final(l).local_addr == old(l).local_addr,
        given is Closed <==> old(l).receiver is None || received is Closed,
        given is Pending <==> old(l).receiver is Some && received is Pending,
        old(l).receiver is Some ==> (received matches Received::Item(Ok(connection)) ==> {
            &&& given matches Received::Item(
                TransportEvent::Incoming { listener_id, upgrade, local_addr, send_back_addr },
            )
            &&& listener_id == old(l).listener_id
            &&& upgrade == Ok::<Connection<S>, Error>(connection)
            &&& local_addr == old(l).local_addr
            &&& send_back_addr == connection.remote_addr
        }),
        old(l).receiver is Some ==> (received matches Received::Item(Err(err)) ==> {
            &&& given matches Received::Item(TransportEvent::ListenerError { listener_id, error })
            &&& listener_id == old(l).listener_id
            &&& error == Error::DialFailed(err)
            &&& final(l).receiver is None
        }),
        !(received matches Received::Item(Err(err))) ==> final(l).receiver == old(l).receiver,
{
}

/// A listener of the transport is polled as itself: the first with the id gives what its receiver
/// gives, and is dropped when it gives nothing any more. The other listeners are left alone, in
/// order.
pub proof fn lemma_listener_of_transport<S, O, L, R>(
    t: &mut Transport<O, L, R>,
    id: ListenerId,
    received: Received<Result<Connection<S>, IoError>>,
    given: Received<super::transport::Event<S>>,
    i: int,
    l: &mut Listener<R>,
    alone: Received<super::transport::Event<S>>,
)
    requires
        call_ensures(Transport::<O, L, R>::listener_polled::<S>, (t, id, received), given),
        0 <= i < old(t).listeners@.len(),
        old(t).listeners@[i].listener_id == id,
        forall|j: int| 0 <= j < i ==> (#[trigger] old(t).listeners@[j]).listener_id != id,
        *old(l) == old(t).listeners@[i],
        call_ensures(Listener::<R>::poll_next::<S>, (l, received), alone),
    ensures
        given == alone,
        given is Closed ==> final(t).listeners@ == old(t).listeners@.remove(i),
        given !is Closed ==> final(t).listeners@ == old(t).listeners@.update(i, *final(l)),
        final(t).pending_to_behaviour@ == old(t).pending_to_behaviour@,
        same_ends(*old(t), *final(t)),
{
    lemma_first_position(old(t).listeners@, id);
    assert(position(old(t).listeners@, id) == i) by {
        let p = position(old(t).listeners@, id) as int;
        if p < i {
            assert(old(t).listeners@[p].listener_id == id);
        } else if i < p {
            assert(old(t).listeners@[i].listener_id != id);
        }
    }
    assert(final(t)@.to_behaviour == final(t).pending_to_behaviour@);
    assert(final(t)@.listeners == final(t).listeners@);
}

/// Of a listener that is not there nothing comes, and nothing changes.
pub proof fn lemma_no_listener<S, O, L, R>(
    t: &mut Transport<O, L, R>,
    id: ListenerId,
    received: Received<Result<Connection<S>, IoError>>,
    given: Received<super::transport::Event<S>>,
)
    requires
        call_ensures(Transport::<O, L, R>::listener_polled::<S>, (t, id, received), given),
        forall|j: int|
            0 <= j < old(t).listeners@.len() ==> (#[trigger] old(t).listeners@[j]).listener_id
                != id,
    ensures
        given is Closed,
        final(t)@ == old(t)@,
{
    lemma_first_position(old(t).listeners@, id);
}

/// A dial comes to the connection or the error that its sender was given; if the sender was dropped,
/// the error says so. The errors of the transport are shown with what they are about.
pub proof fn lemma_dial_comes_to<S>(
    outcome: Option<Result<Connection<S>, IoError>>,
    result: Result<Connection<S>, Error>,
    error: Error,
    text: String,
)
    requires
        call_ensures(dialed::<S>, (outcome,), result),
        call_ensures(Error::message, (&error,), text),
    ensures
        outcome matches Some(Ok(connection)) ==> result == Ok::<Connection<S>, Error>(connection),
        outcome matches Some(Err(err)) ==> result == Err::<Connection<S>, Error>(
            Error::DialFailed(err),
        ),
        outcome is None ==> result == Err::<Connection<S>, Error>(
            Error::DialFailed(
                IoError::Caused {
                    kind: IoErrorKind::Other,
                    cause: Cause::ConnectionSenderDropped,
                },
            ),
        ),
        error matches Error::DialFailed(err) ==> text@ == "dial failed: "@ + err.text(),
        error matches Error::ListenFailed(err) ==> text@ == "listen failed: "@ + err.text(),
        error is UnsupportedDialAsListener ==> text@ == "unsupported dial as listener"@,
{
}

/// A client that is made knows its own peer, and its handlers share the addresses that they are
/// given. An error of the transport is none of an address.
pub proof fn lemma_client_is_made<S, O, L, D>(
    peer_id: PeerId,
    client: Client<S, O, L, D>,
    listen_addrs: Arc<dashmap::DashSet<Multiaddr>>,
    handler: super::handler::IntoConnectionHandler,
    error: Error,
    shown: TransportError<Error>,
)
    requires
        call_ensures(Client::<S, O, L, D>::new, (peer_id,), client),
        call_ensures(Client::<S, O, L, D>::new_handler, (&client, listen_addrs), handler),
        call_ensures(<TransportError<Error> as From<Error>>::from, (error,), shown),
    ensures
        client.wf(),
        client.peer_id == peer_id,
        client.listeners@ == Map::<Seq<u8>, ListenerSenderWithId<L>>::empty(),
        client.pending_new_connections@.len() == 0,
        client.pending_actions@.len() == 0,
        client.pending_to_transport@.len() == 0,
        handler.listen_addrs == listen_addrs,
        handler.keepalive == crate::swarm::KeepAlive::Yes,
        shown == TransportError::Other(error),
{
    assert(client@.new_connections.len() == 0);
    assert(client@.actions.len() == 0);
    assert(client@.to_transport.len() == 0);
}

} // verus!
