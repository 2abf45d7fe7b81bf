//! The behaviour of an endpoint: it sees to it that the relays are dialed, hands the requests of
//! the transports to the connection handlers, and the connections of the relays to the listeners.

use std::collections::VecDeque;

use libp2p_core::transport::ListenerId;
use libp2p_swarm::ConnectionId;
use vstd::prelude::*;

use super::event::{
    BehaviourToTransportEvent, ConnectionHandlerInEvent, ConnectionHandlerOutEvent, Event,
    TransportToBehaviourEvent,
};
use super::handler::IntoConnectionHandler;
use crate::address::{Multiaddr, PeerId};
use crate::connection::Connection;
use crate::error::{Cause, IoError, IoErrorKind};
use crate::swarm::{
    only_events, FromSwarm, KeepAlive, NetworkBehaviourAction, NotifyHandler, Polled, Readiness,
};
use crate::table::{without, Table};

verus! {

/// What the behaviour asks of the swarm.
pub type Action<O, D> = NetworkBehaviourAction<
    Event<D>,
    ConnectionHandlerInEvent<O>,
    IntoConnectionHandler,
>;

/// A connection of a relay that no listener has got yet.
#[derive(Debug)]
pub struct PendingNewConnection<S> {
    pub listen_addr: Multiaddr,
    pub relay_peer_id: PeerId,
    pub connection: Connection<S>,
}

/// A listener, and the sender of its connections.
#[derive(Debug)]
pub struct ListenerSenderWithId<L> {
    pub listener_id: ListenerId,
    pub sender: L,
}

/// A connection on its way to a listener.
#[derive(Debug)]
pub struct Delivery {
    pub listen_addr: Multiaddr,
    pub relay_peer_id: PeerId,
    pub listener_id: ListenerId,
}

/// What is to be sent to a dialer, and the sender to use.
#[derive(Debug)]
pub struct DialReply<S, O> {
    pub sender: O,
    pub result: Result<Connection<S>, IoError>,
}

/// What has to be done next in a poll of the behaviour. All but the last wait for an answer.
#[derive(Debug)]
pub enum PollStep<S, O, D> {
    /// Poll the sender of the listener for room; [`Behaviour::listener_ready`] takes the answer.
    PollListener { new_connection: PendingNewConnection<S>, listener_id: ListenerId },
    /// Send the connection to the listener; [`Behaviour::listener_sent`] takes the answer.
    SendConnection { delivery: Delivery, connection: Connection<S> },
    /// Flush the sender of the listener; [`Behaviour::listener_flushed`] takes the answer.
    FlushListener { delivery: Delivery },
    /// Poll the sender of a transport for room; [`Behaviour::transport_ready`] takes the answer.
    PollTransport { at: usize, event: BehaviourToTransportEvent },
    /// Send the event to the transport; [`Behaviour::transport_sent`] takes the answer.
    SendEvent { at: usize, event: BehaviourToTransportEvent },
    /// The poll is over. If it is pending, the task is to be woken later.
    Done(Polled<Action<O, D>>),
}

/// What the behaviour knows, as mathematical values. Peers and addresses are their bytes.
#[verifier::ext_equal]
pub struct State<S, O, L, T, D> {
    pub peer_id: PeerId,
    /// The listeners, by the address that they listen on.
    pub listeners: Map<Seq<u8>, ListenerSenderWithId<L>>,
    /// The connections that no listener has got yet.
    pub new_connections: Seq<PendingNewConnection<S>>,
    /// What is still to be asked of the swarm.
    pub actions: Seq<Action<O, D>>,
    /// The relays that have a transport.
    pub relays: Seq<Seq<u8>>,
    /// What the transport of each relay is still to be told.
    pub to_transport: Map<Seq<u8>, Seq<BehaviourToTransportEvent>>,
    /// The sender for the transport of each relay.
    pub transports: Map<Seq<u8>, T>,
    /// The open connections to each relay.
    pub established: Map<Seq<u8>, Set<ConnectionId>>,
    /// The relays that are being dialed.
    pub connecting: Set<Seq<u8>>,
    /// The requests that wait for a connection to their relay.
    pub waiting: Map<Seq<u8>, Seq<TransportToBehaviourEvent<O, L>>>,
    /// The requests whose relay is connected by now.
    pub released: Seq<TransportToBehaviourEvent<O, L>>,
}

impl<S, O, L, T, D> State<S, O, L, T, D> {
    /// The requests that wait for a relay.
    pub open spec fn waiting_for(self, relay: Seq<u8>) -> Seq<TransportToBehaviourEvent<O, L>> {
        if self.waiting.contains_key(relay) {
            self.waiting[relay]
        } else {
            Seq::empty()
        }
    }

    /// Asks the swarm for something, at once.
    pub open spec fn ask(self, action: Action<O, D>) -> (Self, PollStep<S, O, D>) {
        (self, PollStep::Done(Polled::Ready(action)))
    }

    /// Begins a poll with what the transports sent.
    pub open spec fn poll(self, received: Option<TransportToBehaviourEvent<O, L>>) -> (
        Self,
        PollStep<S, O, D>,
    ) {
        match received {
            Some(event) => {
                let relay = event.relay_peer_id_spec();
                if self.established.contains_key(relay@) {
                    self.begin(event)
                } else {
                    let waits = State {
                        waiting: self.waiting.insert(relay@, self.waiting_for(relay@).push(event)),
                        ..self
                    };
                    if self.connecting.contains(relay@) {
                        waits.next_connection()
                    } else {
                        State { connecting: self.connecting.insert(relay@), ..waits }.ask(
                            NetworkBehaviourAction::Dial {
                                peer_id: relay,
                                address: event.relay_addr_spec(),
                                handler: IntoConnectionHandler {
                                    keepalive: KeepAlive::Yes,
                                    local_peer_id: self.peer_id,
                                },
                            },
                        )
                    }
                }
            },
            None => {
                if self.released.len() > 0 {
                    State { released: self.released.drop_first(), ..self }.begin(self.released[0])
                } else {
                    self.next_connection()
                }
            },
        }
    }

    /// Hands a request to the handler of its relay. A listener is remembered.
    pub open spec fn begin(self, event: TransportToBehaviourEvent<O, L>) -> (
        Self,
        PollStep<S, O, D>,
    ) {
        match event {
            TransportToBehaviourEvent::Dial {
                dst_peer_id,
                dst_addr,
                relay_addr: _,
                relay_peer_id,
                connection_sender,
            } => self.ask(
                NetworkBehaviourAction::NotifyHandler {
                    peer_id: relay_peer_id,
                    handler: NotifyHandler::Any,
                    event: ConnectionHandlerInEvent::Dial {
                        dst_peer_id,
                        dst_addr,
                        connection_sender,
                    },
                },
            ),
            TransportToBehaviourEvent::Listen {
                listener_id,
                local_peer_id,
                local_addr,
                relay_peer_id,
                relay_addr: _,
                connection_sender,
            } => State {
                listeners: self.listeners.insert(
                    local_addr@,
                    ListenerSenderWithId { listener_id, sender: connection_sender },
                ),
                ..self
            }.ask(
                NetworkBehaviourAction::NotifyHandler {
                    peer_id: relay_peer_id,
                    handler: NotifyHandler::Any,
                    event: ConnectionHandlerInEvent::Listen {
                        listener_id,
                        local_peer_id,
                        local_addr,
                    },
                },
            ),
        }
    }

    /// Goes on with the next connection, or, when there is none, with the transports.
    pub open spec fn next_connection(self) -> (Self, PollStep<S, O, D>) {
        if self.new_connections.len() == 0 {
            self.next_transport(0)
        } else {
            let new_connection = self.new_connections[0];
            let rest = State { new_connections: self.new_connections.drop_first(), ..self };
            if self.listeners.contains_key(new_connection.listen_addr@) {
                (
                    rest,
                    PollStep::PollListener {
                        new_connection,
                        listener_id: self.listeners[new_connection.listen_addr@].listener_id,
                    },
                )
            } else {
                rest.ask(
                    NetworkBehaviourAction::GenerateEvent(
                        Event::UnexpectedConnection { listen_addr: new_connection.listen_addr },
                    ),
                )
            }
        }
    }

    pub open spec fn listener_ready(
        self,
        new_connection: PendingNewConnection<S>,
        listener_id: ListenerId,
        readiness: Readiness<D>,
    ) -> (Self, PollStep<S, O, D>) {
        match readiness {
            Readiness::Pending => State {
                new_connections: seq![new_connection] + self.new_connections,
                ..self
            }.next_transport(0),
            Readiness::Failed(err) => self.ask(
                NetworkBehaviourAction::GenerateEvent(
                    Event::UnexpectedListenerClosed {
                        listen_addr: new_connection.listen_addr,
                        err,
                    },
                ),
            ),
            Readiness::Ready => (
                self,
                PollStep::SendConnection {
                    delivery: Delivery {
                        listen_addr: new_connection.listen_addr,
                        relay_peer_id: new_connection.relay_peer_id,
                        listener_id,
                    },
                    connection: new_connection.connection,
                },
            ),
        }
    }

    pub open spec fn listener_sent(self, delivery: Delivery, sent: Result<(), D>) -> (
        Self,
        PollStep<S, O, D>,
    ) {
        match sent {
            Err(err) => self.ask(
                NetworkBehaviourAction::GenerateEvent(
                    Event::UnexpectedListenerClosed { listen_addr: delivery.listen_addr, err },
                ),
            ),
            Ok(_) => (self, PollStep::FlushListener { delivery }),
        }
    }

    pub open spec fn listener_flushed(self, delivery: Delivery, flushed: Result<(), D>) -> (
        Self,
        PollStep<S, O, D>,
    ) {
        match flushed {
            Err(err) => self.ask(
                NetworkBehaviourAction::GenerateEvent(
                    Event::UnexpectedListenerClosed { listen_addr: delivery.listen_addr, err },
                ),
            ),
            Ok(_) => self.tell(
                delivery.relay_peer_id@,
                BehaviourToTransportEvent::ListenSuccess {
                    listener_id: delivery.listener_id,
                    listen_addr: delivery.listen_addr,
                },
            ).next_connection(),
        }
    }

    /// Queues an event for the transport of a relay, if there is one.
    pub open spec fn tell(self, relay: Seq<u8>, event: BehaviourToTransportEvent) -> Self {
        if self.to_transport.contains_key(relay) {
            State {
                to_transport: self.to_transport.insert(relay, self.to_transport[relay].push(event)),
                ..self
            }
        } else {
            self
        }
    }

    /// The first relay, at or behind a position, whose transport is still to be told something.
    pub open spec fn first_untold(self, from: int) -> int
        decreases self.relays.len() - from,
    {
        if 0 <= from < self.relays.len() && self.to_transport[self.relays[from]].len() == 0 {
            self.first_untold(from + 1)
        } else {
            from
        }
    }

    /// Goes on with the next event for a transport, or, when there is none, ends the poll with what
    /// is still to be asked of the swarm.
    pub open spec fn next_transport(self, from: int) -> (Self, PollStep<S, O, D>) {
        let at = self.first_untold(from);
        if at < self.relays.len() {
            let relay = self.relays[at];
            let events = self.to_transport[relay];
            (
                State {
                    to_transport: self.to_transport.insert(relay, events.drop_first()),
                    ..self
                },
                PollStep::PollTransport { at: at as usize, event: events[0] },
            )
        } else if self.actions.len() > 0 {
            State { actions: self.actions.drop_first(), ..self }.ask(self.actions[0])
        } else {
            (self, PollStep::Done(Polled::Pending))
        }
    }

    pub open spec fn transport_ready(
        self,
        at: int,
        event: BehaviourToTransportEvent,
        readiness: Readiness<()>,
    ) -> (Self, PollStep<S, O, D>) {
        let relay = self.relays[at];
        match readiness {
            Readiness::Pending => State {
                to_transport: self.to_transport.insert(
                    relay,
                    seq![event] + self.to_transport[relay],
                ),
                ..self
            }.next_transport(at + 1),
            Readiness::Failed(_) => State {
                relays: without(self.relays, relay),
                to_transport: self.to_transport.remove(relay),
                transports: self.transports.remove(relay),
                ..self
            }.ask(NetworkBehaviourAction::GenerateEvent(Event::UnexpectedTransportDropped)),
            Readiness::Ready => (self, PollStep::SendEvent { at: at as usize, event }),
        }
    }

    pub open spec fn transport_sent(self, at: int, sent: bool) -> (Self, PollStep<S, O, D>) {
        if sent {
            self.next_transport(at)
        } else {
            self.ask(NetworkBehaviourAction::GenerateEvent(Event::UnexpectedTransportDropped))
        }
    }
}

/// The error of a request whose relay could not be dialed.
pub open spec fn relay_error<O, L>(
    event: TransportToBehaviourEvent<O, L>,
    error: String,
) -> IoError {
    IoError::Caused {
        kind: IoErrorKind::Other,
        cause: match event {
            TransportToBehaviourEvent::Dial { dst_peer_id, dst_addr, .. } => {
                Cause::RelayDialFailed { dst_peer_id, dst_addr, error }
            },
            TransportToBehaviourEvent::Listen { local_peer_id, local_addr, .. } => {
                Cause::RelayListenFailed { local_peer_id, local_addr, error }
            },
        },
    }
}

/// What the transport is told of a request whose relay could not be dialed.
pub open spec fn relay_failure<O, L>(
    event: TransportToBehaviourEvent<O, L>,
    error: String,
) -> BehaviourToTransportEvent {
    match event {
        TransportToBehaviourEvent::Dial { dst_peer_id, dst_addr, .. } => {
            BehaviourToTransportEvent::DialFailed {
                err: relay_error(event, error),
                dst_peer_id,
                dst_addr,
            }
        },
        TransportToBehaviourEvent::Listen { listener_id, local_addr, .. } => {
            BehaviourToTransportEvent::ListenFailed {
                err: relay_error(event, error),
                listener_id,
                local_addr,
            }
        },
    }
}

/// What the transport is told of requests whose relay could not be dialed, one event for each.
pub open spec fn relay_failures<O, L>(
    events: Seq<TransportToBehaviourEvent<O, L>>,
    error: String,
) -> Seq<BehaviourToTransportEvent> {
    events.map_values(|event: TransportToBehaviourEvent<O, L>| relay_failure(event, error))
}

/// What the dialers are told of requests whose relay could not be dialed.
pub open spec fn relay_replies<S, O, L>(
    events: Seq<TransportToBehaviourEvent<O, L>>,
    error: String,
) -> Seq<DialReply<S, O>>
    decreases events.len(),
{
    if events.len() == 0 {
        Seq::empty()
    } else {
        let replies = relay_replies(events.drop_last(), error);
        match events.last() {
            TransportToBehaviourEvent::Dial { connection_sender, .. } => replies.push(
                DialReply {
                    sender: connection_sender,
                    result: Err(relay_error(events.last(), error)),
                },
            ),
            TransportToBehaviourEvent::Listen { .. } => replies,
        }
    }
}

/// What is left to do when the behaviour has taken an event of the swarm.
#[derive(Debug)]
pub struct SwarmOutcome<S, O> {
    /// What the dialers are told.
    pub replies: Vec<DialReply<S, O>>,
    /// Whether the task is to be woken.
    pub wake: bool,
}

/// What is left to do when the behaviour has taken an event of a handler.
#[derive(Debug)]
pub struct HandlerOutcome<S, O> {
    /// What a dialer is told.
    pub reply: Option<DialReply<S, O>>,
    /// Whether the task is to be woken.
    pub wake: bool,
}

impl<S, O, L, T, D> State<S, O, L, T, D> {
    /// A relay that was being dialed is connected: its requests need not wait any longer.
    pub open spec fn connection_established(self, relay: Seq<u8>, id: ConnectionId) -> Self {
        if self.connecting.contains(relay) {
            let open = if self.established.contains_key(relay) {
                self.established[relay]
            } else {
                Set::empty()
            };
            State {
                connecting: self.connecting.remove(relay),
                established: self.established.insert(relay, open.insert(id)),
                waiting: self.waiting.remove(relay),
                released: self.released + self.waiting_for(relay),
                ..self
            }
        } else {
            self
        }
    }

    /// A connection is closed: its relay is connected as long as another one is open.
    pub open spec fn connection_closed(self, relay: Seq<u8>, id: ConnectionId) -> Self {
        if self.established.contains_key(relay) {
            let open = self.established[relay].remove(id);
            State {
                established: if open.is_empty() {
                    self.established.remove(relay)
                } else {
                    self.established.insert(relay, open)
                },
                ..self
            }
        } else {
            self
        }
    }

    /// A relay could not be dialed: the transport is told of each request that waited for it.
    pub open spec fn dial_failed(self, relay: Seq<u8>, error: String) -> Self {
        State {
            waiting: self.waiting.remove(relay),
            to_transport: if self.waiting.contains_key(relay) && self.to_transport.contains_key(
                relay,
            ) {
                self.to_transport.insert(
                    relay,
                    self.to_transport[relay] + relay_failures(self.waiting[relay], error),
                )
            } else {
                self.to_transport
            },
            ..self
        }
    }

    pub open spec fn on_swarm_event(self, event: FromSwarm) -> Self {
        match event {
            FromSwarm::ConnectionEstablished { peer_id, connection_id } => {
                self.connection_established(peer_id@, connection_id)
            },
            FromSwarm::ConnectionClosed { peer_id, connection_id, remote_addr } => self.tell(
                peer_id@,
                BehaviourToTransportEvent::PeerClosed {
                    peer_id,
                    peer_addr: remote_addr,
                    connection_id,
                },
            ).connection_closed(peer_id@, connection_id),
            FromSwarm::DialFailure { peer_id: Some(peer_id), error } => {
                self.dial_failed(peer_id@, error)
            },
            _ => self,
        }
    }

    /// What the dialers are told when the swarm says something.
    pub open spec fn swarm_replies(self, event: FromSwarm) -> Seq<DialReply<S, O>> {
        match event {
            FromSwarm::DialFailure { peer_id: Some(peer_id), error } => {
                if self.to_transport.contains_key(peer_id@) {
                    relay_replies(self.waiting_for(peer_id@), error)
                } else {
                    Seq::empty()
                }
            },
            _ => Seq::empty(),
        }
    }

    /// Whether there is something new to poll for when the swarm says something.
    pub open spec fn swarm_wakes(self, event: FromSwarm) -> bool {
        match event {
            FromSwarm::ConnectionEstablished { peer_id, .. } => self.connecting.contains(peer_id@)
                && self.waiting.contains_key(peer_id@),
            FromSwarm::ConnectionClosed { .. } => true,
            FromSwarm::DialFailure { peer_id: Some(peer_id), .. } => self.waiting.contains_key(
                peer_id@,
            ),
            _ => false,
        }
    }

    /// What comes of an event of a handler. Only a dial that is over goes to its dialer at once.
    pub open spec fn on_connection_handler_event(
        self,
        event: ConnectionHandlerOutEvent<S, O, D>,
    ) -> Self {
        match event {
            ConnectionHandlerOutEvent::NewConnection { relay_peer_id, listen_addr, connection } => {
                State {
                    new_connections: self.new_connections.push(
                        PendingNewConnection { listen_addr, relay_peer_id, connection },
                    ),
                    ..self
                }
            },
            ConnectionHandlerOutEvent::Error(err) => State {
                actions: self.actions.push(
                    NetworkBehaviourAction::GenerateEvent(Event::OtherError(err)),
                ),
                ..self
            },
            ConnectionHandlerOutEvent::ListenSuccess {
                relay_peer_id,
                listener_id,
                local_peer_id: _,
                listen_addr,
            } => self.tell(
                relay_peer_id@,
                BehaviourToTransportEvent::ListenSuccess { listener_id, listen_addr },
            ),
            ConnectionHandlerOutEvent::ListenFailed {
                err,
                relay_peer_id,
                listener_id,
                local_peer_id: _,
                listen_addr,
            } => self.tell(
                relay_peer_id@,
                BehaviourToTransportEvent::ListenFailed {
                    err,
                    listener_id,
                    local_addr: listen_addr,
                },
            ),
            ConnectionHandlerOutEvent::DialSuccess { .. } => self,
            ConnectionHandlerOutEvent::DialFailed { .. } => self,
        }
    }
}

/// What a dialer is told of an event of a handler.
pub open spec fn handler_reply<S, O, D>(event: ConnectionHandlerOutEvent<S, O, D>) -> Option<
    DialReply<S, O>,
> {
    match event {
        ConnectionHandlerOutEvent::DialSuccess { connection, sender, .. } => Some(
            DialReply { sender, result: Ok(connection) },
        ),
        ConnectionHandlerOutEvent::DialFailed { err, sender, .. } => Some(
            DialReply { sender, result: Err(err) },
        ),
        _ => None,
    }
}

/// The behaviour of an endpoint. Its connections run over substreams of type `S`; dialed
/// connections go to senders of type `O`, those of listeners to senders of type `L`, and the
/// transports are told through senders of type `T`. `D` are the errors of channels and handlers.
#[derive(Debug)]
pub struct Behaviour<S, O, L, T, D> {
    pub peer_id: PeerId,
    pub listeners: Table<Multiaddr, ListenerSenderWithId<L>>,
    pub pending_new_connections: VecDeque<PendingNewConnection<S>>,
    pub pending_actions: VecDeque<Action<O, D>>,
    pub pending_to_transport: Table<PeerId, VecDeque<BehaviourToTransportEvent>>,
    pub to_transports: Table<PeerId, T>,
    pub established_relay_connection: Table<PeerId, Table<ConnectionId, ()>>,
    pub connecting_relay: Table<PeerId, ()>,
    pub wait_connection_transport_to_behaviour_events: Table<
        PeerId,
        Vec<TransportToBehaviourEvent<O, L>>,
    >,
    pub pending_transport_to_behaviour_events: VecDeque<TransportToBehaviourEvent<O, L>>,
}

impl<S, O, L, T, D> View for Behaviour<S, O, L, T, D> {
    type V = State<S, O, L, T, D>;

    open spec fn view(&self) -> State<S, O, L, T, D> {
        State {
            peer_id: self.peer_id,
            listeners: self.listeners@,
            new_connections: self.pending_new_connections@,
            actions: self.pending_actions@,
            relays: self.pending_to_transport.keys(),
            to_transport: self.pending_to_transport@.map_values(
                |events: VecDeque<BehaviourToTransportEvent>| events@,
            ),
            transports: self.to_transports@,
            established: self.established_relay_connection@.map_values(
                |connections: Table<ConnectionId, ()>| connections@.dom(),
            ),
            connecting: self.connecting_relay@.dom(),
            waiting: self.wait_connection_transport_to_behaviour_events@.map_values(
                |events: Vec<TransportToBehaviourEvent<O, L>>| events@,
            ),
            released: self.pending_transport_to_behaviour_events@,
        }
    }
}

impl<S, O, L, T, D> Behaviour<S, O, L, T, D> {
    /// Every relay has both a queue and a sender for its transport, a relay without an open
    /// connection does not count as connected, and only events are kept for the swarm.
    pub open spec fn wf(self) -> bool {
        &&& only_events(self.pending_actions@)
        &&& self.listeners.wf()
        &&& self.pending_to_transport.wf()
        &&& self.to_transports.wf()
        &&& self.pending_to_transport.keys() == self.to_transports.keys()
        &&& self.established_relay_connection.wf()
        &&& forall|relay: Seq<u8>| #[trigger]
            self.established_relay_connection@.contains_key(relay) ==> {
                &&& self.established_relay_connection@[relay].wf()
                &&& self.established_relay_connection@[relay].keys().len() > 0
            }
        &&& self.connecting_relay.wf()
        &&& self.wait_connection_transport_to_behaviour_events.wf()
    }

    /// Goes on with the next event for a transport, or ends the poll.
    fn next_transport(&mut self, from: usize) -> (step: PollStep<S, O, D>)
        requires
            old(self).wf(),
            from <= old(self)@.relays.len(),
        ensures
            final(self).wf(),
            (final(self)@, step) == old(self)@.next_transport(from as int),
    {
        let ghost before = self@;
        let mut at: usize = from;
        while at < self.pending_to_transport.len()
            invariant
                self.wf(),
                before == old(self)@,
                self@ == before,
                at <= before.relays.len(),
                before.first_untold(from as int) == before.first_untold(at as int),
            decreases before.relays.len() - at,
        {
            proof {
                self.pending_to_transport.lemma_at(at as int);
            }
            let ghost relay = before.relays[at as int];
            let ghost untold = before.to_transport[relay];
            let events = self.pending_to_transport.value_mut(at);
            assert(events@ == untold);
            if let Some(event) = events.pop_front() {
                assert(self@ =~= before.next_transport(from as int).0);
                return PollStep::PollTransport { at, event };
            }
            assert(self@ =~= before);
            at = at + 1;
        }
        match self.pending_actions.pop_front() {
            Some(action) => {
                assert(self@ =~= before.next_transport(from as int).0);
                PollStep::Done(Polled::Ready(action))
            },
            None => PollStep::Done(Polled::Pending),
        }
    }

    /// Goes on with the next connection, or with the transports.
    fn next_connection(&mut self) -> (step: PollStep<S, O, D>)
        requires
            old(self).wf(),
        ensures
            final(self).wf(),
            (final(self)@, step) == old(self)@.next_connection(),
    {
        let ghost before = self@;
        match self.pending_new_connections.pop_front() {
            Some(new_connection) => {
                assert(self@ =~= before.next_connection().0);
                match self.listeners.get(&new_connection.listen_addr) {
                    Some(listener) => PollStep::PollListener {
                        new_connection,
                        listener_id: listener.listener_id,
                    },
                    None => PollStep::Done(
                        Polled::Ready(
                            NetworkBehaviourAction::GenerateEvent(
                                Event::UnexpectedConnection {
                                    listen_addr: new_connection.listen_addr,
                                },
                            ),
                        ),
                    ),
                }
            },
            None => self.next_transport(0),
        }
    }

    /// Hands a request to the handler of its relay.
    fn begin(&mut self, event: TransportToBehaviourEvent<O, L>) -> (step: PollStep<S, O, D>)
        requires
            old(self).wf(),
        ensures
            final(self).wf(),
            (final(self)@, step) == old(self)@.begin(event),
    {
        let ghost before = self@;
        match event {
            TransportToBehaviourEvent::Dial {
                dst_peer_id,
                dst_addr,
                relay_addr: _,
                relay_peer_id,
                connection_sender,
            } => PollStep::Done(
                Polled::Ready(
                    NetworkBehaviourAction::NotifyHandler {
                        peer_id: relay_peer_id,
                        handler: NotifyHandler::Any,
                        event: ConnectionHandlerInEvent::Dial {
                            dst_peer_id,
                            dst_addr,
                            connection_sender,
                        },
                    },
                ),
            ),
            TransportToBehaviourEvent::Listen {
                listener_id,
                local_peer_id,
                local_addr,
                relay_peer_id,
                relay_addr: _,
                connection_sender,
            } => {
                let _ = self.listeners.insert(
                    local_addr.clone(),
                    ListenerSenderWithId { listener_id, sender: connection_sender },
                );
                assert(self@ =~= before.begin(event).0);
                PollStep::Done(
                    Polled::Ready(
                        NetworkBehaviourAction::NotifyHandler {
                            peer_id: relay_peer_id,
                            handler: NotifyHandler::Any,
                            event: ConnectionHandlerInEvent::Listen {
                                listener_id,
                                local_peer_id,
                                local_addr,
                            },
                        },
                    ),
                )
            },
        }
    }

    /// Begins a poll with what the transports sent: `None` if nothing came.
    pub fn poll(&mut self, received: Option<TransportToBehaviourEvent<O, L>>) -> (step: PollStep<
        S,
        O,
        D,
    >)
        requires
            old(self).wf(),
        ensures
            final(self).wf(),
            (final(self)@, step) == old(self)@.poll(received),
    {
        let ghost before = self@;
        match received {
            Some(event) => {
                let relay_peer_id = event.relay_peer_id();
                let relay_addr = event.relay_addr();
                // a relay without a connection has to be dialed first
                if self.established_relay_connection.contains(&relay_peer_id) {
                    return self.begin(event);
                }
                let ghost relay = relay_peer_id@;
                let ghost waits = before.waiting_for(relay).push(event);
                if let Some(events) = self.wait_connection_transport_to_behaviour_events.get_mut(
                    &relay_peer_id,
                ) {
                    events.push(event);
                    assert(events@ == waits);
                } else {
                    let mut events: Vec<TransportToBehaviourEvent<O, L>> = Vec::new();
                    events.push(event);
                    assert(events@ =~= waits);
                    let _ = self.wait_connection_transport_to_behaviour_events.insert(
                        relay_peer_id.clone(),
                        events,
                    );
                }
                assert(self@ =~= State { waiting: before.waiting.insert(relay, waits), ..before });
                if self.connecting_relay.contains(&relay_peer_id) {
                    return self.next_connection();
                }
                let _ = self.connecting_relay.insert(relay_peer_id.clone(), ());
                let handler = self.new_handler();
                assert(self@ =~= before.poll(received).0);
                PollStep::Done(
                    Polled::Ready(
                        NetworkBehaviourAction::Dial {
                            peer_id: relay_peer_id,
                            address: relay_addr,
                            handler,
                        },
                    ),
                )
            },
            None => {
                match self.pending_transport_to_behaviour_events.pop_front() {
                    Some(event) => {
                        assert(self@ =~= State { released: before.released.drop_first(), ..before });
                        self.begin(event)
                    },
                    None => self.next_connection(),
                }
            },
        }
    }

    /// A handler for a connection that is being made.
    pub fn new_handler(&self) -> (r: IntoConnectionHandler)
        ensures
            r == (IntoConnectionHandler { keepalive: KeepAlive::Yes, local_peer_id: self.peer_id }),
    {
        IntoConnectionHandler::new(self.peer_id.clone())
    }

    /// Goes on when the sender of a listener was polled for room.
    pub fn listener_ready(
        &mut self,
        new_connection: PendingNewConnection<S>,
        listener_id: ListenerId,
        readiness: Readiness<D>,
    ) -> (step: PollStep<S, O, D>)
        requires
            old(self).wf(),
        ensures
            final(self).wf(),
            (final(self)@, step) == old(self)@.listener_ready(
                new_connection,
                listener_id,
                readiness,
            ),
    {
        let ghost before = self@;
        match readiness {
            Readiness::Pending => {
                // wait for the next poll
                self.pending_new_connections.push_front(new_connection);
                assert(self@ =~= State {
                    new_connections: seq![new_connection] + before.new_connections,
                    ..before
                });
                self.next_transport(0)
            },
            Readiness::Failed(err) => PollStep::Done(
                Polled::Ready(
                    NetworkBehaviourAction::GenerateEvent(
                        Event::UnexpectedListenerClosed {
                            listen_addr: new_connection.listen_addr,
                            err,
                        },
                    ),
                ),
            ),
            Readiness::Ready => PollStep::SendConnection {
                delivery: Delivery {
                    listen_addr: new_connection.listen_addr,
                    relay_peer_id: new_connection.relay_peer_id,
                    listener_id,
                },
                connection: new_connection.connection,
            },
        }
    }

    /// Goes on when a connection was sent to a listener.
    pub fn listener_sent(&mut self, delivery: Delivery, sent: Result<(), D>) -> (step: PollStep<
        S,
        O,
        D,
    >)
        requires
            old(self).wf(),
        ensures
            final(self).wf(),
            (final(self)@, step) == old(self)@.listener_sent(delivery, sent),
    {
        match sent {
            Err(err) => PollStep::Done(
                Polled::Ready(
                    NetworkBehaviourAction::GenerateEvent(
                        Event::UnexpectedListenerClosed { listen_addr: delivery.listen_addr, err },
                    ),
                ),
            ),
            Ok(_) => PollStep::FlushListener { delivery },
        }
    }

    /// Goes on when the sender of a listener was flushed. The relay that the connection came through
    /// has a transport.
    pub fn listener_flushed(&mut self, delivery: Delivery, flushed: Result<(), D>) -> (step:
        PollStep<S, O, D>)
        requires
            old(self).wf(),
            flushed is Ok ==> old(self)@.to_transport.contains_key(delivery.relay_peer_id@),
        ensures
            final(self).wf(),
            (final(self)@, step) == old(self)@.listener_flushed(delivery, flushed),
    {
        match flushed {
            Err(err) => PollStep::Done(
                Polled::Ready(
                    NetworkBehaviourAction::GenerateEvent(
                        Event::UnexpectedListenerClosed { listen_addr: delivery.listen_addr, err },
                    ),
                ),
            ),
            Ok(_) => {
                let _ = self.tell(
                    &delivery.relay_peer_id,
                    BehaviourToTransportEvent::ListenSuccess {
                        listener_id: delivery.listener_id,
                        listen_addr: delivery.listen_addr,
                    },
                );
                self.next_connection()
            },
        }
    }

    /// Queues an event for the transport of a relay, and says whether there is one.
    fn tell(&mut self, relay_peer_id: &PeerId, event: BehaviourToTransportEvent) -> (told: bool)
        requires
            old(self).wf(),
        ensures
            final(self).wf(),
            final(self)@ == old(self)@.tell(relay_peer_id@, event),
            told == old(self)@.to_transport.contains_key(relay_peer_id@),
    {
        let ghost before = self@;
        let ghost relay = relay_peer_id@;
        if let Some(events) = self.pending_to_transport.get_mut(relay_peer_id) {
            assert(events@ == before.to_transport[relay]);
            events.push_back(event);
            assert(self@ =~= before.tell(relay, event));
            true
        } else {
            assert(self@ =~= before);
            false
        }
    }

    /// Whether the transport of a relay can be told something.
    pub fn has_transport(&self, relay_peer_id: &PeerId) -> (r: bool)
        ensures
            r == self@.to_transport.contains_key(relay_peer_id@),
    {
        self.pending_to_transport.contains(relay_peer_id)
    }

    /// Goes on when the sender of the transport at a position was polled for room.
    pub fn transport_ready(
        &mut self,
        at: usize,
        event: BehaviourToTransportEvent,
        readiness: Readiness<()>,
    ) -> (step: PollStep<S, O, D>)
        requires
            old(self).wf(),
            at < old(self)@.relays.len(),
        ensures
            final(self).wf(),
            (final(self)@, step) == old(self)@.transport_ready(at as int, event, readiness),
    {
        let ghost before = self@;
        let ghost relay = before.relays[at as int];
        let count: usize = self.pending_to_transport.len();
        assert(at < count);
        proof {
            self.pending_to_transport.lemma_at(at as int);
        }
        match readiness {
            Readiness::Pending => {
                // wait for the next poll
                let events = self.pending_to_transport.value_mut(at);
                assert(events@ == before.to_transport[relay]);
                events.push_front(event);
                assert(self@ =~= State {
                    to_transport: before.to_transport.insert(
                        relay,
                        seq![event] + before.to_transport[relay],
                    ),
                    ..before
                });
                self.next_transport(at + 1)
            },
            Readiness::Failed(_) => {
                // a relay without a transport is forgotten
                let relay_peer_id = self.pending_to_transport.key(at).clone();
                let _ = self.pending_to_transport.remove(&relay_peer_id);
                let _ = self.to_transports.remove(&relay_peer_id);
                assert(self@ =~= before.transport_ready(at as int, event, readiness).0);
                PollStep::Done(
                    Polled::Ready(
                        NetworkBehaviourAction::GenerateEvent(Event::UnexpectedTransportDropped),
                    ),
                )
            },
            Readiness::Ready => PollStep::SendEvent { at, event },
        }
    }

    /// Goes on when an event was sent to the transport at a position.
    pub fn transport_sent(&mut self, at: usize, sent: bool) -> (step: PollStep<S, O, D>)
        requires
            old(self).wf(),
            at < old(self)@.relays.len(),
        ensures
            final(self).wf(),
            (final(self)@, step) == old(self)@.transport_sent(at as int, sent),
    {
        if sent {
            self.next_transport(at)
        } else {
            PollStep::Done(
                Polled::Ready(
                    NetworkBehaviourAction::GenerateEvent(Event::UnexpectedTransportDropped),
                ),
            )
        }
    }

    /// A behaviour that has done nothing yet, with a sender for the transport of each relay.
    pub fn new(peer_id: PeerId, to_transports: Table<PeerId, T>) -> (r: Self)
        requires
            to_transports.wf(),
        ensures
            r.wf(),
            r@ == (State::<S, O, L, T, D> {
                peer_id,
                listeners: Map::empty(),
                new_connections: Seq::empty(),
                actions: Seq::empty(),
                relays: to_transports.keys(),
                to_transport: Map::new(
                    |relay: Seq<u8>| to_transports@.contains_key(relay),
                    |relay: Seq<u8>| Seq::empty(),
                ),
                transports: to_transports@,
                established: Map::empty(),
                connecting: Set::empty(),
                waiting: Map::empty(),
                released: Seq::empty(),
            }),
    {
        let mut pending_to_transport: Table<PeerId, VecDeque<BehaviourToTransportEvent>> =
            Table::new();
        let mut i: usize = 0;
        while i < to_transports.len()
            invariant
                to_transports.wf(),
                i <= to_transports.keys().len(),
                pending_to_transport.wf(),
                pending_to_transport.keys() == to_transports.keys().take(i as int),
                forall|relay: Seq<u8>| #[trigger]
                    pending_to_transport@.contains_key(relay)
                        ==> pending_to_transport@[relay]@.len() == 0,
            decreases to_transports.keys().len() - i,
        {
            let relay_peer_id = to_transports.key(i).clone();
            let ghost relay = to_transports.keys()[i as int];
            assert(!pending_to_transport@.contains_key(relay));
            let _ = pending_to_transport.insert(relay_peer_id, VecDeque::new());
            assert(to_transports.keys().take(i + 1) =~= to_transports.keys().take(i as int).push(
                relay,
            ));
            i = i + 1;
        }
        assert(to_transports.keys().take(i as int) =~= to_transports.keys());
        let r = Behaviour {
            peer_id,
            listeners: Table::new(),
            pending_new_connections: VecDeque::new(),
            pending_actions: VecDeque::new(),
            pending_to_transport,
            to_transports,
            established_relay_connection: Table::new(),
            connecting_relay: Table::new(),
            wait_connection_transport_to_behaviour_events: Table::new(),
            pending_transport_to_behaviour_events: VecDeque::new(),
        };
        proof {
            assert forall|relay: Seq<u8>| #[trigger]
                r@.to_transport.contains_key(relay) implies r@.to_transport[relay]
                == Seq::<BehaviourToTransportEvent>::empty() by {
                assert(pending_to_transport@.contains_key(relay));
            }
            assert(r@.to_transport =~= Map::new(
                |relay: Seq<u8>| to_transports@.contains_key(relay),
                |relay: Seq<u8>| Seq::empty(),
            ));
            assert(r@.connecting =~= Set::empty());
            assert(r@.established =~= Map::empty());
            assert(r@.waiting =~= Map::empty());
        }
        r
    }

    /// Takes an event of the swarm.
    pub fn on_swarm_event(&mut self, event: FromSwarm) -> (outcome: SwarmOutcome<S, O>)
        requires
            old(self).wf(),
        ensures
            final(self).wf(),
            final(self)@ == old(self)@.on_swarm_event(event),
            outcome.replies@ == old(self)@.swarm_replies(event),
            outcome.wake == old(self)@.swarm_wakes(event),
    {
        match event {
            FromSwarm::ConnectionEstablished { peer_id, connection_id } => {
                let wake = self.on_connection_established(peer_id, connection_id);
                SwarmOutcome { replies: Vec::new(), wake }
            },
            FromSwarm::ConnectionClosed { peer_id, connection_id, remote_addr } => {
                let _ = self.tell(
                    &peer_id,
                    BehaviourToTransportEvent::PeerClosed {
                        peer_id: peer_id.clone(),
                        peer_addr: remote_addr,
                        connection_id,
                    },
                );
                self.on_connection_closed(&peer_id, connection_id);
                SwarmOutcome { replies: Vec::new(), wake: true }
            },
            FromSwarm::DialFailure { peer_id: Some(peer_id), error } => {
                self.on_dial_failed(&peer_id, error)
            },
            _ => SwarmOutcome { replies: Vec::new(), wake: false },
        }
    }

    fn on_connection_established(&mut self, peer_id: PeerId, connection_id: ConnectionId) -> (wake:
        bool)
        requires
            old(self).wf(),
        ensures
            final(self).wf(),
            final(self)@ == old(self)@.connection_established(peer_id@, connection_id),
            wake == (old(self)@.connecting.contains(peer_id@) && old(self)@.waiting.contains_key(
                peer_id@,
            )),
    {
        let ghost before = self@;
        let ghost after = before.connection_established(peer_id@, connection_id);
        if self.connecting_relay.remove(&peer_id).is_none() {
            assert(self@ =~= before);
            return false;
        }
        assert(self@ =~= State { connecting: before.connecting.remove(peer_id@), ..before });
        if let Some(connections) = self.established_relay_connection.get_mut(&peer_id) {
            let ghost open = connections@.dom();
            let _ = connections.insert(connection_id, ());
            assert(connections@.dom() =~= open.insert(connection_id));
        } else {
            let mut connections: Table<ConnectionId, ()> = Table::new();
            let _ = connections.insert(connection_id, ());
            assert(connections@.dom() =~= Set::empty().insert(connection_id));
            let _ = self.established_relay_connection.insert(peer_id.clone(), connections);
        }
        assert(self@ =~= State {
            connecting: after.connecting,
            established: after.established,
            ..before
        });
        if let Some(events) = self.wait_connection_transport_to_behaviour_events.remove(&peer_id) {
            let mut events = events;
            let ghost all = events@;
            let ghost released = before.released;
            while events.len() > 0
                invariant
                    self.wf(),
                    self@ == (State {
                        waiting: after.waiting,
                        released: released + all.take(all.len() - events@.len()),
                        ..after
                    }),
                    events@ == all.skip(all.len() - events@.len()),
                    events@.len() <= all.len(),
                decreases events@.len(),
            {
                let ghost n = all.len() - events@.len();
                let event = events.remove(0);
                self.pending_transport_to_behaviour_events.push_back(event);
                assert(released + all.take(n + 1) =~= (released + all.take(n)).push(event));
            }
            assert(all.take(all.len() as int) =~= all);
            assert(self@ =~= after);
            true
        } else {
            assert(self@ =~= after);
            false
        }
    }

    fn on_connection_closed(&mut self, peer_id: &PeerId, connection_id: ConnectionId)
        requires
            old(self).wf(),
        ensures
            final(self).wf(),
            final(self)@ == old(self)@.connection_closed(peer_id@, connection_id),
    {
        let ghost before = self@;
        let ghost relay = peer_id@;
        let ghost after = before.connection_closed(relay, connection_id);
        if let Some(connections) = self.established_relay_connection.remove(peer_id) {
            let mut connections = connections;
            let ghost open = connections@.dom();
            let _ = connections.remove(&connection_id);
            assert(connections@.dom() =~= open.remove(connection_id));
            if connections.len() > 0 {
                assert(connections@.dom().contains(connections.keys()[0]));
                let _ = self.established_relay_connection.insert(peer_id.clone(), connections);
            } else {
                assert(connections@.dom() =~= Set::empty());
            }
            assert(self@ =~= after);
        } else {
            assert(self@ =~= before);
        }
    }

    fn on_dial_failed(&mut self, peer_id: &PeerId, error: String) -> (outcome: SwarmOutcome<S, O>)
        requires
            old(self).wf(),
        ensures
            final(self).wf(),
            final(self)@ == old(self)@.dial_failed(peer_id@, error),
            outcome.replies@ == if old(self)@.to_transport.contains_key(peer_id@) {
                relay_replies::<S, O, L>(old(self)@.waiting_for(peer_id@), error)
            } else {
                Seq::empty()
            },
            outcome.wake == old(self)@.waiting.contains_key(peer_id@),
    {
        let ghost before = self@;
        let ghost relay = peer_id@;
        let mut replies: Vec<DialReply<S, O>> = Vec::new();
        if let Some(events) = self.wait_connection_transport_to_behaviour_events.remove(peer_id) {
            assert(self@ =~= State { waiting: before.waiting.remove(relay), ..before });
            if self.has_transport(peer_id) {
                let mut events = events;
                let ghost all = events@;
                let ghost told = before.to_transport[relay];
                assert(relay_failures(all.take(0), error) =~= Seq::empty());
                assert(told + relay_failures(all.take(0), error) =~= told);
                assert(self@ =~= State {
                    to_transport: before.to_transport.insert(
                        relay,
                        told + relay_failures(all.take(0), error),
                    ),
                    ..self@
                });
                while events.len() > 0
                    invariant
                        self.wf(),
                        relay == peer_id@,
                        self@ == (State {
                            waiting: before.waiting.remove(relay),
                            to_transport: before.to_transport.insert(
                                relay,
                                told + relay_failures(all.take(all.len() - events@.len()), error),
                            ),
                            ..before
                        }),
                        replies@ == relay_replies::<S, O, L>(
                            all.take(all.len() - events@.len()),
                            error,
                        ),
                        events@ == all.skip(all.len() - events@.len()),
                        events@.len() <= all.len(),
                    decreases events@.len(),
                {
                    let ghost n = all.len() - events@.len();
                    let ghost current = self@;
                    let event = events.remove(0);
                    proof {
                        assert(event == all[n]);
                        assert(all.take(n + 1).drop_last() =~= all.take(n));
                        assert(all.take(n + 1).last() == event);
                        assert(relay_failures(all.take(n + 1), error) =~= relay_failures(
                            all.take(n),
                            error,
                        ).push(relay_failure(event, error)));
                        assert(told + relay_failures(all.take(n + 1), error) =~= (told
                            + relay_failures(all.take(n), error)).push(
                            relay_failure(event, error),
                        ));
                    }
                    match event {
                        TransportToBehaviourEvent::Dial {
                            dst_peer_id,
                            dst_addr,
                            relay_addr: _,
                            relay_peer_id: _,
                            connection_sender,
                        } => {
                            replies.push(
                                DialReply {
                                    sender: connection_sender,
                                    result: Err(
                                        IoError::Caused {
                                            kind: IoErrorKind::Other,
                                            cause: Cause::RelayDialFailed {
                                                dst_peer_id: dst_peer_id.clone(),
                                                dst_addr: dst_addr.clone(),
                                                error: error.clone(),
                                            },
                                        },
                                    ),
                                },
                            );
                            let _ = self.tell(
                                peer_id,
                                BehaviourToTransportEvent::DialFailed {
                                    err: IoError::Caused {
                                        kind: IoErrorKind::Other,
                                        cause: Cause::RelayDialFailed {
                                            dst_peer_id: dst_peer_id.clone(),
                                            dst_addr: dst_addr.clone(),
                                            error: error.clone(),
                                        },
                                    },
                                    dst_peer_id,
                                    dst_addr,
                                },
                            );
                        },
                        TransportToBehaviourEvent::Listen {
                            listener_id,
                            local_peer_id,
                            local_addr,
                            relay_peer_id: _,
                            relay_addr: _,
                            connection_sender: _,
                        } => {
                            let _ = self.tell(
                                peer_id,
                                BehaviourToTransportEvent::ListenFailed {
                                    err: IoError::Caused {
                                        kind: IoErrorKind::Other,
                                        cause: Cause::RelayListenFailed {
                                            local_peer_id,
                                            local_addr: local_addr.clone(),
                                            error: error.clone(),
                                        },
                                    },
                                    listener_id,
                                    local_addr,
                                },
                            );
                        },
                    }
                    assert(self@ == current.tell(relay, relay_failure(event, error)));
                    assert(self@ =~= State {
                        waiting: before.waiting.remove(relay),
                        to_transport: before.to_transport.insert(
                            relay,
                            told + relay_failures(all.take(n + 1), error),
                        ),
                        ..before
                    });
                }
                assert(all.take(all.len() as int) =~= all);
            }
            assert(self@ =~= before.dial_failed(relay, error));
            SwarmOutcome { replies, wake: true }
        } else {
            assert(self@ =~= before.dial_failed(relay, error));
            SwarmOutcome { replies, wake: false }
        }
    }

    /// Takes an event of a handler.
    pub fn on_connection_handler_event(&mut self, event: ConnectionHandlerOutEvent<S, O, D>) -> (
        outcome: HandlerOutcome<S, O>)
        requires
            old(self).wf(),
        ensures
            final(self).wf(),
            final(self)@ == old(self)@.on_connection_handler_event(event),
            outcome.reply == handler_reply(event),
            outcome.wake == outcome.reply is None,
    {
        let ghost before = self@;
        match event {
            ConnectionHandlerOutEvent::NewConnection { relay_peer_id, listen_addr, connection } => {
                self.pending_new_connections.push_back(
                    PendingNewConnection { listen_addr, relay_peer_id, connection },
                );
                assert(self@ =~= before.on_connection_handler_event(event));
            },
            ConnectionHandlerOutEvent::Error(err) => {
                self.pending_actions.push_back(
                    NetworkBehaviourAction::GenerateEvent(Event::OtherError(err)),
                );
                assert(self@ =~= before.on_connection_handler_event(event));
            },
            ConnectionHandlerOutEvent::DialSuccess { relay_peer_id: _, connection, sender } => {
                return HandlerOutcome {
                    reply: Some(DialReply { sender, result: Ok(connection) }),
                    wake: false,
                };
            },
            ConnectionHandlerOutEvent::ListenSuccess {
                relay_peer_id,
                listener_id,
                local_peer_id: _,
                listen_addr,
            } => {
                let _ = self.tell(
                    &relay_peer_id,
                    BehaviourToTransportEvent::ListenSuccess { listener_id, listen_addr },
                );
            },
            ConnectionHandlerOutEvent::DialFailed { err, relay_peer_id: _, sender } => {
                return HandlerOutcome {
                    reply: Some(DialReply { sender, result: Err(err) }),
                    wake: false,
                };
            },
            ConnectionHandlerOutEvent::ListenFailed {
                err,
                relay_peer_id,
                listener_id,
                local_peer_id: _,
                listen_addr,
            } => {
                let _ = self.tell(
                    &relay_peer_id,
                    BehaviourToTransportEvent::ListenFailed {
                        err,
                        listener_id,
                        local_addr: listen_addr,
                    },
                );
            },
        }
        HandlerOutcome { reply: None, wake: true }
    }

    /// The sender of the listener on an address.
    pub fn listener_sender(&mut self, listen_addr: &Multiaddr) -> (r: Option<&mut L>)
        requires
            old(self).wf(),
        ensures
            final(self).wf(),
            match r {
                Some(sender) => {
                    &&& old(self)@.listeners.contains_key(listen_addr@)
                    &&& *sender == old(self)@.listeners[listen_addr@].sender
                    &&& final(self)@ == (State {
                        listeners: old(self)@.listeners.insert(
                            listen_addr@,
                            ListenerSenderWithId {
                                listener_id: old(self)@.listeners[listen_addr@].listener_id,
                                sender: *final(sender),
                            },
                        ),
                        ..old(self)@
                    })
                },
                None => !old(self)@.listeners.contains_key(listen_addr@) && final(self)@ == old(
                    self,
                )@,
            },
    {
        match self.listeners.get_mut(listen_addr) {
            Some(listener) => Some(&mut listener.sender),
            None => None,
        }
    }

    /// The sender for the transport at a position.
    pub fn transport_sender(&mut self, at: usize) -> (r: &mut T)
        requires
            old(self).wf(),
            at < old(self)@.relays.len(),
        ensures
            final(self).wf(),
            *r == old(self)@.transports[old(self)@.relays[at as int]],
            final(self)@ == (State {
                transports: old(self)@.transports.insert(old(self)@.relays[at as int], *final(r)),
                ..old(self)@
            }),
    {
        self.to_transports.value_mut(at)
    }
}

} // verus!
