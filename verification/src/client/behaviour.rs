//! The behaviour of a client: it hands the requests of the transport to the connection handler, and
//! the connections of the relay to the listeners.

use std::collections::VecDeque;
use std::sync::Arc;

use libp2p_core::transport::ListenerId;
use vstd::prelude::*;

use super::event::{
    BehaviourToTransportEvent, ConnectionHandlerInEvent, ConnectionHandlerOutEvent, Event,
    TransportToBehaviourEvent,
};
use super::handler::IntoConnectionHandler;
use crate::address::{Multiaddr, PeerId};
use crate::connection::Connection;
use crate::error::IoError;
use crate::swarm::{
    only_events, FromSwarm, NetworkBehaviourAction, NotifyHandler, Polled, Readiness, Received,
};
use crate::table::Table;

verus! {

/// What the behaviour asks of the swarm.
pub type Action<O, D> = NetworkBehaviourAction<
    Event<D>,
    ConnectionHandlerInEvent<O>,
    IntoConnectionHandler,
>;

/// A connection of the relay that no listener has got yet.
#[derive(Debug)]
pub struct PendingNewConnection<S> {
    pub listen_addr: Multiaddr,
    pub connection: Connection<S>,
}

/// A listener, and the sender of its connections.
#[derive(Debug)]
pub struct ListenerSenderWithId<L> {
    pub listener_id: ListenerId,
    pub sender: L,
}

/// A connection on its way to a listener.
#[derive(Debug)]
pub struct Delivery {
    pub listen_addr: Multiaddr,
    pub listener_id: ListenerId,
}

/// What is to be sent to a dialer, and the sender to use.
#[derive(Debug)]
pub struct DialReply<S, O> {
    pub sender: O,
    pub result: Result<Connection<S>, IoError>,
}

/// What has to be done next in a poll of the behaviour. All but the last wait for an answer.
#[derive(Debug)]
pub enum PollStep<S, O, D> {
    /// Poll the sender of the listener for room; [`Client::listener_ready`] takes the answer.
    PollListener { new_connection: PendingNewConnection<S>, listener_id: ListenerId },
    /// Send the connection to the listener; [`Client::listener_sent`] takes the answer.
    SendConnection { delivery: Delivery, connection: Connection<S> },
    /// Poll the sender of the transport for room; [`Client::transport_ready`] takes the answer.
    PollTransport { event: BehaviourToTransportEvent },
    /// Send the event to the transport; [`Client::transport_sent`] takes the answer.
    SendEvent { event: BehaviourToTransportEvent },
    /// Flush the sender of the transport; [`Client::transport_flushed`] takes the answer.
    FlushTransport,
    /// The poll is over.
    Done(Polled<Action<O, D>>),
}

/// What the behaviour knows, as mathematical values. Addresses are their bytes.
#[verifier::ext_equal]
pub struct State<S, O, L, D> {
    pub peer_id: PeerId,
    /// The listeners, by the address that they listen on.
    pub listeners: Map<Seq<u8>, ListenerSenderWithId<L>>,
    /// The connections that no listener has got yet.
    pub new_connections: Seq<PendingNewConnection<S>>,
    /// What is still to be asked of the swarm.
    pub actions: Seq<Action<O, D>>,
    /// What the transport is still to be told.
    pub to_transport: Seq<BehaviourToTransportEvent>,
}

impl<S, O, L, D> State<S, O, L, D> {
    /// Asks the swarm for something, at once.
    pub open spec fn ask(self, action: Action<O, D>) -> (Self, PollStep<S, O, D>) {
        (self, PollStep::Done(Polled::Ready(action)))
    }

    /// Tells the swarm that the transport is gone.
    pub open spec fn transport_dropped(self) -> (Self, PollStep<S, O, D>) {
        self.ask(NetworkBehaviourAction::GenerateEvent(Event::UnexpectedTransportDropped))
    }

    /// Begins a poll with what the transport sent. As long as the transport may still send
    /// something, a poll does nothing else.
    pub open spec fn poll(self, received: Received<TransportToBehaviourEvent<O, L>>) -> (
        Self,
        PollStep<S, O, D>,
    ) {
        match received {
            Received::Pending => (self, PollStep::Done(Polled::Pending)),
            Received::Item(event) => self.begin(event),
            Received::Closed => self.next_connection(),
        }
    }

    /// Hands a request to a handler. A listener is remembered.
    pub open spec fn begin(self, event: TransportToBehaviourEvent<O, L>) -> (
        Self,
        PollStep<S, O, D>,
    ) {
        match event {
            TransportToBehaviourEvent::Dial { dst_addr, relay_addr: _, connection_sender } => {
                self.ask(
                    NetworkBehaviourAction::NotifyHandler {
                        peer_id: self.peer_id,
                        handler: NotifyHandler::Any,
                        event: ConnectionHandlerInEvent::Dial { dst_addr, connection_sender },
                    },
                )
            },
            TransportToBehaviourEvent::Listen {
                listener_id,
                local_peer_id,
                local_addr,
                relay_peer_id,
                relay_addr: _,
                connection_sender,
            } => State {
                listeners: self.listeners.insert(
                    local_addr@,
                    ListenerSenderWithId { listener_id, sender: connection_sender },
                ),
                ..self
            }.ask(
                NetworkBehaviourAction::NotifyHandler {
                    peer_id: relay_peer_id,
                    handler: NotifyHandler::Any,
                    event: ConnectionHandlerInEvent::Listen {
                        listener_id,
                        local_peer_id,
                        local_addr,
                    },
                },
            ),
        }
    }

    /// Goes on with the next connection, or, when there is none, with the transport.
    pub open spec fn next_connection(self) -> (Self, PollStep<S, O, D>) {
        if self.new_connections.len() == 0 {
            self.next_event()
        } else {
            let new_connection = self.new_connections[0];
            let rest = State { new_connections: self.new_connections.drop_first(), ..self };
            if self.listeners.contains_key(new_connection.listen_addr@) {
                (
                    rest,
                    PollStep::PollListener {
                        new_connection,
                        listener_id: self.listeners[new_connection.listen_addr@].listener_id,
                    },
                )
            } else {
                rest.ask(
                    NetworkBehaviourAction::GenerateEvent(
                        Event::UnexpectedConnection { listen_addr: new_connection.listen_addr },
                    ),
                )
            }
        }
    }

    pub open spec fn listener_ready(
        self,
        new_connection: PendingNewConnection<S>,
        listener_id: ListenerId,
        readiness: Readiness<D>,
    ) -> (Self, PollStep<S, O, D>) {
        match readiness {
            Readiness::Pending => State {
                new_connections: seq![new_connection] + self.new_connections,
                ..self
            }.next_event(),
            Readiness::Failed(err) => self.ask(
                NetworkBehaviourAction::GenerateEvent(
                    Event::UnexpectedListenerClosed {
                        listen_addr: new_connection.listen_addr,
                        err,
                    },
                ),
            ),
            Readiness::Ready => (
                self,
                PollStep::SendConnection {
                    delivery: Delivery { listen_addr: new_connection.listen_addr, listener_id },
                    connection: new_connection.connection,
                },
            ),
        }
    }

    pub open spec fn listener_sent(self, delivery: Delivery, sent: Result<(), D>) -> (
        Self,
        PollStep<S, O, D>,
    ) {
        match sent {
            Err(err) => self.ask(
                NetworkBehaviourAction::GenerateEvent(
                    Event::UnexpectedListenerClosed { listen_addr: delivery.listen_addr, err },
                ),
            ),
            Ok(_) => self.tell(
                BehaviourToTransportEvent::ListenSuccess {
                    listener_id: delivery.listener_id,
                    local_addr: delivery.listen_addr,
                },
            ).next_connection(),
        }
    }

    /// Queues an event for the transport.
    pub open spec fn tell(self, event: BehaviourToTransportEvent) -> Self {
        State { to_transport: self.to_transport.push(event), ..self }
    }

    /// Goes on with the next event for the transport, or, when there is none, with flushing.
    pub open spec fn next_event(self) -> (Self, PollStep<S, O, D>) {
        if self.to_transport.len() > 0 {
            (
                State { to_transport: self.to_transport.drop_first(), ..self },
                PollStep::PollTransport { event: self.to_transport[0] },
            )
        } else {
            (self, PollStep::FlushTransport)
        }
    }

    pub open spec fn transport_ready(
        self,
        event: BehaviourToTransportEvent,
        readiness: Readiness<()>,
    ) -> (Self, PollStep<S, O, D>) {
        match readiness {
            Readiness::Pending => (
                State { to_transport: seq![event] + self.to_transport, ..self },
                PollStep::FlushTransport,
            ),
            Readiness::Failed(_) => self.transport_dropped(),
            Readiness::Ready => (self, PollStep::SendEvent { event }),
        }
    }

    pub open spec fn transport_sent(self, sent: bool) -> (Self, PollStep<S, O, D>) {
        if sent {
            self.next_event()
        } else {
            self.transport_dropped()
        }
    }

    /// Ends the poll with what is still to be asked of the swarm.
    pub open spec fn transport_flushed(self, flushed: bool) -> (Self, PollStep<S, O, D>) {
        if !flushed {
            self.transport_dropped()
        } else if self.actions.len() > 0 {
            State { actions: self.actions.drop_first(), ..self }.ask(self.actions[0])
        } else {
            (self, PollStep::Done(Polled::Pending))
        }
    }

    /// What comes of an event of a handler. Only a dial that is over goes to its dialer at once.
    pub open spec fn on_connection_handler_event(
        self,
        event: ConnectionHandlerOutEvent<S, O, D>,
    ) -> Self {
        match event {
            ConnectionHandlerOutEvent::NewConnection { listen_addr, connection } => State {
                new_connections: self.new_connections.push(
                    PendingNewConnection { listen_addr, connection },
                ),
                ..self
            },
            ConnectionHandlerOutEvent::Error(err) => State {
                actions: self.actions.push(
                    NetworkBehaviourAction::GenerateEvent(Event::OtherError(err)),
                ),
                ..self
            },
            ConnectionHandlerOutEvent::ListenSuccess { listener_id, local_peer_id: _, listen_addr } => {
                self.tell(
                    BehaviourToTransportEvent::ListenSuccess {
                        listener_id,
                        local_addr: listen_addr,
                    },
                )
            },
            ConnectionHandlerOutEvent::ListenFailed {
                err,
                listener_id,
                local_peer_id: _,
                listen_addr,
            } => self.tell(
                BehaviourToTransportEvent::ListenFailed {
                    err,
                    listener_id,
                    local_addr: listen_addr,
                },
            ),
            ConnectionHandlerOutEvent::DialSuccess { .. } => self,
            ConnectionHandlerOutEvent::DialFailed { .. } => self,
        }
    }
}

/// What a dialer is told of an event of a handler.
pub open spec fn handler_reply<S, O, D>(event: ConnectionHandlerOutEvent<S, O, D>) -> Option<
    DialReply<S, O>,
> {
    match event {
        ConnectionHandlerOutEvent::DialSuccess { connection, sender } => Some(
            DialReply { sender, result: Ok(connection) },
        ),
        ConnectionHandlerOutEvent::DialFailed { err, sender } => Some(
            DialReply { sender, result: Err(err) },
        ),
        _ => None,
    }
}

/// The behaviour of a client. Its connections run over substreams of type `S`; dialed connections
/// go to senders of type `O`, and those of listeners to senders of type `L`. `D` are the errors of
/// channels and handlers.
#[derive(Debug)]
pub struct Client<S, O, L, D> {
    pub peer_id: PeerId,
    pub listeners: Table<Multiaddr, ListenerSenderWithId<L>>,
    pub pending_new_connections: VecDeque<PendingNewConnection<S>>,
    pub pending_actions: VecDeque<Action<O, D>>,
    pub pending_to_transport: VecDeque<BehaviourToTransportEvent>,
}

impl<S, O, L, D> View for Client<S, O, L, D> {
    type V = State<S, O, L, D>;

    open spec fn view(&self) -> State<S, O, L, D> {
        State {
            peer_id: self.peer_id,
            listeners: self.listeners@,
            new_connections: self.pending_new_connections@,
            actions: self.pending_actions@,
            to_transport: self.pending_to_transport@,
        }
    }
}

impl<S, O, L, D> Client<S, O, L, D> {
    /// Only events are kept for the swarm.
    pub open spec fn wf(self) -> bool {
        self.listeners.wf() && only_events(self.pending_actions@)
    }

    /// A behaviour that has done nothing yet.
    pub fn new(peer_id: PeerId) -> (r: Self)
        ensures
            r.wf(),
            r@ == (State::<S, O, L, D> {
                peer_id,
                listeners: Map::empty(),
                new_connections: Seq::empty(),
                actions: Seq::empty(),
                to_transport: Seq::empty(),
            }),
    {
        Client {
            peer_id,
            listeners: Table::new(),
            pending_new_connections: VecDeque::new(),
            pending_actions: VecDeque::new(),
            pending_to_transport: VecDeque::new(),
        }
    }

    /// A handler for a connection that is being made.
    pub fn new_handler(&self, listen_addrs: Arc<dashmap::DashSet<Multiaddr>>) -> (r:
        IntoConnectionHandler)
        ensures
            r.keepalive == crate::swarm::KeepAlive::Yes,
            r.listen_addrs == listen_addrs,
    {
        IntoConnectionHandler::new(listen_addrs)
    }

    /// Takes an event of the swarm, none of which matters to a client.
    pub fn on_swarm_event(&mut self, event: FromSwarm)
        ensures
            *final(self) == *old(self),
    {
        match event {
            FromSwarm::ConnectionEstablished { .. } => {},
            FromSwarm::ConnectionClosed { .. } => {},
            FromSwarm::AddressChange => {},
            FromSwarm::DialFailure { .. } => {},
            FromSwarm::ListenFailure => {},
            FromSwarm::NewListener => {},
            FromSwarm::NewListenAddr => {},
            FromSwarm::ExpiredListenAddr => {},
            FromSwarm::ListenerError => {},
            FromSwarm::ListenerClosed => {},
            FromSwarm::NewExternalAddr => {},
            FromSwarm::ExpiredExternalAddr => {},
        }
    }

    /// Takes an event of a handler, and says what a dialer is to be told.
    pub fn on_connection_handler_event(&mut self, event: ConnectionHandlerOutEvent<S, O, D>) -> (
        reply: Option<DialReply<S, O>>)
        requires
            old(self).wf(),
        ensures
            final(self).wf(),
            final(self)@ == old(self)@.on_connection_handler_event(event),
            reply == handler_reply(event),
    {
        match event {
            ConnectionHandlerOutEvent::NewConnection { listen_addr, connection } => {
                self.pending_new_connections.push_back(
                    PendingNewConnection { listen_addr, connection },
                );
                None
            },
            ConnectionHandlerOutEvent::Error(err) => {
                self.pending_actions.push_back(
                    NetworkBehaviourAction::GenerateEvent(Event::OtherError(err)),
                );
                None
            },
            ConnectionHandlerOutEvent::DialSuccess { connection, sender } => Some(
                DialReply { sender, result: Ok(connection) },
            ),
            ConnectionHandlerOutEvent::DialFailed { err, sender } => Some(
                DialReply { sender, result: Err(err) },
            ),
            ConnectionHandlerOutEvent::ListenSuccess { listener_id, local_peer_id: _, listen_addr } => {
                self.pending_to_transport.push_back(
                    BehaviourToTransportEvent::ListenSuccess {
                        listener_id,
                        local_addr: listen_addr,
                    },
                );
                None
            },
            ConnectionHandlerOutEvent::ListenFailed {
                err,
                listener_id,
                local_peer_id: _,
                listen_addr,
            } => {
                self.pending_to_transport.push_back(
                    BehaviourToTransportEvent::ListenFailed {
                        err,
                        listener_id,
                        local_addr: listen_addr,
                    },
                );
                None
            },
        }
    }

    /// Goes on with the next event for the transport, or with flushing.
    fn next_event(&mut self) -> (step: PollStep<S, O, D>)
        requires
            old(self).wf(),
        ensures
            final(self).wf(),
            (final(self)@, step) == old(self)@.next_event(),
    {
        match self.pending_to_transport.pop_front() {
            Some(event) => PollStep::PollTransport { event },
            None => PollStep::FlushTransport,
        }
    }

    /// Goes on with the next connection, or with the transport.
    fn next_connection(&mut self) -> (step: PollStep<S, O, D>)
        requires
            old(self).wf(),
        ensures
            final(self).wf(),
            (final(self)@, step) == old(self)@.next_connection(),
    {
        match self.pending_new_connections.pop_front() {
            Some(new_connection) => {
                match self.listeners.get(&new_connection.listen_addr) {
                    Some(listener) => PollStep::PollListener {
                        new_connection,
                        listener_id: listener.listener_id,
                    },
                    None => PollStep::Done(
                        Polled::Ready(
                            NetworkBehaviourAction::GenerateEvent(
                                Event::UnexpectedConnection {
                                    listen_addr: new_connection.listen_addr,
                                },
                            ),
                        ),
                    ),
                }
            },
            None => self.next_event(),
        }
    }

    /// Begins a poll with what the transport sent.
    pub fn poll(&mut self, received: Received<TransportToBehaviourEvent<O, L>>) -> (step: PollStep<
        S,
        O,
        D,
    >)
        requires
            old(self).wf(),
        ensures
            final(self).wf(),
            (final(self)@, step) == old(self)@.poll(received),
    {
        match received {
            Received::Pending => PollStep::Done(Polled::Pending),
            Received::Closed => self.next_connection(),
            Received::Item(
                TransportToBehaviourEvent::Dial { dst_addr, relay_addr: _, connection_sender },
            ) => PollStep::Done(
                Polled::Ready(
                    NetworkBehaviourAction::NotifyHandler {
                        peer_id: self.peer_id.clone(),
                        handler: NotifyHandler::Any,
                        event: ConnectionHandlerInEvent::Dial { dst_addr, connection_sender },
                    },
                ),
            ),
            Received::Item(
                TransportToBehaviourEvent::Listen {
                    listener_id,
                    local_peer_id,
                    local_addr,
                    relay_peer_id,
                    relay_addr: _,
                    connection_sender,
                },
            ) => {
                let _ = self.listeners.insert(
                    local_addr.clone(),
                    ListenerSenderWithId { listener_id, sender: connection_sender },
                );
                PollStep::Done(
                    Polled::Ready(
                        NetworkBehaviourAction::NotifyHandler {
                            peer_id: relay_peer_id,
                            handler: NotifyHandler::Any,
                            event: ConnectionHandlerInEvent::Listen {
                                listener_id,
                                local_peer_id,
                                local_addr,
                            },
                        },
                    ),
                )
            },
        }
    }

    /// Goes on when the sender of a listener was polled for room.
    pub fn listener_ready(
        &mut self,
        new_connection: PendingNewConnection<S>,
        listener_id: ListenerId,
        readiness: Readiness<D>,
    ) -> (step: PollStep<S, O, D>)
        requires
            old(self).wf(),
        ensures
            final(self).wf(),
            (final(self)@, step) == old(self)@.listener_ready(
                new_connection,
                listener_id,
                readiness,
            ),
    {
        let ghost before = self@;
        match readiness {
            Readiness::Pending => {
                // wait for the next poll
                self.pending_new_connections.push_front(new_connection);
                assert(self@ =~= State {
                    new_connections: seq![new_connection] + before.new_connections,
                    ..before
                });
                self.next_event()
            },
            Readiness::Failed(err) => PollStep::Done(
                Polled::Ready(
                    NetworkBehaviourAction::GenerateEvent(
                        Event::UnexpectedListenerClosed {
                            listen_addr: new_connection.listen_addr,
                            err,
                        },
                    ),
                ),
            ),
            Readiness::Ready => PollStep::SendConnection {
                delivery: Delivery { listen_addr: new_connection.listen_addr, listener_id },
                connection: new_connection.connection,
            },
        }
    }

    /// Goes on when a connection was sent to a listener.
    pub fn listener_sent(&mut self, delivery: Delivery, sent: Result<(), D>) -> (step: PollStep<
        S,
        O,
        D,
    >)
        requires
            old(self).wf(),
        ensures
            final(self).wf(),
            (final(self)@, step) == old(self)@.listener_sent(delivery, sent),
    {
        match sent {
            Err(err) => PollStep::Done(
                Polled::Ready(
                    NetworkBehaviourAction::GenerateEvent(
                        Event::UnexpectedListenerClosed { listen_addr: delivery.listen_addr, err },
                    ),
                ),
            ),
            Ok(_) => {
                self.pending_to_transport.push_back(
                    BehaviourToTransportEvent::ListenSuccess {
                        listener_id: delivery.listener_id,
                        local_addr: delivery.listen_addr,
                    },
                );
                self.next_connection()
            },
        }
    }

    /// Goes on when the sender of the transport was polled for room.
    pub fn transport_ready(
        &mut self,
        event: BehaviourToTransportEvent,
        readiness: Readiness<()>,
    ) -> (step: PollStep<S, O, D>)
        requires
            old(self).wf(),
        ensures
            final(self).wf(),
            (final(self)@, step) == old(self)@.transport_ready(event, readiness),
    {
        match readiness {
            Readiness::Pending => {
                // wait for the next poll
                let ghost before = self@;
                self.pending_to_transport.push_front(event);
                assert(self@ =~= before.transport_ready(event, readiness).0);
                PollStep::FlushTransport
            },
            Readiness::Failed(_) => PollStep::Done(
                Polled::Ready(
                    NetworkBehaviourAction::GenerateEvent(Event::UnexpectedTransportDropped),
                ),
            ),
            Readiness::Ready => PollStep::SendEvent { event },
        }
    }

    /// Goes on when an event was sent to the transport.
    pub fn transport_sent(&mut self, sent: bool) -> (step: PollStep<S, O, D>)
        requires
            old(self).wf(),
        ensures
            final(self).wf(),
            (final(self)@, step) == old(self)@.transport_sent(sent),
    {
        if sent {
            self.next_event()
        } else {
            PollStep::Done(
                Polled::Ready(
                    NetworkBehaviourAction::GenerateEvent(Event::UnexpectedTransportDropped),
                ),
            )
        }
    }

    /// Goes on when the sender of the transport was flushed.
    pub fn transport_flushed(&mut self, flushed: bool) -> (step: PollStep<S, O, D>)
        requires
            old(self).wf(),
        ensures
            final(self).wf(),
            (final(self)@, step) == old(self)@.transport_flushed(flushed),
    {
        if !flushed {
            return PollStep::Done(
                Polled::Ready(
                    NetworkBehaviourAction::GenerateEvent(Event::UnexpectedTransportDropped),
                ),
            );
        }
        match self.pending_actions.pop_front() {
            Some(action) => PollStep::Done(Polled::Ready(action)),
            None => PollStep::Done(Polled::Pending),
        }
    }

    /// The sender of the listener on an address.
    pub fn listener_sender(&mut self, listen_addr: &Multiaddr) -> (r: Option<&mut L>)
        requires
            old(self).wf(),
        ensures
            final(self).wf(),
            match r {
                Some(sender) => {
                    &&& old(self)@.listeners.contains_key(listen_addr@)
                    &&& *sender == old(self)@.listeners[listen_addr@].sender
                    &&& final(self)@ == (State {
                        listeners: old(self)@.listeners.insert(
                            listen_addr@,
                            ListenerSenderWithId {
                                listener_id: old(self)@.listeners[listen_addr@].listener_id,
                                sender: *final(sender),
                            },
                        ),
                        ..old(self)@
                    })
                },
                None => !old(self)@.listeners.contains_key(listen_addr@) && final(self)@ == old(
                    self,
                )@,
            },
    {
        match self.listeners.get_mut(listen_addr) {
            Some(listener) => Some(&mut listener.sender),
            None => None,
        }
    }
}

} // verus!
