//! The behaviour of a relay: it knows which endpoints listen, and brings them together with those
//! that dial.

use std::collections::VecDeque;

use vstd::prelude::*;

use super::event::{ConnectionHandlerInEvent, ConnectionHandlerOutEvent, Event};
use super::upgrade::ConnectRequest;
use crate::address::PeerId;
use crate::connection::Connection;
use crate::error::{Cause, IoError, IoErrorKind};
use crate::server::handler::IntoConnectionHandler;
use crate::swarm::{
    only_events, FromSwarm, KeepAlive, NetworkBehaviourAction, NotifyHandler, Polled,
};
use crate::table::Table;

verus! {

/// What the behaviour asks of the swarm.
pub type Action<Q> = NetworkBehaviourAction<
    Event,
    ConnectionHandlerInEvent,
    IntoConnectionHandler<Q>,
>;

/// What is to be sent to a dialer, and the sender to use.
#[derive(Debug)]
pub struct ConnectReply<S, O> {
    pub sender: O,
    pub result: Result<Connection<S>, IoError>,
}

/// What has to be done when a handler reported something.
#[derive(Debug)]
pub struct HandlerOutcome<S, O> {
    /// What a dialer is to be told, if there is still one to be told.
    pub reply: Option<ConnectReply<S, O>>,
    /// Two connections between which data is to be forwarded, both ways.
    pub copy: Option<(Connection<S>, Connection<S>)>,
    /// The task is to be woken.
    pub wake: bool,
}

/// What a poll of the behaviour comes to.
#[derive(Debug)]
pub struct PollOutcome<S, O, Q> {
    /// What a dialer is to be told.
    pub reply: Option<ConnectReply<S, O>>,
    /// If it is pending, the task is to be woken later.
    pub polled: Polled<Action<Q>>,
}

/// What the behaviour knows, as mathematical values. Peer ids are their bytes.
#[verifier::ext_equal]
pub struct State<O, Q> {
    /// The endpoints that listen.
    pub listening: Set<Seq<u8>>,
    /// The dialers that wait for a connection, by the endpoint that they dial.
    pub connecting: Map<Seq<u8>, O>,
    /// What is still to be asked of the swarm.
    pub actions: Seq<Action<Q>>,
    pub connect_request_sender: Q,
}

/// What a dialer is told that dials a peer that does not listen.
pub open spec fn not_listened(dst_peer_id: PeerId) -> IoError {
    IoError::Caused {
        kind: IoErrorKind::ConnectionRefused,
        cause: Cause::PeerNotListened { dst_peer_id },
    }
}

impl<O, Q> State<O, Q> {
    /// Queues an event for the swarm.
    pub open spec fn report(self, event: Event) -> Self {
        State {
            actions: self.actions.push(NetworkBehaviourAction::GenerateEvent(event)),
            ..self
        }
    }

    pub open spec fn on_connection_handler_event<S>(self, event: ConnectionHandlerOutEvent<S>) -> (
        Self,
        HandlerOutcome<S, O>,
    ) {
        match event {
            ConnectionHandlerOutEvent::DialSuccess { dialer_connection, connection } => (
                self.report(
                    Event::StartCopy {
                        dialer_addr: dialer_connection.remote_addr,
                        dst_addr: connection.remote_addr,
                    },
                ),
                HandlerOutcome {
                    reply: None,
                    copy: Some((dialer_connection, connection)),
                    wake: true,
                },
            ),
            ConnectionHandlerOutEvent::ConnectSuccess { connection, dst_addr: _, dst_peer_id } => {
                self.answer(dst_peer_id, Ok(connection))
            },
            ConnectionHandlerOutEvent::ConnectFailed { err, dst_addr: _, dst_peer_id } => {
                self.answer(dst_peer_id, Err(err))
            },
            ConnectionHandlerOutEvent::ListenSuccess { listen_peer_id, listen_addr } => (
                State { listening: self.listening.insert(listen_peer_id@), ..self }.report(
                    Event::Listen { listen_peer_id, listen_addr },
                ),
                HandlerOutcome { reply: None, copy: None, wake: true },
            ),
            ConnectionHandlerOutEvent::ListenOrDialFailed { err } => (
                self.report(Event::ListenOrDialFailed { err }),
                HandlerOutcome { reply: None, copy: None, wake: true },
            ),
        }
    }

    /// Answers the dialer that waits for an endpoint, if there is one. It waits no longer.
    pub open spec fn answer<S>(
        self,
        dst_peer_id: PeerId,
        result: Result<Connection<S>, IoError>,
    ) -> (Self, HandlerOutcome<S, O>) {
        (
            State { connecting: self.connecting.remove(dst_peer_id@), ..self },
            HandlerOutcome {
                reply: if self.connecting.contains_key(dst_peer_id@) {
                    Some(ConnectReply { sender: self.connecting[dst_peer_id@], result })
                } else {
                    None
                },
                copy: None,
                wake: false,
            },
        )
    }

    /// A poll takes a request if there is one: it is refused if the endpoint does not listen, and
    /// handed to it otherwise. A dialer that waited for the same endpoint is forgotten.
    pub open spec fn poll<S>(self, received: Option<ConnectRequest<O>>) -> (
        Self,
        PollOutcome<S, O, Q>,
    ) {
        match received {
            Some(request) => if !self.listening.contains(request.dst_peer_id@) {
                (
                    self,
                    PollOutcome {
                        reply: Some(
                            ConnectReply {
                                sender: request.connection_sender,
                                result: Err(not_listened(request.dst_peer_id)),
                            },
                        ),
                        polled: Polled::Ready(
                            NetworkBehaviourAction::GenerateEvent(
                                Event::ConnectToNotListenPeer {
                                    dialer_addr: request.dialer_addr,
                                    dst_peer_id: request.dst_peer_id,
                                },
                            ),
                        ),
                    },
                )
            } else {
                (
                    State {
                        connecting: self.connecting.insert(
                            request.dst_peer_id@,
                            request.connection_sender,
                        ),
                        ..self
                    },
                    PollOutcome {
                        reply: None,
                        polled: Polled::Ready(
                            NetworkBehaviourAction::NotifyHandler {
                                peer_id: request.dst_peer_id,
                                handler: NotifyHandler::Any,
                                event: ConnectionHandlerInEvent::Connect {
                                    dst_addr: request.dst_addr,
                                    dst_peer_id: request.dst_peer_id,
                                    dialer_addr: request.dialer_addr,
                                },
                            },
                        ),
                    },
                )
            },
            None => if self.actions.len() > 0 {
                (
                    State { actions: self.actions.drop_first(), ..self },
                    PollOutcome { reply: None, polled: Polled::Ready(self.actions[0]) },
                )
            } else {
                (self, PollOutcome { reply: None, polled: Polled::Pending })
            },
        }
    }
}

/// The behaviour of a relay. Requests for connections come from handlers through senders of type
/// `Q`; what comes of each goes to a sender of type `O`.
#[derive(Debug)]
pub struct Behaviour<O, Q> {
    pub listening_clients: Table<PeerId, ()>,
    pub connect_request_sender: Q,
    pub connecting_requests: Table<PeerId, O>,
    pub pending_actions: VecDeque<Action<Q>>,
}

impl<O, Q> View for Behaviour<O, Q> {
    type V = State<O, Q>;

    open spec fn view(&self) -> State<O, Q> {
        State {
            listening: self.listening_clients@.dom(),
            connecting: self.connecting_requests@,
            actions: self.pending_actions@,
            connect_request_sender: self.connect_request_sender,
        }
    }
}

impl<O, Q> Behaviour<O, Q> {
    /// Only events are kept for the swarm.
    pub open spec fn wf(self) -> bool {
        &&& self.listening_clients.wf()
        &&& self.connecting_requests.wf()
        &&& only_events(self.pending_actions@)
    }

    /// A behaviour to which no endpoint has come yet.
    pub fn new(connect_request_sender: Q) -> (r: Self)
        ensures
            r.wf(),
            r@ == (State::<O, Q> {
                listening: Set::empty(),
                connecting: Map::empty(),
                actions: Seq::empty(),
                connect_request_sender,
            }),
    {
        let r = Behaviour {
            listening_clients: Table::new(),
            connect_request_sender,
            connecting_requests: Table::new(),
            pending_actions: VecDeque::new(),
        };
        assert(r.listening_clients@.dom() =~= Set::empty());
        r
    }

    /// Takes an event of the swarm, none of which matters to a relay.
    pub fn on_swarm_event(&mut self, event: FromSwarm)
        ensures
            *final(self) == *old(self),
    {
        match event {
            FromSwarm::ConnectionEstablished { .. } => {},
            FromSwarm::ConnectionClosed { .. } => {},
            FromSwarm::AddressChange => {},
            FromSwarm::DialFailure { .. } => {},
            FromSwarm::ListenFailure => {},
            FromSwarm::NewListener => {},
            FromSwarm::NewListenAddr => {},
            FromSwarm::ExpiredListenAddr => {},
            FromSwarm::ListenerError => {},
            FromSwarm::ListenerClosed => {},
            FromSwarm::NewExternalAddr => {},
            FromSwarm::ExpiredExternalAddr => {},
        }
    }

    /// Takes an event of a handler, and says what has to be done.
    pub fn on_connection_handler_event<S>(&mut self, event: ConnectionHandlerOutEvent<S>) -> (
        outcome: HandlerOutcome<S, O>)
        requires
            old(self).wf(),
        ensures
            final(self).wf(),
            (final(self)@, outcome) == old(self)@.on_connection_handler_event(event),
    {
        match event {
            ConnectionHandlerOutEvent::DialSuccess { dialer_connection, connection } => {
                let event = Event::StartCopy {
                    dialer_addr: dialer_connection.remote_addr().clone(),
                    dst_addr: connection.remote_addr().clone(),
                };
                self.pending_actions.push_back(NetworkBehaviourAction::GenerateEvent(event));
                HandlerOutcome {
                    reply: None,
                    copy: Some((dialer_connection, connection)),
                    wake: true,
                }
            },
            ConnectionHandlerOutEvent::ConnectSuccess { connection, dst_addr: _, dst_peer_id } => {
                self.answer(dst_peer_id, Ok(connection))
            },
            ConnectionHandlerOutEvent::ConnectFailed { err, dst_addr: _, dst_peer_id } => {
                self.answer(dst_peer_id, Err(err))
            },
            ConnectionHandlerOutEvent::ListenSuccess { listen_peer_id, listen_addr } => {
                let ghost before = self@;
                let _ = self.listening_clients.insert(listen_peer_id.clone(), ());
                assert(self.listening_clients@.dom() =~= before.listening.insert(listen_peer_id@));
                self.pending_actions.push_back(
                    NetworkBehaviourAction::GenerateEvent(
                        Event::Listen { listen_peer_id, listen_addr },
                    ),
                );
                HandlerOutcome { reply: None, copy: None, wake: true }
            },
            ConnectionHandlerOutEvent::ListenOrDialFailed { err } => {
                self.pending_actions.push_back(
                    NetworkBehaviourAction::GenerateEvent(Event::ListenOrDialFailed { err }),
                );
                HandlerOutcome { reply: None, copy: None, wake: true }
            },
        }
    }

    fn answer<S>(&mut self, dst_peer_id: PeerId, result: Result<Connection<S>, IoError>) -> (
        outcome: HandlerOutcome<S, O>)
        requires
            old(self).wf(),
        ensures
            final(self).wf(),
            (final(self)@, outcome) == old(self)@.answer(dst_peer_id, result),
    {
        let reply = match self.connecting_requests.remove(&dst_peer_id) {
            Some(sender) => Some(ConnectReply { sender, result }),
            None => None,
        };
        HandlerOutcome { reply, copy: None, wake: false }
    }

    /// Polls the behaviour with the request that was received, if there was one.
    pub fn poll<S>(&mut self, received: Option<ConnectRequest<O>>) -> (outcome: PollOutcome<
        S,
        O,
        Q,
    >)
        requires
            old(self).wf(),
        ensures
            final(self).wf(),
            (final(self)@, outcome) == old(self)@.poll::<S>(received),
    {
        if let Some(request) = received {
            if !self.listening_clients.contains(&request.dst_peer_id) {
                let err = IoError::Caused {
                    kind: IoErrorKind::ConnectionRefused,
                    cause: Cause::PeerNotListened { dst_peer_id: request.dst_peer_id.clone() },
                };
                return PollOutcome {
                    reply: Some(
                        ConnectReply { sender: request.connection_sender, result: Err(err) },
                    ),
                    polled: Polled::Ready(
                        NetworkBehaviourAction::GenerateEvent(
                            Event::ConnectToNotListenPeer {
                                dialer_addr: request.dialer_addr,
                                dst_peer_id: request.dst_peer_id,
                            },
                        ),
                    ),
                };
            }
            let _ = self.connecting_requests.insert(
                request.dst_peer_id.clone(),
                request.connection_sender,
            );
            return PollOutcome {
                reply: None,
                polled: Polled::Ready(
                    NetworkBehaviourAction::NotifyHandler {
                        peer_id: request.dst_peer_id.clone(),
                        handler: NotifyHandler::Any,
                        event: ConnectionHandlerInEvent::Connect {
                            dst_addr: request.dst_addr,
                            dst_peer_id: request.dst_peer_id,
                            dialer_addr: request.dialer_addr,
                        },
                    },
                ),
            };
        }
        match self.pending_actions.pop_front() {
            Some(action) => PollOutcome { reply: None, polled: Polled::Ready(action) },
            None => PollOutcome { reply: None, polled: Polled::Pending },
        }
    }
}

impl<O, Q: Clone> Behaviour<O, Q> {
    /// A handler for a connection that is being made.
    pub fn new_handler(&self) -> (r: IntoConnectionHandler<Q>)
        ensures
            r.keepalive == KeepAlive::Yes,
            cloned(self.connect_request_sender, r.connect_request_sender),
    {
        IntoConnectionHandler::new(self.connect_request_sender.clone())
    }
}

} // verus!
