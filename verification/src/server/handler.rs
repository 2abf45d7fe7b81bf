//! The connection handler of a relay: it takes the requests of the endpoint at the other end, and
//! hands connections to it.

use std::collections::VecDeque;

use vstd::prelude::*;

use super::upgrade::OutboundUpgrade;
use crate::address::{Multiaddr, PeerId};
use crate::connection::Connection;
use crate::relay::event::{ConnectionHandlerInEvent, ConnectionHandlerOutEvent};
use crate::relay::upgrade::{InboundUpgrade, ListenRequest};
use crate::swarm::{ConnectionEvent, ConnectionHandlerEvent, KeepAlive};

verus! {

/// What an inbound exchange comes to.
#[derive(Debug)]
pub enum InboundOutput<S> {
    /// The connection of the dialer, and the one that was dialed.
    Dial(Connection<S>, Connection<S>),
    Listen(ListenRequest),
}

/// What the handler keeps of a substream that it opens.
#[derive(Debug)]
pub struct OutboundOpenInfo {
    pub dst_addr: Multiaddr,
    pub dst_peer_id: PeerId,
}

/// What the handler asks of its connection.
pub type HandlerEvent<S> = ConnectionHandlerEvent<
    OutboundUpgrade,
    OutboundOpenInfo,
    ConnectionHandlerOutEvent<S>,
>;

/// A handler that waits for its connection. Requests for connections go to the behaviour through a
/// sender of type `Q`.
#[derive(Debug)]
pub struct IntoConnectionHandler<Q> {
    pub keepalive: KeepAlive,
    pub connect_request_sender: Q,
}

impl<Q> IntoConnectionHandler<Q> {
    pub fn new(connect_request_sender: Q) -> (r: Self)
        ensures
            r == (IntoConnectionHandler { keepalive: KeepAlive::Yes, connect_request_sender }),
    {
        IntoConnectionHandler { keepalive: KeepAlive::Yes, connect_request_sender }
    }

    /// The handler of a connection to an address.
    pub fn into_handler<S>(self, remote_addr: &Multiaddr) -> (r: ConnectionHandler<S, Q>)
        ensures
            r.keepalive == self.keepalive,
            r.remote_addr == *remote_addr,
            r.connect_request_sender == self.connect_request_sender,
            r.pending_events@.len() == 0,
    {
        ConnectionHandler {
            keepalive: self.keepalive,
            remote_addr: remote_addr.clone(),
            connect_request_sender: self.connect_request_sender,
            pending_events: VecDeque::new(),
        }
    }
}

impl<Q: Clone> IntoConnectionHandler<Q> {
    /// The exchange on a substream that the remote opens. Its address is not known yet.
    pub fn inbound_protocol(&self) -> (r: InboundUpgrade<Q>)
        ensures
            r.remote_addr is None,
            cloned(self.connect_request_sender, r.connect_request_sender),
    {
        InboundUpgrade::new(None, self.connect_request_sender.clone())
    }
}

/// The handler of one connection.
#[derive(Debug)]
pub struct ConnectionHandler<S, Q> {
    pub keepalive: KeepAlive,
    pub remote_addr: Multiaddr,
    pub connect_request_sender: Q,
    pub pending_events: VecDeque<HandlerEvent<S>>,
}

/// The substream that a request of the behaviour asks for.
pub open spec fn requested<S>(event: ConnectionHandlerInEvent) -> HandlerEvent<S> {
    match event {
        ConnectionHandlerInEvent::Connect { dst_addr, dst_peer_id, dialer_addr } => {
            ConnectionHandlerEvent::OutboundSubstreamRequest {
                protocol: OutboundUpgrade { dialer_addr, dst_peer_id, dst_addr },
                info: OutboundOpenInfo { dst_addr, dst_peer_id },
            }
        },
    }
}

/// What is reported to the behaviour of an event of the connection.
pub open spec fn reported<S>(
    event: ConnectionEvent<InboundOutput<S>, Connection<S>, OutboundOpenInfo>,
) -> Option<ConnectionHandlerOutEvent<S>> {
    match event {
        ConnectionEvent::FullyNegotiatedInbound {
            protocol: InboundOutput::Dial(dialer_connection, connection),
        } => Some(ConnectionHandlerOutEvent::DialSuccess { dialer_connection, connection }),
        ConnectionEvent::FullyNegotiatedInbound { protocol: InboundOutput::Listen(request) } => {
            Some(
                ConnectionHandlerOutEvent::ListenSuccess {
                    listen_peer_id: request.listen_peer_id,
                    listen_addr: request.listen_addr,
                },
            )
        },
        ConnectionEvent::FullyNegotiatedOutbound { protocol, info } => Some(
            ConnectionHandlerOutEvent::ConnectSuccess {
                connection: protocol,
                dst_addr: info.dst_addr,
                dst_peer_id: info.dst_peer_id,
            },
        ),
        ConnectionEvent::AddressChange => None,
        ConnectionEvent::DialUpgradeError { info, error } => Some(
            ConnectionHandlerOutEvent::ConnectFailed {
                err: error.io_error(),
                dst_addr: info.dst_addr,
                dst_peer_id: info.dst_peer_id,
            },
        ),
        ConnectionEvent::ListenUpgradeError { error } => Some(
            ConnectionHandlerOutEvent::ListenOrDialFailed { err: error.io_error() },
        ),
    }
}

impl<S, Q: Clone> ConnectionHandler<S, Q> {
    /// The exchange on a substream that the remote opens.
    pub fn listen_protocol(&self) -> (r: InboundUpgrade<Q>)
        ensures
            r.remote_addr == Some(self.remote_addr),
            cloned(self.connect_request_sender, r.connect_request_sender),
    {
        InboundUpgrade::new(Some(self.remote_addr.clone()), self.connect_request_sender.clone())
    }
}

impl<S, Q> ConnectionHandler<S, Q> {
    pub fn connection_keep_alive(&self) -> (r: KeepAlive)
        ensures
            r == self.keepalive,
    {
        self.keepalive
    }

    /// The next thing that the handler asks of its connection. `None` means that there is nothing,
    /// and that the task is to be woken later.
    pub fn poll(&mut self) -> (r: Option<HandlerEvent<S>>)
        ensures
            final(self).keepalive == old(self).keepalive,
            final(self).remote_addr == old(self).remote_addr,
            final(self).connect_request_sender == old(self).connect_request_sender,
            ({
                let events = old(self).pending_events@;
                if events.len() > 0 {
                    r == Some(events[0]) && final(self).pending_events@ == events.drop_first()
                } else {
                    r is None && final(self).pending_events@ == events
                }
            }),
    {
        self.pending_events.pop_front()
    }

    /// Takes a request of the behaviour. The task is to be woken after it.
    pub fn on_behaviour_event(&mut self, event: ConnectionHandlerInEvent)
        ensures
            final(self).keepalive == old(self).keepalive,
            final(self).remote_addr == old(self).remote_addr,
            final(self).connect_request_sender == old(self).connect_request_sender,
            final(self).pending_events@ == old(self).pending_events@.push(requested(event)),
    {
        match event {
            ConnectionHandlerInEvent::Connect { dst_addr, dst_peer_id, dialer_addr } => {
                self.pending_events.push_back(
                    ConnectionHandlerEvent::OutboundSubstreamRequest {
                        protocol: OutboundUpgrade::new(
                            dialer_addr,
                            dst_peer_id.clone(),
                            dst_addr.clone(),
                        ),
                        info: OutboundOpenInfo { dst_addr, dst_peer_id },
                    },
                );
            },
        }
    }

    /// Takes an event of the connection, and says whether the task is to be woken.
    pub fn on_connection_event(
        &mut self,
        event: ConnectionEvent<InboundOutput<S>, Connection<S>, OutboundOpenInfo>,
    ) -> (wake: bool)
        ensures
            final(self).keepalive == old(self).keepalive,
            final(self).remote_addr == old(self).remote_addr,
            final(self).connect_request_sender == old(self).connect_request_sender,
            final(self).pending_events@ == match reported(event) {
                Some(out) => old(self).pending_events@.push(ConnectionHandlerEvent::Custom(out)),
                None => old(self).pending_events@,
            },
            wake == reported(event) is Some,
    {
        let out = match event {
            ConnectionEvent::FullyNegotiatedInbound {
                protocol: InboundOutput::Dial(dialer_connection, connection),
            } => ConnectionHandlerOutEvent::DialSuccess { dialer_connection, connection },
            ConnectionEvent::FullyNegotiatedInbound { protocol: InboundOutput::Listen(request) } => {
                ConnectionHandlerOutEvent::ListenSuccess {
                    listen_peer_id: request.listen_peer_id,
                    listen_addr: request.listen_addr,
                }
            },
            ConnectionEvent::FullyNegotiatedOutbound { protocol, info } => {
                ConnectionHandlerOutEvent::ConnectSuccess {
                    connection: protocol,
                    dst_addr: info.dst_addr,
                    dst_peer_id: info.dst_peer_id,
                }
            },
            ConnectionEvent::AddressChange => {
                return false;
            },
            ConnectionEvent::DialUpgradeError { info, error } => {
                ConnectionHandlerOutEvent::ConnectFailed {
                    err: error.into_io_error(),
                    dst_addr: info.dst_addr,
                    dst_peer_id: info.dst_peer_id,
                }
            },
            ConnectionEvent::ListenUpgradeError { error } => {
                ConnectionHandlerOutEvent::ListenOrDialFailed { err: error.into_io_error() }
            },
        };
        self.pending_events.push_back(ConnectionHandlerEvent::Custom(out));
        true
    }
}

} // verus!
