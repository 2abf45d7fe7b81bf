//! The connection handler of a client: it makes the requests of the behaviour on substreams of the
//! connection to the relay, and takes the connections that the relay hands over.

use std::collections::VecDeque;
use std::sync::Arc;

use vstd::prelude::*;

use super::event::{ConnectionHandlerInEvent, ConnectionHandlerOutEvent, OutboundOpenInfo};
use super::upgrade::{InboundUpgrade, InboundUpgradeOutput, OutboundUpgrade};
use crate::address::{share, Multiaddr};
use crate::connection::Connection;
use crate::swarm::{ConnectionEvent, ConnectionHandlerEvent, KeepAlive};

verus! {

/// Calls `DashSet::new`. Others may change a set once it is shared: nothing is claimed of it.
#[verifier::external_body]
fn new_set() -> (r: dashmap::DashSet<Multiaddr>) {
    dashmap::DashSet::new()
}

/// What an [`OutboundUpgrade`] comes to.
#[derive(Debug)]
pub enum OutboundOutput<S> {
    Dial(Connection<S>),
    Listen,
}

/// What the handler asks of its connection.
pub type HandlerEvent<S, O, D> = ConnectionHandlerEvent<
    OutboundUpgrade,
    OutboundOpenInfo<O>,
    ConnectionHandlerOutEvent<S, O, D>,
>;

/// A handler that waits for its connection. The addresses that the client listens on are shared.
#[derive(Debug)]
pub struct IntoConnectionHandler {
    pub keepalive: KeepAlive,
    pub listen_addrs: Arc<dashmap::DashSet<Multiaddr>>,
}

impl Default for IntoConnectionHandler {
    fn default() -> (r: Self)
        ensures
            r.keepalive == KeepAlive::Yes,
    {
        IntoConnectionHandler { keepalive: KeepAlive::Yes, listen_addrs: Arc::new(new_set()) }
    }
}

impl IntoConnectionHandler {
    pub fn new(listen_addrs: Arc<dashmap::DashSet<Multiaddr>>) -> (r: Self)
        ensures
            r.keepalive == KeepAlive::Yes,
            r.listen_addrs == listen_addrs,
    {
        IntoConnectionHandler { keepalive: KeepAlive::Yes, listen_addrs }
    }

    /// The handler of a connection.
    pub fn into_handler<S, O, D>(self) -> (r: ConnectionHandler<S, O, D>)
        ensures
            r.keepalive == self.keepalive,
            r.listen_addrs == self.listen_addrs,
            r.pending_events@.len() == 0,
            r.pending_inbound_upgrade_output@.len() == 0,
    {
        ConnectionHandler {
            keepalive: self.keepalive,
            listen_addrs: self.listen_addrs,
            pending_events: VecDeque::new(),
            pending_inbound_upgrade_output: VecDeque::new(),
        }
    }

    /// The exchange on a substream that the remote opens.
    pub fn inbound_protocol(&self) -> (r: InboundUpgrade)
        ensures
            r.listen_addrs == self.listen_addrs,
    {
        InboundUpgrade::new(share(&self.listen_addrs))
    }
}

/// The handler of one connection to the relay.
#[derive(Debug)]
pub struct ConnectionHandler<S, O, D> {
    pub keepalive: KeepAlive,
    pub listen_addrs: Arc<dashmap::DashSet<Multiaddr>>,
    pub pending_events: VecDeque<HandlerEvent<S, O, D>>,
    pub pending_inbound_upgrade_output: VecDeque<InboundUpgradeOutput<S>>,
}

/// The substream that a request of the behaviour asks for.
pub open spec fn requested<S, O, D>(event: ConnectionHandlerInEvent<O>) -> HandlerEvent<S, O, D> {
    match event {
        ConnectionHandlerInEvent::Dial { dst_addr, connection_sender } => {
            ConnectionHandlerEvent::OutboundSubstreamRequest {
                protocol: OutboundUpgrade::Dial { dst_addr },
                info: OutboundOpenInfo::Dial { connection_sender },
            }
        },
        ConnectionHandlerInEvent::Listen { listener_id, local_peer_id, local_addr } => {
            ConnectionHandlerEvent::OutboundSubstreamRequest {
                protocol: OutboundUpgrade::Listen {
                    listen_peer_id: local_peer_id,
                    listen_addr: local_addr,
                },
                info: OutboundOpenInfo::Listen {
                    listener_id,
                    local_peer_id,
                    listen_addr: local_addr,
                },
            }
        },
    }
}

/// What comes of an outbound upgrade fits what was kept of it.
pub open spec fn fits<S, O>(
    event: ConnectionEvent<InboundUpgradeOutput<S>, OutboundOutput<S>, OutboundOpenInfo<O>>,
) -> bool {
    match event {
        ConnectionEvent::FullyNegotiatedOutbound { protocol, info } => protocol is Dial
            <==> info is Dial,
        _ => true,
    }
}

/// What is reported to the behaviour of an event of the connection.
pub open spec fn reported<S, O, D>(
    event: ConnectionEvent<InboundUpgradeOutput<S>, OutboundOutput<S>, OutboundOpenInfo<O>>,
) -> Option<ConnectionHandlerOutEvent<S, O, D>> {
    match event {
        ConnectionEvent::FullyNegotiatedOutbound {
            protocol: OutboundOutput::Dial(connection),
            info: OutboundOpenInfo::Dial { connection_sender },
        } => Some(
            ConnectionHandlerOutEvent::DialSuccess { connection, sender: connection_sender },
        ),
        ConnectionEvent::FullyNegotiatedOutbound {
            protocol: OutboundOutput::Listen,
            info: OutboundOpenInfo::Listen { listener_id, local_peer_id, listen_addr },
        } => Some(
            ConnectionHandlerOutEvent::ListenSuccess { listener_id, local_peer_id, listen_addr },
        ),
        ConnectionEvent::DialUpgradeError {
            info: OutboundOpenInfo::Dial { connection_sender },
            error,
        } => Some(
            ConnectionHandlerOutEvent::DialFailed {
                err: error.io_error(),
                sender: connection_sender,
            },
        ),
        ConnectionEvent::DialUpgradeError {
            info: OutboundOpenInfo::Listen { listener_id, local_peer_id, listen_addr },
            error,
        } => Some(
            ConnectionHandlerOutEvent::ListenFailed {
                err: error.io_error(),
                listener_id,
                local_peer_id,
                listen_addr,
            },
        ),
        _ => None,
    }
}

impl<S, O, D> ConnectionHandler<S, O, D> {
    /// The exchange on a substream that the relay opens.
    pub fn listen_protocol(&self) -> (r: InboundUpgrade)
        ensures
            r.listen_addrs == self.listen_addrs,
    {
        InboundUpgrade::new(share(&self.listen_addrs))
    }

    pub fn connection_keep_alive(&self) -> (r: KeepAlive)
        ensures
            r == self.keepalive,
    {
        self.keepalive
    }

    /// The next thing that the handler asks of its connection: a connection that the relay handed
    /// over goes first. `None` means that there is nothing.
    pub fn poll(&mut self) -> (r: Option<HandlerEvent<S, O, D>>)
        ensures
            final(self).keepalive == old(self).keepalive,
            final(self).listen_addrs == old(self).listen_addrs,
            ({
                let inbound = old(self).pending_inbound_upgrade_output@;
                let events = old(self).pending_events@;
                if inbound.len() > 0 {
                    &&& r == Some(
                        HandlerEvent::<S, O, D>::Custom(
                            ConnectionHandlerOutEvent::NewConnection {
                                listen_addr: inbound[0].listen_addr,
                                connection: inbound[0].connection,
                            },
                        ),
                    )
                    &&& final(self).pending_inbound_upgrade_output@ == inbound.drop_first()
                    &&& final(self).pending_events@ == events
                } else if events.len() > 0 {
                    &&& r == Some(events[0])
                    &&& final(self).pending_inbound_upgrade_output@ == inbound
                    &&& final(self).pending_events@ == events.drop_first()
                } else {
                    &&& r is None
                    &&& final(self).pending_inbound_upgrade_output@ == inbound
                    &&& final(self).pending_events@ == events
                }
            }),
    {
        if let Some(output) = self.pending_inbound_upgrade_output.pop_front() {
            return Some(
                ConnectionHandlerEvent::Custom(
                    ConnectionHandlerOutEvent::NewConnection {
                        listen_addr: output.listen_addr,
                        connection: output.connection,
                    },
                ),
            );
        }
        self.pending_events.pop_front()
    }

    /// Takes a request of the behaviour.
    pub fn on_behaviour_event(&mut self, event: ConnectionHandlerInEvent<O>)
        ensures
            final(self).keepalive == old(self).keepalive,
            final(self).listen_addrs == old(self).listen_addrs,
            final(self).pending_inbound_upgrade_output@ == old(self).pending_inbound_upgrade_output@,
            final(self).pending_events@ == old(self).pending_events@.push(requested(event)),
    {
        match event {
            ConnectionHandlerInEvent::Dial { dst_addr, connection_sender } => {
                self.pending_events.push_back(
                    ConnectionHandlerEvent::OutboundSubstreamRequest {
                        protocol: OutboundUpgrade::new_dial(dst_addr),
                        info: OutboundOpenInfo::Dial { connection_sender },
                    },
                );
            },
            ConnectionHandlerInEvent::Listen { listener_id, local_peer_id, local_addr } => {
                self.pending_events.push_back(
                    ConnectionHandlerEvent::OutboundSubstreamRequest {
                        protocol: OutboundUpgrade::new_listen(
                            local_peer_id.clone(),
                            local_addr.clone(),
                        ),
                        info: OutboundOpenInfo::Listen {
                            listener_id,
                            local_peer_id,
                            listen_addr: local_addr,
                        },
                    },
                );
            },
        }
    }

    /// Takes an event of the connection.
    pub fn on_connection_event(
        &mut self,
        event: ConnectionEvent<InboundUpgradeOutput<S>, OutboundOutput<S>, OutboundOpenInfo<O>>,
    )
        requires
            fits(event),
        ensures
            final(self).keepalive == old(self).keepalive,
            final(self).listen_addrs == old(self).listen_addrs,
            final(self).pending_inbound_upgrade_output@ == match event {
                ConnectionEvent::FullyNegotiatedInbound { protocol } => old(
                    self,
                ).pending_inbound_upgrade_output@.push(protocol),
                _ => old(self).pending_inbound_upgrade_output@,
            },
            final(self).pending_events@ == match reported(event) {
                Some(out) => old(self).pending_events@.push(ConnectionHandlerEvent::Custom(out)),
                None => old(self).pending_events@,
            },
    {
        match event {
            ConnectionEvent::FullyNegotiatedInbound { protocol } => {
                self.pending_inbound_upgrade_output.push_back(protocol);
            },
            ConnectionEvent::FullyNegotiatedOutbound { protocol, info } => {
                match (protocol, info) {
                    (
                        OutboundOutput::Dial(connection),
                        OutboundOpenInfo::Dial { connection_sender },
                    ) => {
                        self.pending_events.push_back(
                            ConnectionHandlerEvent::Custom(
                                ConnectionHandlerOutEvent::DialSuccess {
                                    connection,
                                    sender: connection_sender,
                                },
                            ),
                        );
                    },
                    (
                        OutboundOutput::Listen,
                        OutboundOpenInfo::Listen { listener_id, local_peer_id, listen_addr },
                    ) => {
                        self.pending_events.push_back(
                            ConnectionHandlerEvent::Custom(
                                ConnectionHandlerOutEvent::ListenSuccess {
                                    listener_id,
                                    local_peer_id,
                                    listen_addr,
                                },
                            ),
                        );
                    },
                    _ => {
                        assert(false);
                    },
                }
            },
            ConnectionEvent::AddressChange => {},
            ConnectionEvent::DialUpgradeError { info, error } => {
                let err = error.into_io_error();
                match info {
                    OutboundOpenInfo::Dial { connection_sender } => {
                        self.pending_events.push_back(
                            ConnectionHandlerEvent::Custom(
                                ConnectionHandlerOutEvent::DialFailed {
                                    err,
                                    sender: connection_sender,
                                },
                            ),
                        );
                    },
                    OutboundOpenInfo::Listen { listener_id, local_peer_id, listen_addr } => {
                        self.pending_events.push_back(
                            ConnectionHandlerEvent::Custom(
                                ConnectionHandlerOutEvent::ListenFailed {
                                    err,
                                    listener_id,
                                    local_peer_id,
                                    listen_addr,
                                },
                            ),
                        );
                    },
                }
            },
            ConnectionEvent::ListenUpgradeError { .. } => {},
        }
    }
}

} // verus!
