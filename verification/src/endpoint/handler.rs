//! The connection handler of an endpoint: it makes the requests of the behaviour on substreams of
//! the connection to a relay, and takes the connections that the relay hands over.

use std::collections::VecDeque;

use vstd::prelude::*;

use super::event::{ConnectionHandlerInEvent, ConnectionHandlerOutEvent, OutboundOpenInfo};
use super::upgrade::{InboundUpgrade, InboundUpgradeOutput, OutboundUpgrade};
use crate::address::PeerId;
use crate::connection::Connection;
use crate::swarm::{ConnectionEvent, ConnectionHandlerEvent, KeepAlive};

verus! {

/// What an [`OutboundUpgrade`] comes to.
#[derive(Debug)]
pub enum OutboundOutput<S> {
    Dial(Connection<S>),
    Listen,
}

/// What the handler asks of its connection.
pub type HandlerEvent<S, O, D> = ConnectionHandlerEvent<
    OutboundUpgrade,
    OutboundOpenInfo<O>,
    ConnectionHandlerOutEvent<S, O, D>,
>;

/// A handler that waits for its connection.
#[derive(Debug)]
pub struct IntoConnectionHandler {
    pub keepalive: KeepAlive,
    pub local_peer_id: PeerId,
}

impl IntoConnectionHandler {
    pub fn new(local_peer_id: PeerId) -> (r: Self)
        ensures
            r == (IntoConnectionHandler { keepalive: KeepAlive::Yes, local_peer_id }),
    {
        IntoConnectionHandler { keepalive: KeepAlive::Yes, local_peer_id }
    }

    /// The handler of a connection to a remote peer.
    pub fn into_handler<S, O, D>(self, remote_peer_id: &PeerId) -> (r: ConnectionHandler<S, O, D>)
        ensures
            r.local_peer_id == self.local_peer_id,
            r.relay_peer_id == *remote_peer_id,
            r.keepalive == self.keepalive,
            r.pending_events@.len() == 0,
            r.pending_inbound_upgrade_output@.len() == 0,
    {
        ConnectionHandler {
            local_peer_id: self.local_peer_id,
            relay_peer_id: remote_peer_id.clone(),
            keepalive: self.keepalive,
            pending_events: VecDeque::new(),
            pending_inbound_upgrade_output: VecDeque::new(),
        }
    }

    /// The exchange on a substream that the remote opens. Which relay it is, is not known yet.
    pub fn inbound_protocol(&self) -> (r: InboundUpgrade)
        ensures
            r == (InboundUpgrade { local_peer_id: self.local_peer_id, relay_peer_id: None }),
    {
        InboundUpgrade::new(self.local_peer_id.clone(), None)
    }
}

/// The handler of one connection to a relay.
#[derive(Debug)]
pub struct ConnectionHandler<S, O, D> {
    pub local_peer_id: PeerId,
    pub relay_peer_id: PeerId,
    pub keepalive: KeepAlive,
    pub pending_events: VecDeque<HandlerEvent<S, O, D>>,
    pub pending_inbound_upgrade_output: VecDeque<InboundUpgradeOutput<S>>,
}

/// The substream that a request of the behaviour asks for.
pub open spec fn requested<S, O, D>(event: ConnectionHandlerInEvent<O>) -> HandlerEvent<S, O, D> {
    match event {
        ConnectionHandlerInEvent::Dial { dst_peer_id, dst_addr, connection_sender } => {
            ConnectionHandlerEvent::OutboundSubstreamRequest {
                protocol: OutboundUpgrade::Dial { dst_peer_id, dst_addr },
                info: OutboundOpenInfo::Dial { connection_sender },
            }
        },
        ConnectionHandlerInEvent::Listen { listener_id, local_peer_id, local_addr } => {
            ConnectionHandlerEvent::OutboundSubstreamRequest {
                protocol: OutboundUpgrade::Listen {
                    listen_peer_id: local_peer_id,
                    listen_addr: local_addr,
                },
                info: OutboundOpenInfo::Listen {
                    listener_id,
                    local_peer_id,
                    listen_addr: local_addr,
                },
            }
        },
    }
}

/// What comes of an outbound upgrade fits what was kept of it.
pub open spec fn fits<S, O>(
    event: ConnectionEvent<InboundUpgradeOutput<S>, OutboundOutput<S>, OutboundOpenInfo<O>>,
) -> bool {
    match event {
        ConnectionEvent::FullyNegotiatedOutbound { protocol, info } => protocol is Dial
            <==> info is Dial,
        _ => true,
    }
}

/// What is reported to the behaviour of an event of the connection.
pub open spec fn reported<S, O, D>(
    relay_peer_id: PeerId,
    event: ConnectionEvent<InboundUpgradeOutput<S>, OutboundOutput<S>, OutboundOpenInfo<O>>,
) -> Option<ConnectionHandlerOutEvent<S, O, D>> {
    match event {
        ConnectionEvent::FullyNegotiatedOutbound {
            protocol: OutboundOutput::Dial(connection),
            info: OutboundOpenInfo::Dial { connection_sender },
        } => Some(
            ConnectionHandlerOutEvent::DialSuccess {
                relay_peer_id,
                connection,
                sender: connection_sender,
            },
        ),
        ConnectionEvent::FullyNegotiatedOutbound {
            protocol: OutboundOutput::Listen,
            info: OutboundOpenInfo::Listen { listener_id, local_peer_id, listen_addr },
        } => Some(
            ConnectionHandlerOutEvent::ListenSuccess {
                relay_peer_id,
                listener_id,
                local_peer_id,
                listen_addr,
            },
        ),
        ConnectionEvent::DialUpgradeError {
            info: OutboundOpenInfo::Dial { connection_sender },
            error,
        } => Some(
            ConnectionHandlerOutEvent::DialFailed {
                err: error.io_error(),
                relay_peer_id,
                sender: connection_sender,
            },
        ),
        ConnectionEvent::DialUpgradeError {
            info: OutboundOpenInfo::Listen { listener_id, local_peer_id, listen_addr },
            error,
        } => Some(
            ConnectionHandlerOutEvent::ListenFailed {
                err: error.io_error(),
                relay_peer_id,
                listener_id,
                local_peer_id,
                listen_addr,
            },
        ),
        _ => None,
    }
}

impl<S, O, D> ConnectionHandler<S, O, D> {
    /// The exchange on a substream that the relay opens.
    pub fn listen_protocol(&self) -> (r: InboundUpgrade)
        ensures
            r == (InboundUpgrade {
                local_peer_id: self.local_peer_id,
                relay_peer_id: Some(self.relay_peer_id),
            }),
    {
        InboundUpgrade::new(self.local_peer_id.clone(), Some(self.relay_peer_id.clone()))
    }

    pub fn connection_keep_alive(&self) -> (r: KeepAlive)
        ensures
            r == self.keepalive,
    {
        self.keepalive
    }

    /// The next thing that the handler asks of its connection: a connection that the relay handed
    /// over goes first. `None` means that there is nothing, and that the task is to be woken later.
    pub fn poll(&mut self) -> (r: Option<HandlerEvent<S, O, D>>)
        ensures
            final(self).local_peer_id == old(self).local_peer_id,
            final(self).relay_peer_id == old(self).relay_peer_id,
            final(self).keepalive == old(self).keepalive,
            ({
                let inbound = old(self).pending_inbound_upgrade_output@;
                let events = old(self).pending_events@;
                if inbound.len() > 0 {
                    &&& r == Some(
                        HandlerEvent::<S, O, D>::Custom(
                            ConnectionHandlerOutEvent::NewConnection {
                                relay_peer_id: inbound[0].relay_peer_id,
                                listen_addr: inbound[0].listen_addr,
                                connection: inbound[0].connection,
                            },
                        ),
                    )
                    &&& final(self).pending_inbound_upgrade_output@ == inbound.drop_first()
                    &&& final(self).pending_events@ == events
                } else if events.len() > 0 {
                    &&& r == Some(events[0])
                    &&& final(self).pending_inbound_upgrade_output@ == inbound
                    &&& final(self).pending_events@ == events.drop_first()
                } else {
                    &&& r is None
                    &&& final(self).pending_inbound_upgrade_output@ == inbound
                    &&& final(self).pending_events@ == events
                }
            }),
    {
        if let Some(output) = self.pending_inbound_upgrade_output.pop_front() {
            return Some(
                ConnectionHandlerEvent::Custom(
                    ConnectionHandlerOutEvent::NewConnection {
                        relay_peer_id: output.relay_peer_id,
                        listen_addr: output.listen_addr,
                        connection: output.connection,
                    },
                ),
            );
        }
        self.pending_events.pop_front()
    }

    /// Takes a request of the behaviour. The task is to be woken after it.
    pub fn on_behaviour_event(&mut self, event: ConnectionHandlerInEvent<O>)
        ensures
            final(self).local_peer_id == old(self).local_peer_id,
            final(self).relay_peer_id == old(self).relay_peer_id,
            final(self).keepalive == old(self).keepalive,
            final(self).pending_inbound_upgrade_output@ == old(self).pending_inbound_upgrade_output@,
            final(self).pending_events@ == old(self).pending_events@.push(requested(event)),
    {
        match event {
            ConnectionHandlerInEvent::Dial { dst_peer_id, dst_addr, connection_sender } => {
                self.pending_events.push_back(
                    ConnectionHandlerEvent::OutboundSubstreamRequest {
                        protocol: OutboundUpgrade::new_dial(dst_peer_id, dst_addr),
                        info: OutboundOpenInfo::Dial { connection_sender },
                    },
                );
            },
            ConnectionHandlerInEvent::Listen { listener_id, local_peer_id, local_addr } => {
                self.pending_events.push_back(
                    ConnectionHandlerEvent::OutboundSubstreamRequest {
                        protocol: OutboundUpgrade::new_listen(
                            local_peer_id.clone(),
                            local_addr.clone(),
                        ),
                        info: OutboundOpenInfo::Listen {
                            listener_id,
                            local_peer_id,
                            listen_addr: local_addr,
                        },
                    },
                );
            },
        }
    }

    /// Takes an event of the connection, and says whether the task is to be woken.
    pub fn on_connection_event(
        &mut self,
        event: ConnectionEvent<InboundUpgradeOutput<S>, OutboundOutput<S>, OutboundOpenInfo<O>>,
    ) -> (wake: bool)
        requires
            fits(event),
        ensures
            final(self).local_peer_id == old(self).local_peer_id,
            final(self).relay_peer_id == old(self).relay_peer_id,
            final(self).keepalive == old(self).keepalive,
            final(self).pending_inbound_upgrade_output@ == match event {
                ConnectionEvent::FullyNegotiatedInbound { protocol } => old(
                    self,
                ).pending_inbound_upgrade_output@.push(protocol),
                _ => old(self).pending_inbound_upgrade_output@,
            },
            final(self).pending_events@ == match reported(old(self).relay_peer_id, event) {
                Some(out) => old(self).pending_events@.push(ConnectionHandlerEvent::Custom(out)),
                None => old(self).pending_events@,
            },
            wake == !(event is AddressChange || event is ListenUpgradeError),
    {
        let relay_peer_id = self.relay_peer_id.clone();
        match event {
            ConnectionEvent::FullyNegotiatedInbound { protocol } => {
                self.pending_inbound_upgrade_output.push_back(protocol);
                true
            },
            ConnectionEvent::FullyNegotiatedOutbound { protocol, info } => {
                match (protocol, info) {
                    (
                        OutboundOutput::Dial(connection),
                        OutboundOpenInfo::Dial { connection_sender },
                    ) => {
                        self.pending_events.push_back(
                            ConnectionHandlerEvent::Custom(
                                ConnectionHandlerOutEvent::DialSuccess {
                                    relay_peer_id,
                                    connection,
                                    sender: connection_sender,
                                },
                            ),
                        );
                    },
                    (
                        OutboundOutput::Listen,
                        OutboundOpenInfo::Listen { listener_id, local_peer_id, listen_addr },
                    ) => {
                        self.pending_events.push_back(
                            ConnectionHandlerEvent::Custom(
                                ConnectionHandlerOutEvent::ListenSuccess {
                                    relay_peer_id,
                                    listener_id,
                                    local_peer_id,
                                    listen_addr,
                                },
                            ),
                        );
                    },
                    _ => {
                        assert(false);
                    },
                }
                true
            },
            ConnectionEvent::AddressChange => false,
            ConnectionEvent::DialUpgradeError { info, error } => {
                let err = error.into_io_error();
                match info {
                    OutboundOpenInfo::Dial { connection_sender } => {
                        self.pending_events.push_back(
                            ConnectionHandlerEvent::Custom(
                                ConnectionHandlerOutEvent::DialFailed {
                                    err,
                                    relay_peer_id,
                                    sender: connection_sender,
                                },
                            ),
                        );
                    },
                    OutboundOpenInfo::Listen { listener_id, local_peer_id, listen_addr } => {
                        self.pending_events.push_back(
                            ConnectionHandlerEvent::Custom(
                                ConnectionHandlerOutEvent::ListenFailed {
                                    err,
                                    relay_peer_id,
                                    listener_id,
                                    local_peer_id,
                                    listen_addr,
                                },
                            ),
                        );
                    },
                }
                true
            },
            ConnectionEvent::ListenUpgradeError { .. } => false,
        }
    }
}

} // verus!
