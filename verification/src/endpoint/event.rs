//! What the parts of an endpoint tell each other.

use libp2p_core::transport::ListenerId;
use libp2p_swarm::ConnectionId;
use vstd::prelude::*;

use crate::address::{Multiaddr, PeerId};
use crate::connection::Connection;
use crate::error::IoError;

verus! {

/// What the transport asks of the behaviour. A dialed connection goes to a sender of type `O`, the
/// connections of a listener go to one of type `L`.
#[derive(Debug)]
pub enum TransportToBehaviourEvent<O, L> {
    Dial {
        dst_peer_id: PeerId,
        dst_addr: Multiaddr,
        relay_addr: Multiaddr,
        relay_peer_id: PeerId,
        connection_sender: O,
    },
    Listen {
        listener_id: ListenerId,
        local_peer_id: PeerId,
        local_addr: Multiaddr,
        relay_peer_id: PeerId,
        relay_addr: Multiaddr,
        connection_sender: L,
    },
}

impl<O, L> TransportToBehaviourEvent<O, L> {
    pub open spec fn relay_peer_id_spec(self) -> PeerId {
        match self {
            TransportToBehaviourEvent::Dial { relay_peer_id, .. } => relay_peer_id,
            TransportToBehaviourEvent::Listen { relay_peer_id, .. } => relay_peer_id,
        }
    }

    pub open spec fn relay_addr_spec(self) -> Multiaddr {
        match self {
            TransportToBehaviourEvent::Dial { relay_addr, .. } => relay_addr,
            TransportToBehaviourEvent::Listen { relay_addr, .. } => relay_addr,
        }
    }

    /// The relay that the request goes through.
    pub fn relay_peer_id(&self) -> (r: PeerId)
        ensures
            r == self.relay_peer_id_spec(),
    {
        match self {
            TransportToBehaviourEvent::Dial { relay_peer_id, .. } => relay_peer_id.clone(),
            TransportToBehaviourEvent::Listen { relay_peer_id, .. } => relay_peer_id.clone(),
        }
    }

    /// The address of the relay that the request goes through.
    pub fn relay_addr(&self) -> (r: Multiaddr)
        ensures
            r == self.relay_addr_spec(),
    {
        match self {
            TransportToBehaviourEvent::Dial { relay_addr, .. } => relay_addr.clone(),
            TransportToBehaviourEvent::Listen { relay_addr, .. } => relay_addr.clone(),
        }
    }
}

/// What the behaviour reports to a transport.
#[derive(Debug)]
pub enum BehaviourToTransportEvent {
    ListenSuccess { listener_id: ListenerId, listen_addr: Multiaddr },
    ListenFailed { err: IoError, listener_id: ListenerId, local_addr: Multiaddr },
    DialFailed { err: IoError, dst_peer_id: PeerId, dst_addr: Multiaddr },
    PeerClosed { peer_id: PeerId, peer_addr: Multiaddr, connection_id: ConnectionId },
}

/// What the behaviour reports to the swarm. `D` are the errors of channels and handlers.
#[derive(Debug)]
pub enum Event<D> {
    /// A connection came for an address that nothing listens on.
    UnexpectedConnection { listen_addr: Multiaddr },
    /// A connection came for a listener that is gone.
    UnexpectedListenerClosed { listen_addr: Multiaddr, err: D },
    OtherError(D),
    /// A transport is gone.
    UnexpectedTransportDropped,
}

/// What the behaviour asks of a connection handler.
#[derive(Debug)]
pub enum ConnectionHandlerInEvent<O> {
    Dial { dst_peer_id: PeerId, dst_addr: Multiaddr, connection_sender: O },
    Listen { listener_id: ListenerId, local_peer_id: PeerId, local_addr: Multiaddr },
}

/// What a connection handler reports to the behaviour.
#[derive(Debug)]
pub enum ConnectionHandlerOutEvent<S, O, D> {
    NewConnection { relay_peer_id: PeerId, listen_addr: Multiaddr, connection: Connection<S> },
    DialSuccess { relay_peer_id: PeerId, connection: Connection<S>, sender: O },
    DialFailed { err: IoError, relay_peer_id: PeerId, sender: O },
    ListenSuccess {
        relay_peer_id: PeerId,
        listener_id: ListenerId,
        local_peer_id: PeerId,
        listen_addr: Multiaddr,
    },
    ListenFailed {
        err: IoError,
        relay_peer_id: PeerId,
        listener_id: ListenerId,
        local_peer_id: PeerId,
        listen_addr: Multiaddr,
    },
    Error(D),
}

/// What a connection handler keeps of a substream that it opens.
#[derive(Debug)]
pub enum OutboundOpenInfo<O> {
    Dial { connection_sender: O },
    Listen { listener_id: ListenerId, local_peer_id: PeerId, listen_addr: Multiaddr },
}

} // verus!
