//! What the parts of a client tell each other.

use libp2p_core::transport::ListenerId;
use vstd::prelude::*;

use crate::address::{Multiaddr, PeerId};
use crate::connection::Connection;
use crate::error::IoError;

verus! {

/// What the transport asks of the behaviour. A dialed connection goes to a sender of type `O`, the
/// connections of a listener go to one of type `L`.
#[derive(Debug)]
pub enum TransportToBehaviourEvent<O, L> {
    Dial { dst_addr: Multiaddr, relay_addr: Multiaddr, connection_sender: O },
    Listen {
        listener_id: ListenerId,
        local_peer_id: PeerId,
        local_addr: Multiaddr,
        relay_peer_id: PeerId,
        relay_addr: Multiaddr,
        connection_sender: L,
    },
}

/// What the behaviour reports to the transport.
#[derive(Debug)]
pub enum BehaviourToTransportEvent {
    ListenSuccess { listener_id: ListenerId, local_addr: Multiaddr },
    ListenFailed { err: IoError, listener_id: ListenerId, local_addr: Multiaddr },
    PeerClosed { peer_id: PeerId, peer_addr: Multiaddr },
}

/// What the behaviour reports to the swarm. `D` are the errors of channels and handlers.
#[derive(Debug)]
pub enum Event<D> {
    /// A connection came for an address that nothing listens on.
    UnexpectedConnection { listen_addr: Multiaddr },
    /// A connection came for a listener that is gone.
    UnexpectedListenerClosed { listen_addr: Multiaddr, err: D },
    OtherError(D),
    /// The transport is gone.
    UnexpectedTransportDropped,
}

/// What the behaviour asks of a connection handler.
#[derive(Debug)]
pub enum ConnectionHandlerInEvent<O> {
    Dial { dst_addr: Multiaddr, connection_sender: O },
    Listen { listener_id: ListenerId, local_peer_id: PeerId, local_addr: Multiaddr },
}

/// What a connection handler reports to the behaviour.
#[derive(Debug)]
pub enum ConnectionHandlerOutEvent<S, O, D> {
    NewConnection { listen_addr: Multiaddr, connection: Connection<S> },
    DialSuccess { connection: Connection<S>, sender: O },
    DialFailed { err: IoError, sender: O },
    ListenSuccess { listener_id: ListenerId, local_peer_id: PeerId, listen_addr: Multiaddr },
    ListenFailed {
        err: IoError,
        listener_id: ListenerId,
        local_peer_id: PeerId,
        listen_addr: Multiaddr,
    },
    Error(D),
}

/// What a connection handler keeps of a substream that it opens.
#[derive(Debug)]
pub enum OutboundOpenInfo<O> {
    Dial { connection_sender: O },
    Listen { listener_id: ListenerId, local_peer_id: PeerId, listen_addr: Multiaddr },
}

} // verus!
