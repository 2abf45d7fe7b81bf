//! What the parts of a relay tell each other.

use vstd::prelude::*;

use crate::address::{Multiaddr, PeerId};
use crate::connection::Connection;
use crate::error::IoError;

verus! {

/// What the behaviour reports to the swarm.
#[derive(Debug)]
pub enum Event {
    /// Data is forwarded between two endpoints.
    StartCopy { dialer_addr: Multiaddr, dst_addr: Multiaddr },
    /// An endpoint listens on an address.
    Listen { listen_peer_id: PeerId, listen_addr: Multiaddr },
    /// An endpoint could not listen or dial.
    ListenOrDialFailed { err: IoError },
    /// An endpoint dials a peer that does not listen.
    ConnectToNotListenPeer { dialer_addr: Multiaddr, dst_peer_id: PeerId },
}

/// What a connection handler reports to the behaviour.
#[derive(Debug)]
pub enum ConnectionHandlerOutEvent<S> {
    DialSuccess { dialer_connection: Connection<S>, connection: Connection<S> },
    ConnectSuccess { connection: Connection<S>, dst_addr: Multiaddr, dst_peer_id: PeerId },
    ConnectFailed { err: IoError, dst_addr: Multiaddr, dst_peer_id: PeerId },
    ListenSuccess { listen_peer_id: PeerId, listen_addr: Multiaddr },
    ListenOrDialFailed { err: IoError },
}

/// What the behaviour asks of a connection handler.
#[derive(Debug)]
pub enum ConnectionHandlerInEvent {
    Connect { dst_addr: Multiaddr, dst_peer_id: PeerId, dialer_addr: Multiaddr },
}

} // verus!
