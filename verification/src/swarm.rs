//! What behaviours, connection handlers and transports exchange with the swarm.

use libp2p_core::transport::ListenerId;
use libp2p_swarm::ConnectionId;
use vstd::prelude::*;

use crate::address::{Multiaddr, PeerId};
use crate::error::{Cause, IoError, IoErrorKind};

verus! {

/// Whether a connection is kept open.
#[derive(Debug, Clone, Copy, PartialEq, Eq, Structural)]
pub enum KeepAlive {
    Yes,
    No,
}

/// Which handler of a peer an event is for.
#[derive(Debug, Clone, Copy, PartialEq, Eq, Structural)]
pub enum NotifyHandler {
    Any,
}

/// What a behaviour asks of the swarm: `E` are its own events, `I` the events for its handlers and
/// `H` its handlers.
#[derive(Debug)]
pub enum NetworkBehaviourAction<E, I, H> {
    GenerateEvent(E),
    Dial { peer_id: PeerId, address: Multiaddr, handler: H },
    NotifyHandler { peer_id: PeerId, handler: NotifyHandler, event: I },
}

/// What is asked of the swarm is only to take events.
pub open spec fn only_events<E, I, H>(actions: Seq<NetworkBehaviourAction<E, I, H>>) -> bool {
    forall|i: int| 0 <= i < actions.len() ==> (#[trigger] actions[i]) is GenerateEvent
}

/// What the swarm tells a behaviour.
#[derive(Debug)]
pub enum FromSwarm {
    ConnectionEstablished { peer_id: PeerId, connection_id: ConnectionId },
    ConnectionClosed { peer_id: PeerId, connection_id: ConnectionId, remote_addr: Multiaddr },
    AddressChange,
    DialFailure { peer_id: Option<PeerId>, error: String },
    ListenFailure,
    NewListener,
    NewListenAddr,
    ExpiredListenAddr,
    ListenerError,
    ListenerClosed,
    NewExternalAddr,
    ExpiredExternalAddr,
}

/// What a connection handler asks of its connection: `P` are the upgrades of the substreams that it
/// opens, `I` is what it keeps of each, and `E` are its events for the behaviour.
#[derive(Debug)]
pub enum ConnectionHandlerEvent<P, I, E> {
    OutboundSubstreamRequest { protocol: P, info: I },
    Custom(E),
}

/// Why a substream could not be negotiated.
#[derive(Debug)]
pub enum NegotiationError {
    Timeout,
    /// Any other failure, by its text.
    Failed { reason: String },
}

impl NegotiationError {
    pub open spec fn io_error(self) -> IoError {
        match self {
            NegotiationError::Timeout => IoError::Kind(IoErrorKind::TimedOut),
            NegotiationError::Failed { reason } => IoError::Caused {
                kind: IoErrorKind::Other,
                cause: Cause::Text(reason),
            },
        }
    }

    /// The failure as an I/O error.
    pub fn into_io_error(self) -> (r: IoError)
        ensures
            r == self.io_error(),
    {
        match self {
            NegotiationError::Timeout => IoError::Kind(IoErrorKind::TimedOut),
            NegotiationError::Failed { reason } => IoError::Caused {
                kind: IoErrorKind::Other,
                cause: Cause::Text(reason),
            },
        }
    }
}

/// A failure to negotiate is shown as an I/O error: one that timed out, or any other with its text.
pub open spec fn is_shown_as(error: NegotiationError, shown: IoError) -> bool {
    match error {
        NegotiationError::Timeout => shown == IoError::Kind(IoErrorKind::TimedOut),
        NegotiationError::Failed { reason } => {
            &&& shown matches IoError::Caused { kind, cause: Cause::Text(text) }
            &&& kind == IoErrorKind::Other
            &&& text == reason
        },
    }
}

/// A failure to negotiate that timed out is told apart from any other, whose text is kept.
pub proof fn lemma_negotiation_error_is_shown(error: NegotiationError, shown: IoError)
    requires
        call_ensures(NegotiationError::into_io_error, (error,), shown),
    ensures
        is_shown_as(error, shown),
        shown.kind_spec() == IoErrorKind::TimedOut <==> error is Timeout,
        error matches NegotiationError::Failed { reason } ==> shown.text() == reason@,
{
}

/// What a connection tells its handler: `N` comes of an inbound upgrade, `O` of an outbound one, and
/// `I` is what the handler kept of the latter.
#[derive(Debug)]
pub enum ConnectionEvent<N, O, I> {
    FullyNegotiatedInbound { protocol: N },
    FullyNegotiatedOutbound { protocol: O, info: I },
    AddressChange,
    DialUpgradeError { info: I, error: NegotiationError },
    ListenUpgradeError { error: NegotiationError },
}

/// Why a transport does not listen or dial.
#[derive(Debug)]
pub enum TransportError<E> {
    MultiaddrNotSupported(Multiaddr),
    Other(E),
}

/// What a transport tells the swarm: `U` comes of a connection, and `E` are its errors.
#[derive(Debug)]
pub enum TransportEvent<U, E> {
    NewAddress { listener_id: ListenerId, listen_addr: Multiaddr },
    AddressExpired { listener_id: ListenerId, listen_addr: Multiaddr },
    Incoming { listener_id: ListenerId, upgrade: U, local_addr: Multiaddr, send_back_addr: Multiaddr },
    ListenerClosed { listener_id: ListenerId, reason: Result<(), E> },
    ListenerError { listener_id: ListenerId, error: E },
}

/// What polling the receiving end of a channel gave.
#[derive(Debug)]
pub enum Received<T> {
    Pending,
    Item(T),
    /// Every sender is gone.
    Closed,
}

/// What polling the sending end of a channel for room gave.
#[derive(Debug)]
pub enum Readiness<E> {
    Pending,
    Ready,
    /// The receiver is gone.
    Failed(E),
}

/// What a poll comes to.
#[derive(Debug)]
pub enum Polled<T> {
    Ready(T),
    Pending,
}

} // verus!
