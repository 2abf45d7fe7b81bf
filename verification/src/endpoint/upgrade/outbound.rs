//! The exchanges with which an endpoint asks its relay for something.

use vstd::prelude::*;

use super::{UpgradeAction, UpgradeError};
use crate::address::{multiaddr_text, peer_id_of_text, peer_id_text, Multiaddr, PeerId};
use crate::connection::Connection;
use crate::error::IoError;
use crate::message::{DialRequest, DialResponse, ListenRequest, ListenResponse, Outcome};
use crate::AUTO_RELAY_DIAL_PROTOCOL;
use crate::AUTO_RELAY_LISTEN_PROTOCOL;

verus! {

/// The request that an endpoint makes of its relay on a substream of its own.
#[derive(Debug)]
pub enum OutboundUpgrade {
    Dial { dst_peer_id: PeerId, dst_addr: Multiaddr },
    Listen { listen_peer_id: PeerId, listen_addr: Multiaddr },
}

/// What the result in an answer means for the exchange.
pub open spec fn answered(action: UpgradeAction, result: Option<Outcome>) -> Result<
    (),
    UpgradeError,
> {
    match result {
        None => Err(UpgradeError::UnexpectedResult { action }),
        Some(Outcome::Failed { reason }) => Err(
            UpgradeError::ActionFailed { action, reason: Some(reason) },
        ),
        Some(Outcome::Success) => Ok(()),
    }
}

fn check_result(action: UpgradeAction, result: Option<Outcome>) -> (r: Result<(), UpgradeError>)
    ensures
        r == answered(action, result),
{
    match result {
        None => Err(UpgradeError::UnexpectedResult { action }),
        Some(Outcome::Failed { reason }) => Err(
            UpgradeError::ActionFailed { action, reason: Some(reason) },
        ),
        Some(Outcome::Success) => Ok(()),
    }
}

impl OutboundUpgrade {
    pub fn new_dial(dst_peer_id: PeerId, dst_addr: Multiaddr) -> (r: Self)
        ensures
            r == (OutboundUpgrade::Dial { dst_peer_id, dst_addr }),
    {
        OutboundUpgrade::Dial { dst_peer_id, dst_addr }
    }

    pub fn new_listen(listen_peer_id: PeerId, listen_addr: Multiaddr) -> (r: Self)
        ensures
            r == (OutboundUpgrade::Listen { listen_peer_id, listen_addr }),
    {
        OutboundUpgrade::Listen { listen_peer_id, listen_addr }
    }

    /// The protocol of the exchange.
    pub fn protocol_info(&self) -> (r: &'static str)
        ensures
            r@ == match self {
                OutboundUpgrade::Dial { .. } => AUTO_RELAY_DIAL_PROTOCOL@,
                OutboundUpgrade::Listen { .. } => AUTO_RELAY_LISTEN_PROTOCOL@,
            },
    {
        match self {
            OutboundUpgrade::Dial { .. } => AUTO_RELAY_DIAL_PROTOCOL,
            OutboundUpgrade::Listen { .. } => AUTO_RELAY_LISTEN_PROTOCOL,
        }
    }
}

/// The request holds the texts of a peer id and an address, and the peer id can be read back.
pub open spec fn asks_dial(request: DialRequest, peer_id: Seq<u8>, addr: Seq<u8>) -> bool {
    &&& request.peer_id@ == peer_id_text(peer_id)
    &&& request.addr@ == multiaddr_text(addr)
    &&& peer_id_of_text(request.peer_id@) == Ok::<Seq<u8>, Seq<char>>(peer_id)
}

/// The request holds the texts of a peer id and an address, and the peer id can be read back.
pub open spec fn asks_listen(request: ListenRequest, peer_id: Seq<u8>, addr: Seq<u8>) -> bool {
    &&& request.listen_peer_id@ == peer_id_text(peer_id)
    &&& request.listen_addr@ == multiaddr_text(addr)
    &&& peer_id_of_text(request.listen_peer_id@) == Ok::<Seq<u8>, Seq<char>>(peer_id)
}

/// The request for a connection to a peer.
pub fn dial_request(dst_peer_id: &PeerId, dst_addr: &Multiaddr) -> (r: DialRequest)
    ensures
        asks_dial(r, dst_peer_id@, dst_addr@),
{
    DialRequest { peer_id: dst_peer_id.text(), addr: dst_addr.text() }
}

/// The request to be listened for.
pub fn listen_request(listen_peer_id: &PeerId, listen_addr: &Multiaddr) -> (r: ListenRequest)
    ensures
        asks_listen(r, listen_peer_id@, listen_addr@),
{
    ListenRequest { listen_peer_id: listen_peer_id.text(), listen_addr: listen_addr.text() }
}

/// Goes on when a request was sent.
pub fn request_sent(sent: Result<(), IoError>) -> (r: Result<(), UpgradeError>)
    ensures
        r == match sent {
            Ok(_) => Ok::<(), UpgradeError>(()),
            Err(err) => Err(UpgradeError::Io(err)),
        },
{
    match sent {
        Ok(_) => Ok(()),
        Err(err) => Err(UpgradeError::Io(err)),
    }
}

/// Goes on when the answer to a dial was received: an error of the stream, its end, or an answer.
pub fn dial_answered(received: Result<Option<DialResponse>, IoError>) -> (r: Result<
    (),
    UpgradeError,
>)
    ensures
        r == match received {
            Err(err) => Err(UpgradeError::Io(err)),
            Ok(None) => Err(UpgradeError::UnexpectedStreamClosed),
            Ok(Some(response)) => answered(UpgradeAction::Dial, response.result),
        },
{
    match received {
        Err(err) => Err(UpgradeError::Io(err)),
        Ok(None) => Err(UpgradeError::UnexpectedStreamClosed),
        Ok(Some(response)) => check_result(UpgradeAction::Dial, response.result),
    }
}

/// Ends a dial that the relay granted: the connection is what is left of the stream.
pub fn dialed<S>(dst_addr: Multiaddr, read_buffer: bytes::Bytes, stream: S) -> (r: Connection<S>)
    ensures
        r == (Connection {
            remote_addr: dst_addr,
            remaining_buf: read_buffer,
            sub_stream: stream,
        }),
{
    Connection::new(dst_addr, read_buffer, stream)
}

/// Ends the exchange when the answer to a listen was received: an error of the stream, its end, or
/// an answer.
pub fn listen_answered(received: Result<Option<ListenResponse>, IoError>) -> (r: Result<
    (),
    UpgradeError,
>)
    ensures
        r == match received {
            Err(err) => Err(UpgradeError::Io(err)),
            Ok(None) => Err(UpgradeError::UnexpectedStreamClosed),
            Ok(Some(response)) => answered(UpgradeAction::Listen, response.result),
        },
{
    match received {
        Err(err) => Err(UpgradeError::Io(err)),
        Ok(None) => Err(UpgradeError::UnexpectedStreamClosed),
        Ok(Some(response)) => check_result(UpgradeAction::Listen, response.result),
    }
}

} // verus!
