//! The exchange with which a relay hands a connection to a listening endpoint.

use vstd::prelude::*;

use crate::address::{multiaddr_text, peer_id_of_text, peer_id_text, Multiaddr, PeerId};
use crate::connection::Connection;
use crate::error::IoError;
use crate::message::{ConnectRequest, ConnectResponse, Outcome};
use crate::relay::upgrade::{UpgradeAction, UpgradeError};
use crate::AUTO_RELAY_CONNECT_PROTOCOL;

verus! {

/// The request of a relay to an endpoint, on a substream of its own.
#[derive(Debug)]
pub struct OutboundUpgrade {
    pub dialer_addr: Multiaddr,
    pub dst_peer_id: PeerId,
    pub dst_addr: Multiaddr,
}

/// The request holds the texts of a peer id and two addresses, and the peer id can be read back.
pub open spec fn asks(
    request: ConnectRequest,
    dst_addr: Seq<u8>,
    dst_peer_id: Seq<u8>,
    dialer_addr: Seq<u8>,
) -> bool {
    &&& request.dst_addr@ == multiaddr_text(dst_addr)
    &&& request.dst_peer_id@ == peer_id_text(dst_peer_id)
    &&& request.dialer_addr@ == multiaddr_text(dialer_addr)
    &&& peer_id_of_text(request.dst_peer_id@) == Ok::<Seq<u8>, Seq<char>>(dst_peer_id)
}

/// What an answer means for the exchange.
pub open spec fn answer(received: Result<Option<ConnectResponse>, IoError>) -> Result<
    (),
    UpgradeError,
> {
    match received {
        Err(_) => Err(UpgradeError::UnexpectedStreamClosed),
        Ok(None) => Err(UpgradeError::UnexpectedStreamClosed),
        Ok(Some(response)) => match response.result {
            None => Err(UpgradeError::UnexpectedResult),
            Some(Outcome::Failed { reason }) => Err(
                UpgradeError::ActionFailed {
                    action: UpgradeAction::Connect,
                    reason: Some(reason),
                },
            ),
            Some(Outcome::Success) => Ok(()),
        },
    }
}

impl OutboundUpgrade {
    pub fn new(dialer_addr: Multiaddr, dst_peer_id: PeerId, dst_addr: Multiaddr) -> (r: Self)
        ensures
            r == (OutboundUpgrade { dialer_addr, dst_peer_id, dst_addr }),
    {
        OutboundUpgrade { dialer_addr, dst_peer_id, dst_addr }
    }

    /// The protocol of the exchange.
    pub fn protocol_info(&self) -> (r: &'static str)
        ensures
            r@ == AUTO_RELAY_CONNECT_PROTOCOL@,
    {
        AUTO_RELAY_CONNECT_PROTOCOL
    }

    /// The request that is sent.
    pub fn request(&self) -> (r: ConnectRequest)
        ensures
            asks(r, self.dst_addr@, self.dst_peer_id@, self.dialer_addr@),
    {
        ConnectRequest {
            dst_addr: self.dst_addr.text(),
            dst_peer_id: self.dst_peer_id.text(),
            dialer_addr: self.dialer_addr.text(),
        }
    }

    /// Goes on when the request was sent.
    pub fn request_sent(sent: Result<(), IoError>) -> (r: Result<(), UpgradeError>)
        ensures
            r == match sent {
                Ok(_) => Ok::<(), UpgradeError>(()),
                Err(_) => Err(UpgradeError::UnexpectedStreamClosed),
            },
    {
        match sent {
            Ok(_) => Ok(()),
            Err(_) => Err(UpgradeError::UnexpectedStreamClosed),
        }
    }

    /// Goes on when the answer was received: an error of the stream, its end, or an answer.
    pub fn answered(received: Result<Option<ConnectResponse>, IoError>) -> (r: Result<
        (),
        UpgradeError,
    >)
        ensures
            r == answer(received),
    {
        match received {
            Err(_) => Err(UpgradeError::UnexpectedStreamClosed),
            Ok(None) => Err(UpgradeError::UnexpectedStreamClosed),
            Ok(Some(ConnectResponse { result: None })) => Err(UpgradeError::UnexpectedResult),
            Ok(Some(ConnectResponse { result: Some(Outcome::Failed { reason }) })) => Err(
                UpgradeError::ActionFailed {
                    action: UpgradeAction::Connect,
                    reason: Some(reason),
                },
            ),
            Ok(Some(ConnectResponse { result: Some(Outcome::Success) })) => Ok(()),
        }
    }

    /// Ends an exchange that the endpoint granted: the connection is what is left of the stream.
    pub fn finish<S>(self, read_buffer: bytes::Bytes, stream: S) -> (r: Connection<S>)
        ensures
            r == (Connection {
                remote_addr: self.dst_addr,
                remaining_buf: read_buffer,
                sub_stream: stream,
            }),
    {
        Connection::new(self.dst_addr, read_buffer, stream)
    }
}

} // verus!
