//! The exchange with which a relay hands a connection to an endpoint.

use vstd::prelude::*;

use super::{UpgradeAction, UpgradeError};
use crate::address::{
    addr_view, multiaddr_of_text, multiaddr_text, peer_id_of_text, peer_view, Multiaddr, PeerId,
};
use crate::connection::Connection;
use crate::error::IoError;
use crate::message::{failed_with, ConnectRequest, ConnectResponse, Outcome};
use crate::table::Key;
use crate::AUTO_RELAY_CONNECT_PROTOCOL;

verus! {

/// The exchange of an endpoint on a substream that a relay opened.
#[derive(Debug)]
pub struct InboundUpgrade {
    pub local_peer_id: PeerId,
    pub relay_peer_id: Option<PeerId>,
}

/// A connection that a relay handed over.
#[derive(Debug)]
pub struct InboundUpgradeOutput<S> {
    pub listen_peer_id: PeerId,
    pub listen_addr: Multiaddr,
    pub relay_peer_id: PeerId,
    pub connection: Connection<S>,
}

/// A request that is granted.
#[derive(Debug)]
pub struct Accepted {
    pub dst_addr: Multiaddr,
    pub dialer_addr: Multiaddr,
}

/// What comes of a request.
#[derive(Debug)]
pub enum InboundDecision {
    /// The exchange fails without an answer.
    Fail { err: UpgradeError },
    /// The answer is sent, and the exchange fails whether or not it could be.
    Refuse { response: ConnectResponse, err: UpgradeError },
    /// The answer is sent and flushed, and the exchange goes on.
    Accept { response: ConnectResponse, accepted: Accepted },
}

/// The text that says that nobody listens on an address.
pub open spec fn not_listen_text(addr: Seq<u8>) -> Seq<char> {
    "dst addr "@ + multiaddr_text(addr) + " not listen"@
}

impl InboundDecision {
    /// The request holds a text that is no address or no peer id, and is refused with that error.
    pub open spec fn refuses_with(self, error: UpgradeError) -> bool {
        &&& self matches InboundDecision::Refuse { response, err }
        &&& err == error
        &&& failed_with(response.result, error.text())
    }

    /// The request is refused since nobody listens on the address.
    pub open spec fn refuses_not_listen(self, addr: Seq<u8>) -> bool {
        &&& self matches InboundDecision::Refuse { response, err }
        &&& failed_with(response.result, not_listen_text(addr))
        &&& err matches UpgradeError::ActionFailed { action, reason: Some(reason) }
        &&& action == UpgradeAction::Connect
        &&& reason@ == not_listen_text(addr)
    }

    /// The request is granted.
    pub open spec fn accepts(self, dst_addr: Seq<u8>, dialer_addr: Seq<u8>) -> bool {
        &&& self matches InboundDecision::Accept { response, accepted }
        &&& response.result == Some(Outcome::Success)
        &&& accepted.dst_addr@ == dst_addr
        &&& accepted.dialer_addr@ == dialer_addr
    }

    /// What comes of a request whose texts were parsed. The first thing that is wrong with it
    /// decides.
    pub open spec fn decides(
        self,
        local_peer_id: Seq<u8>,
        request: ConnectRequest,
        dst_addr: Result<Seq<u8>, Seq<char>>,
        dst_peer_id: Result<Seq<u8>, Seq<char>>,
        dialer_addr: Result<Seq<u8>, Seq<char>>,
    ) -> bool {
        match (dst_addr, dst_peer_id) {
            (Err(_), _) => self.refuses_with(UpgradeError::InvalidAddr(request.dst_addr)),
            (Ok(_), Err(_)) => self.refuses_with(UpgradeError::InvalidPeerId(request.dst_peer_id)),
            (Ok(dst), Ok(peer)) => if peer != local_peer_id {
                self.refuses_not_listen(dst)
            } else {
                match dialer_addr {
                    Err(_) => self.refuses_with(UpgradeError::InvalidAddr(request.dialer_addr)),
                    Ok(dialer) => self.accepts(dst, dialer),
                }
            },
        }
    }
}

fn not_listen(addr: &Multiaddr) -> (r: String)
    ensures
        r@ == not_listen_text(addr@),
{
    "dst addr ".to_owned().concat(addr.text().as_str()).concat(" not listen")
}

fn refuse(err: UpgradeError) -> (r: InboundDecision)
    ensures
        r.refuses_with(err),
{
    let reason = err.message();
    InboundDecision::Refuse {
        response: ConnectResponse { result: Some(Outcome::Failed { reason }) },
        err,
    }
}

impl InboundUpgrade {
    pub fn new(local_peer_id: PeerId, relay_peer_id: Option<PeerId>) -> (r: Self)
        ensures
            r == (InboundUpgrade { local_peer_id, relay_peer_id }),
    {
        InboundUpgrade { local_peer_id, relay_peer_id }
    }

    /// The protocol of the exchange.
    pub fn protocol_info(&self) -> (r: &'static str)
        ensures
            r@ == AUTO_RELAY_CONNECT_PROTOCOL@,
    {
        AUTO_RELAY_CONNECT_PROTOCOL
    }

    /// Decides on what was received: an error of the stream, its end, or a request.
    pub fn on_request(&self, received: Result<Option<ConnectRequest>, IoError>) -> (r:
        InboundDecision)
        ensures
            match received {
                Err(err) => r == (InboundDecision::Fail { err: UpgradeError::Io(err) }),
                Ok(None) => r == (InboundDecision::Fail {
                    err: UpgradeError::UnexpectedStreamClosed,
                }),
                Ok(Some(request)) => r.decides(
                    self.local_peer_id@,
                    request,
                    multiaddr_of_text(request.dst_addr@),
                    peer_id_of_text(request.dst_peer_id@),
                    multiaddr_of_text(request.dialer_addr@),
                ),
            },
    {
        match received {
            Err(err) => InboundDecision::Fail { err: UpgradeError::Io(err) },
            Ok(None) => InboundDecision::Fail { err: UpgradeError::UnexpectedStreamClosed },
            Ok(Some(request)) => {
                let dst_addr = Multiaddr::parse(request.dst_addr.as_str());
                let dst_peer_id = PeerId::parse(request.dst_peer_id.as_str());
                let dialer_addr = Multiaddr::parse(request.dialer_addr.as_str());
                self.decide(request, dst_addr, dst_peer_id, dialer_addr)
            },
        }
    }

    /// Decides on a request whose texts were parsed.
    pub fn decide(
        &self,
        request: ConnectRequest,
        dst_addr: Result<Multiaddr, String>,
        dst_peer_id: Result<PeerId, String>,
        dialer_addr: Result<Multiaddr, String>,
    ) -> (r: InboundDecision)
        ensures
            r.decides(
                self.local_peer_id@,
                request,
                addr_view(dst_addr),
                peer_view(dst_peer_id),
                addr_view(dialer_addr),
            ),
    {
        let dst_addr = match dst_addr {
            Err(_) => {
                return refuse(UpgradeError::InvalidAddr(request.dst_addr));
            },
            Ok(dst_addr) => dst_addr,
        };
        let dst_peer_id = match dst_peer_id {
            Err(_) => {
                return refuse(UpgradeError::InvalidPeerId(request.dst_peer_id));
            },
            Ok(dst_peer_id) => dst_peer_id,
        };
        if !self.local_peer_id.same(&dst_peer_id) {
            return InboundDecision::Refuse {
                response: ConnectResponse {
                    result: Some(Outcome::Failed { reason: not_listen(&dst_addr) }),
                },
                err: UpgradeError::ActionFailed {
                    action: UpgradeAction::Connect,
                    reason: Some(not_listen(&dst_addr)),
                },
            };
        }
        match dialer_addr {
            Err(_) => refuse(UpgradeError::InvalidAddr(request.dialer_addr)),
            Ok(dialer_addr) => InboundDecision::Accept {
                response: ConnectResponse { result: Some(Outcome::Success) },
                accepted: Accepted { dst_addr, dialer_addr },
            },
        }
    }

    /// Ends a granted exchange: the connection of the dialer is what is left of the stream. The
    /// relay is known by then.
    pub fn finish<S>(self, accepted: Accepted, read_buffer: bytes::Bytes, stream: S) -> (r:
        InboundUpgradeOutput<S>)
        requires
            self.relay_peer_id is Some,
        ensures
            r == (InboundUpgradeOutput {
                listen_peer_id: self.local_peer_id,
                listen_addr: accepted.dst_addr,
                relay_peer_id: self.relay_peer_id->0,
                connection: Connection {
                    remote_addr: accepted.dialer_addr,
                    remaining_buf: read_buffer,
                    sub_stream: stream,
                },
            }),
    {
        InboundUpgradeOutput {
            listen_peer_id: self.local_peer_id,
            listen_addr: accepted.dst_addr,
            relay_peer_id: self.relay_peer_id.unwrap(),
            connection: Connection::new(accepted.dialer_addr, read_buffer, stream),
        }
    }
}

impl Accepted {
    /// Goes on when the answer was sent, and again when it was flushed.
    pub fn written(self, written: Result<(), IoError>) -> (r: Result<Accepted, UpgradeError>)
        ensures
            r == match written {
                Ok(_) => Ok::<Accepted, UpgradeError>(self),
                Err(err) => Err(UpgradeError::Io(err)),
            },
    {
        match written {
            Ok(_) => Ok(self),
            Err(err) => Err(UpgradeError::Io(err)),
        }
    }
}

} // verus!
