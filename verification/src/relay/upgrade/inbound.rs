//! The exchanges with which endpoints ask a relay for something.

use vstd::prelude::*;

use super::{UpgradeAction, UpgradeError};
use crate::address::{
    addr_view, multiaddr_of_text, peer_id_of_text, peer_view, Multiaddr, PeerId,
};
use crate::connection::Connection;
use crate::error::IoError;
use crate::message::{failed_with, DialRequest, DialResponse, ListenResponse, Outcome};
use crate::AUTO_RELAY_DIAL_PROTOCOL;
use crate::AUTO_RELAY_LISTEN_PROTOCOL;

verus! {

/// The exchange of a relay on a substream that an endpoint opened. Requests for connections go to
/// the behaviour through a sender of type `Q`.
#[derive(Debug)]
pub struct InboundUpgrade<Q> {
    pub remote_addr: Option<Multiaddr>,
    pub connect_request_sender: Q,
}

/// A request for a connection to a listening endpoint. What comes of it goes to the sender.
#[derive(Debug)]
pub struct ConnectRequest<O> {
    pub dst_peer_id: PeerId,
    pub dst_addr: Multiaddr,
    pub dialer_addr: Multiaddr,
    pub connection_sender: O,
}

/// An endpoint that listens.
#[derive(Debug)]
pub struct ListenRequest {
    pub listen_peer_id: PeerId,
    pub listen_addr: Multiaddr,
}

/// A dial that the relay tries to do.
#[derive(Debug)]
pub struct Dial {
    pub dst_peer_id: PeerId,
    pub dst_addr: Multiaddr,
    pub dialer_addr: Multiaddr,
}

/// What comes of the request to dial.
#[derive(Debug)]
pub enum DialDecision {
    /// The exchange fails without an answer.
    Fail { err: UpgradeError },
    /// The answer is sent, and the exchange fails whether or not it could be.
    Refuse { response: DialResponse, err: UpgradeError },
    /// The behaviour is asked for a connection.
    Ask { dial: Dial },
}

/// A dial that is done.
#[derive(Debug)]
pub struct Dialed<S> {
    pub dialer_addr: Multiaddr,
    pub connection: Connection<S>,
}

/// What comes of a dial when the behaviour has answered.
#[derive(Debug)]
pub enum DialAnswer<S> {
    /// The exchange fails without an answer.
    Fail { err: UpgradeError },
    /// The answer is sent, and the exchange fails whether or not it could be.
    Refuse { response: DialResponse, err: UpgradeError },
    /// The answer is sent, and the exchange goes on.
    Accept { response: DialResponse, dialed: Dialed<S> },
}

/// What comes of the request to be listened for.
#[derive(Debug)]
pub enum ListenDecision {
    /// The exchange fails without an answer.
    Fail { err: UpgradeError },
    /// The answer is sent, and the exchange fails whether or not it could be.
    Refuse { response: ListenResponse, err: UpgradeError },
    /// The answer is sent, and the exchange goes on.
    Accept { response: ListenResponse, request: ListenRequest },
}

impl DialDecision {
    /// The request is refused, and the endpoint is told what is wrong with its text.
    pub open spec fn refuses_with(self, error: UpgradeError, reason: Seq<char>) -> bool {
        &&& self matches DialDecision::Refuse { response, err }
        &&& err == error
        &&& failed_with(response.result, reason)
    }

    /// The behaviour is asked for a connection.
    pub open spec fn asks(self, peer_id: Seq<u8>, addr: Seq<u8>, dialer_addr: Multiaddr) -> bool {
        &&& self matches DialDecision::Ask { dial }
        &&& dial.dst_peer_id@ == peer_id
        &&& dial.dst_addr@ == addr
        &&& dial.dialer_addr == dialer_addr
    }

    /// What comes of a request whose texts were parsed. The first thing that is wrong with it
    /// decides.
    pub open spec fn decides(
        self,
        dialer_addr: Multiaddr,
        request: DialRequest,
        peer_id: Result<Seq<u8>, Seq<char>>,
        addr: Result<Seq<u8>, Seq<char>>,
    ) -> bool {
        match (peer_id, addr) {
            (Err(reason), _) => self.refuses_with(
                UpgradeError::InvalidDstPeerId(request.peer_id),
                reason,
            ),
            (Ok(_), Err(reason)) => self.refuses_with(
                UpgradeError::InvalidDstAddr(request.addr),
                reason,
            ),
            (Ok(peer_id), Ok(addr)) => self.asks(peer_id, addr, dialer_addr),
        }
    }
}

impl ListenDecision {
    /// The request is refused, and the endpoint is told what is wrong with its text.
    pub open spec fn refuses_with(self, error: UpgradeError, reason: Seq<char>) -> bool {
        &&& self matches ListenDecision::Refuse { response, err }
        &&& err == error
        &&& failed_with(response.result, reason)
    }

    /// The request is granted.
    pub open spec fn accepts(self, peer_id: Seq<u8>, addr: Seq<u8>) -> bool {
        &&& self matches ListenDecision::Accept { response, request }
        &&& response.result == Some(Outcome::Success)
        &&& request.listen_peer_id@ == peer_id
        &&& request.listen_addr@ == addr
    }

    /// What comes of a request whose texts were parsed. The first thing that is wrong with it
    /// decides.
    pub open spec fn decides(
        self,
        request: crate::message::ListenRequest,
        peer_id: Result<Seq<u8>, Seq<char>>,
        addr: Result<Seq<u8>, Seq<char>>,
    ) -> bool {
        match (peer_id, addr) {
            (Err(reason), _) => self.refuses_with(
                UpgradeError::InvalidListenPeerId(request.listen_peer_id),
                reason,
            ),
            (Ok(_), Err(reason)) => self.refuses_with(
                UpgradeError::InvalidListenAddr(request.listen_addr),
                reason,
            ),
            (Ok(peer_id), Ok(addr)) => self.accepts(peer_id, addr),
        }
    }
}

impl<S> DialAnswer<S> {
    /// What comes of a dial when the behaviour has answered; `None` if it is gone.
    pub open spec fn answers(
        self,
        dial: Dial,
        outcome: Option<Result<Connection<S>, IoError>>,
    ) -> bool {
        match outcome {
            None => self == (DialAnswer::<S>::Fail { err: UpgradeError::BehaviourDropped }),
            Some(Err(error)) => {
                &&& self matches DialAnswer::Refuse { response, err }
                &&& err == (UpgradeError::ConnectFailed { addr: dial.dst_addr, err: error })
                &&& failed_with(response.result, error.text())
            },
            Some(Ok(connection)) => {
                &&& self matches DialAnswer::Accept { response, dialed }
                &&& response.result == Some(Outcome::Success)
                &&& dialed == (Dialed { dialer_addr: dial.dialer_addr, connection })
            },
        }
    }
}

/// Which exchange a protocol is for, if it is one of the relay's.
pub fn upgrade_inbound(info: &String) -> (r: Option<UpgradeAction>)
    ensures
        r == if info@ == AUTO_RELAY_DIAL_PROTOCOL@ {
            Some(UpgradeAction::Dial)
        } else if info@ == AUTO_RELAY_LISTEN_PROTOCOL@ {
            Some(UpgradeAction::Listen)
        } else {
            None
        },
{
    if *info == AUTO_RELAY_DIAL_PROTOCOL.to_owned() {
        Some(UpgradeAction::Dial)
    } else if *info == AUTO_RELAY_LISTEN_PROTOCOL.to_owned() {
        Some(UpgradeAction::Listen)
    } else {
        None
    }
}

impl<Q> InboundUpgrade<Q> {
    pub fn new(remote_addr: Option<Multiaddr>, connect_request_sender: Q) -> (r: Self)
        ensures
            r == (InboundUpgrade { remote_addr, connect_request_sender }),
    {
        InboundUpgrade { remote_addr, connect_request_sender }
    }

    /// The protocols of the exchanges.
    pub fn protocol_info(&self) -> (r: [&'static str; 2])
        ensures
            r[0]@ == AUTO_RELAY_DIAL_PROTOCOL@,
            r[1]@ == AUTO_RELAY_LISTEN_PROTOCOL@,
    {
        [AUTO_RELAY_DIAL_PROTOCOL, AUTO_RELAY_LISTEN_PROTOCOL]
    }

    /// Decides on what was received of the request to dial: an error of the stream, its end, or a
    /// request. The address of the dialer is known by then.
    pub fn dial_request(&self, received: Result<Option<DialRequest>, IoError>) -> (r: DialDecision)
        requires
            self.remote_addr is Some,
        ensures
            match received {
                Err(err) => r == (DialDecision::Fail { err: UpgradeError::Io(err) }),
                Ok(None) => r == (DialDecision::Fail { err: UpgradeError::UnexpectedStreamClosed }),
                Ok(Some(request)) => r.decides(
                    self.remote_addr->0,
                    request,
                    peer_id_of_text(request.peer_id@),
                    multiaddr_of_text(request.addr@),
                ),
            },
    {
        match received {
            Err(err) => DialDecision::Fail { err: UpgradeError::Io(err) },
            Ok(None) => DialDecision::Fail { err: UpgradeError::UnexpectedStreamClosed },
            Ok(Some(request)) => {
                let peer_id = PeerId::parse(request.peer_id.as_str());
                let addr = Multiaddr::parse(request.addr.as_str());
                self.decide_dial(request, peer_id, addr)
            },
        }
    }

    /// Decides on the request to dial when its texts were parsed.
    pub fn decide_dial(
        &self,
        request: DialRequest,
        peer_id: Result<PeerId, String>,
        addr: Result<Multiaddr, String>,
    ) -> (r: DialDecision)
        requires
            self.remote_addr is Some,
        ensures
            r.decides(self.remote_addr->0, request, peer_view(peer_id), addr_view(addr)),
    {
        let dst_peer_id = match peer_id {
            Err(reason) => {
                return DialDecision::Refuse {
                    response: DialResponse { result: Some(Outcome::Failed { reason }) },
                    err: UpgradeError::InvalidDstPeerId(request.peer_id),
                };
            },
            Ok(peer_id) => peer_id,
        };
        let dst_addr = match addr {
            Err(reason) => {
                return DialDecision::Refuse {
                    response: DialResponse { result: Some(Outcome::Failed { reason }) },
                    err: UpgradeError::InvalidDstAddr(request.addr),
                };
            },
            Ok(addr) => addr,
        };
        let dialer_addr = self.remote_addr.as_ref().unwrap().clone();
        DialDecision::Ask { dial: Dial { dst_peer_id, dst_addr, dialer_addr } }
    }

    /// Decides on what was received of the request to be listened for: an error of the stream, its
    /// end, or a request.
    pub fn listen_request(
        &self,
        received: Result<Option<crate::message::ListenRequest>, IoError>,
    ) -> (r: ListenDecision)
        ensures
            match received {
                Err(err) => r == (ListenDecision::Fail { err: UpgradeError::Io(err) }),
                Ok(None) => r == (ListenDecision::Fail {
                    err: UpgradeError::UnexpectedStreamClosed,
                }),
                Ok(Some(request)) => r.decides(
                    request,
                    peer_id_of_text(request.listen_peer_id@),
                    multiaddr_of_text(request.listen_addr@),
                ),
            },
    {
        match received {
            Err(err) => ListenDecision::Fail { err: UpgradeError::Io(err) },
            Ok(None) => ListenDecision::Fail { err: UpgradeError::UnexpectedStreamClosed },
            Ok(Some(request)) => {
                let peer_id = PeerId::parse(request.listen_peer_id.as_str());
                let addr = Multiaddr::parse(request.listen_addr.as_str());
                decide_listen(request, peer_id, addr)
            },
        }
    }
}

/// Decides on the request to be listened for when its texts were parsed.
pub fn decide_listen(
    request: crate::message::ListenRequest,
    peer_id: Result<PeerId, String>,
    addr: Result<Multiaddr, String>,
) -> (r: ListenDecision)
    ensures
        r.decides(request, peer_view(peer_id), addr_view(addr)),
{
    let listen_peer_id = match peer_id {
        Err(reason) => {
            return ListenDecision::Refuse {
                response: ListenResponse { result: Some(Outcome::Failed { reason }) },
                err: UpgradeError::InvalidListenPeerId(request.listen_peer_id),
            };
        },
        Ok(peer_id) => peer_id,
    };
    match addr {
        Err(reason) => ListenDecision::Refuse {
            response: ListenResponse { result: Some(Outcome::Failed { reason }) },
            err: UpgradeError::InvalidListenAddr(request.listen_addr),
        },
        Ok(listen_addr) => ListenDecision::Accept {
            response: ListenResponse { result: Some(Outcome::Success) },
            request: ListenRequest { listen_peer_id, listen_addr },
        },
    }
}

impl Dial {
    /// What the behaviour is asked.
    pub fn connect_request<O>(&self, connection_sender: O) -> (r: ConnectRequest<O>)
        ensures
            r == (ConnectRequest {
                dst_peer_id: self.dst_peer_id,
                dst_addr: self.dst_addr,
                dialer_addr: self.dialer_addr,
                connection_sender,
            }),
    {
        ConnectRequest {
            dst_peer_id: self.dst_peer_id.clone(),
            dst_addr: self.dst_addr.clone(),
            dialer_addr: self.dialer_addr.clone(),
            connection_sender,
        }
    }

    /// Goes on when the behaviour was asked; it was not if it is gone.
    pub fn asked(self, sent: bool) -> (r: Result<Dial, UpgradeError>)
        ensures
            r == if sent {
                Ok::<Dial, UpgradeError>(self)
            } else {
                Err(UpgradeError::BehaviourDropped)
            },
    {
        if sent {
            Ok(self)
        } else {
            Err(UpgradeError::BehaviourDropped)
        }
    }

    /// Decides on what the behaviour answered; `None` if it is gone.
    pub fn answered<S>(self, outcome: Option<Result<Connection<S>, IoError>>) -> (r: DialAnswer<S>)
        ensures
            r.answers(self, outcome),
    {
        match outcome {
            None => DialAnswer::Fail { err: UpgradeError::BehaviourDropped },
            Some(Err(err)) => {
                let reason = err.message();
                DialAnswer::Refuse {
                    response: DialResponse { result: Some(Outcome::Failed { reason }) },
                    err: UpgradeError::ConnectFailed { addr: self.dst_addr, err },
                }
            },
            Some(Ok(connection)) => DialAnswer::Accept {
                response: DialResponse { result: Some(Outcome::Success) },
                dialed: Dialed { dialer_addr: self.dialer_addr, connection },
            },
        }
    }
}

impl<S> Dialed<S> {
    /// Goes on when the answer was sent.
    pub fn written(self, sent: bool) -> (r: Result<Dialed<S>, UpgradeError>)
        ensures
            r == if sent {
                Ok::<Dialed<S>, UpgradeError>(self)
            } else {
                Err(UpgradeError::UnexpectedStreamClosed)
            },
    {
        if sent {
            Ok(self)
        } else {
            Err(UpgradeError::UnexpectedStreamClosed)
        }
    }

    /// Ends the exchange: the connection of the dialer is what is left of the stream. It comes
    /// first, and the one that was dialed second.
    pub fn finish(self, read_buffer: bytes::Bytes, stream: S) -> (r: (Connection<S>, Connection<S>))
        ensures
            r == (
                Connection {
                    remote_addr: self.dialer_addr,
                    remaining_buf: read_buffer,
                    sub_stream: stream,
                },
                self.connection,
            ),
    {
        (Connection::new(self.dialer_addr, read_buffer, stream), self.connection)
    }
}

impl ListenRequest {
    /// Ends the exchange when the answer was sent.
    pub fn written(self, sent: Result<(), IoError>) -> (r: Result<ListenRequest, UpgradeError>)
        ensures
            r == match sent {
                Ok(_) => Ok::<ListenRequest, UpgradeError>(self),
                Err(err) => Err(UpgradeError::Io(err)),
            },
    {
        match sent {
            Ok(_) => Ok(self),
            Err(err) => Err(UpgradeError::Io(err)),
        }
    }
}

} // verus!
