//! The exchange with which a relay hands a connection to a client.

use std::sync::Arc;

use vstd::prelude::*;

use super::{UpgradeAction, UpgradeError};
use crate::address::{addr_view, multiaddr_of_text, multiaddr_text, Multiaddr};
use crate::client::message::ConnectRequest;
use crate::connection::Connection;
use crate::error::IoError;
use crate::message::{failed_with, ConnectResponse, Outcome};
use crate::AUTO_RELAY_CONNECT_PROTOCOL;

verus! {

#[verifier::external_type_specification]
#[verifier::external_body]
#[verifier::reject_recursive_types(K)]
#[verifier::reject_recursive_types(S)]
pub struct ExDashSet<K, S>(dashmap::DashSet<K, S>);

/// Calls `DashSet::contains`. The set is shared, and others may change it at any time: nothing is
/// claimed of what comes out.
#[verifier::external_body]
fn contains(addrs: &dashmap::DashSet<Multiaddr>, addr: &Multiaddr) -> (r: bool) {
    addrs.contains(addr)
}

/// The exchange of a client on a substream that a relay opened. The addresses that the client
/// listens on are shared with whoever makes it listen.
#[derive(Debug)]
pub struct InboundUpgrade {
    pub listen_addrs: Arc<dashmap::DashSet<Multiaddr>>,
}

/// A connection that a relay handed over.
#[derive(Debug)]
pub struct InboundUpgradeOutput<S> {
    pub listen_addr: Multiaddr,
    pub connection: Connection<S>,
}

/// A request that is granted.
#[derive(Debug)]
pub struct Accepted {
    pub dst_addr: Multiaddr,
    pub dialer_addr: Multiaddr,
}

/// What comes of a request.
#[derive(Debug)]
pub enum InboundDecision {
    /// The exchange fails without an answer.
    Fail { err: UpgradeError },
    /// The answer is sent, and the exchange fails whether or not it could be.
    Refuse { response: ConnectResponse, err: UpgradeError },
    /// The answer is sent and flushed, and the exchange goes on.
    Accept { response: ConnectResponse, accepted: Accepted },
}

/// The text that says that nobody listens on an address.
pub open spec fn not_listen_text(addr: Seq<u8>) -> Seq<char> {
    "dst addr "@ + multiaddr_text(addr) + " not listen"@
}

impl InboundDecision {
    /// The request holds a text that is no address, and is refused with that error.
    pub open spec fn refuses_with(self, error: UpgradeError) -> bool {
        &&& self matches InboundDecision::Refuse { response, err }
        &&& err == error
        &&& failed_with(response.result, error.text())
    }

    /// The request is refused since nobody listens on the address.
    pub open spec fn refuses_not_listen(self, addr: Seq<u8>) -> bool {
        &&& self matches InboundDecision::Refuse { response, err }
        &&& failed_with(response.result, not_listen_text(addr))
        &&& err matches UpgradeError::ActionFailed { action, reason: Some(reason) }
        &&& action == UpgradeAction::Connect
        &&& reason@ == not_listen_text(addr)
    }

    /// The request is granted.
    pub open spec fn accepts(self, dst_addr: Seq<u8>, dialer_addr: Seq<u8>) -> bool {
        &&& self matches InboundDecision::Accept { response, accepted }
        &&& response.result == Some(Outcome::Success)
        &&& accepted.dst_addr@ == dst_addr
        &&& accepted.dialer_addr@ == dialer_addr
    }

    /// What comes of a request whose texts were parsed, by whether the client listens on the
    /// address that it is for. The first thing that is wrong with it decides.
    pub open spec fn decides(
        self,
        request: ConnectRequest,
        dst_addr: Result<Seq<u8>, Seq<char>>,
        listening: bool,
        dialer_addr: Result<Seq<u8>, Seq<char>>,
    ) -> bool {
        match dst_addr {
            Err(_) => self.refuses_with(UpgradeError::InvalidAddr(request.dst_addr)),
            Ok(dst) => if !listening {
                self.refuses_not_listen(dst)
            } else {
                match dialer_addr {
                    Err(_) => self.refuses_with(UpgradeError::InvalidAddr(request.dialer_addr)),
                    Ok(dialer) => self.accepts(dst, dialer),
                }
            },
        }
    }
}

fn not_listen(addr: &Multiaddr) -> (r: String)
    ensures
        r@ == not_listen_text(addr@),
{
    "dst addr ".to_owned().concat(addr.text().as_str()).concat(" not listen")
}

fn refuse(err: UpgradeError) -> (r: InboundDecision)
    ensures
        r.refuses_with(err),
{
    let reason = err.message();
    InboundDecision::Refuse {
        response: ConnectResponse { result: Some(Outcome::Failed { reason }) },
        err,
    }
}

impl InboundUpgrade {
    pub fn new(listen_addrs: Arc<dashmap::DashSet<Multiaddr>>) -> (r: Self)
        ensures
            r.listen_addrs == listen_addrs,
    {
        InboundUpgrade { listen_addrs }
    }

    /// The protocol of the exchange.
    pub fn protocol_info(&self) -> (r: &'static str)
        ensures
            r@ == AUTO_RELAY_CONNECT_PROTOCOL@,
    {
        AUTO_RELAY_CONNECT_PROTOCOL
    }

    /// Decides on what was received: an error of the stream, its end, or a request. Whether the
    /// client listens on the address of a request is up to the shared set.
    pub fn on_request(&self, received: Result<Option<ConnectRequest>, IoError>) -> (r:
        InboundDecision)
        ensures
            match received {
                Err(err) => r == (InboundDecision::Fail { err: UpgradeError::Io(err) }),
                Ok(None) => r == (InboundDecision::Fail {
                    err: UpgradeError::UnexpectedStreamClosed,
                }),
                Ok(Some(request)) => {
                    let dst_addr = multiaddr_of_text(request.dst_addr@);
                    let dialer_addr = multiaddr_of_text(request.dialer_addr@);
                    ||| r.decides(request, dst_addr, true, dialer_addr)
                    ||| r.decides(request, dst_addr, false, dialer_addr)
                },
            },
    {
        match received {
            Err(err) => InboundDecision::Fail { err: UpgradeError::Io(err) },
            Ok(None) => InboundDecision::Fail { err: UpgradeError::UnexpectedStreamClosed },
            Ok(Some(request)) => {
                let dst_addr = Multiaddr::parse(request.dst_addr.as_str());
                let dialer_addr = Multiaddr::parse(request.dialer_addr.as_str());
                let listening = match &dst_addr {
                    Ok(addr) => contains(&self.listen_addrs, addr),
                    Err(_) => false,
                };
                decide(request, dst_addr, listening, dialer_addr)
            },
        }
    }

    /// Ends a granted exchange: the connection of the dialer is what is left of the stream.
    pub fn finish<S>(accepted: Accepted, read_buffer: bytes::Bytes, stream: S) -> (r:
        InboundUpgradeOutput<S>)
        ensures
            r == (InboundUpgradeOutput {
                listen_addr: accepted.dst_addr,
                connection: Connection {
                    remote_addr: accepted.dialer_addr,
                    remaining_buf: read_buffer,
                    sub_stream: stream,
                },
            }),
    {
        InboundUpgradeOutput {
            listen_addr: accepted.dst_addr,
            connection: Connection::new(accepted.dialer_addr, read_buffer, stream),
        }
    }
}

/// Decides on a request whose texts were parsed, by whether the client listens on the address that
/// it is for.
pub fn decide(
    request: ConnectRequest,
    dst_addr: Result<Multiaddr, String>,
    listening: bool,
    dialer_addr: Result<Multiaddr, String>,
) -> (r: InboundDecision)
    ensures
        r.decides(request, addr_view(dst_addr), listening, addr_view(dialer_addr)),
{
    let dst_addr = match dst_addr {
        Err(_) => {
            return refuse(UpgradeError::InvalidAddr(request.dst_addr));
        },
        Ok(dst_addr) => dst_addr,
    };
    if !listening {
        return InboundDecision::Refuse {
            response: ConnectResponse {
                result: Some(Outcome::Failed { reason: not_listen(&dst_addr) }),
            },
            err: UpgradeError::ActionFailed {
                action: UpgradeAction::Connect,
                reason: Some(not_listen(&dst_addr)),
            },
        };
    }
    match dialer_addr {
        Err(_) => refuse(UpgradeError::InvalidAddr(request.dialer_addr)),
        Ok(dialer_addr) => InboundDecision::Accept {
            response: ConnectResponse { result: Some(Outcome::Success) },
            accepted: Accepted { dst_addr, dialer_addr },
        },
    }
}

impl Accepted {
    /// Goes on when the answer was sent, and again when it was flushed.
    pub fn written(self, written: Result<(), IoError>) -> (r: Result<Accepted, UpgradeError>)
        ensures
            r == match written {
                Ok(_) => Ok::<Accepted, UpgradeError>(self),
                Err(err) => Err(UpgradeError::Io(err)),
            },
    {
        match written {
            Ok(_) => Ok(self),
            Err(err) => Err(UpgradeError::Io(err)),
        }
    }
}

} // verus!
