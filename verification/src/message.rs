//! The messages that endpoints and relays exchange.

use vstd::prelude::*;

verus! {

/// How a request went.
#[derive(Debug)]
pub enum Outcome {
    Success,
    Failed { reason: String },
}

/// An endpoint asks its relay for a connection to a peer.
#[derive(Debug)]
pub struct DialRequest {
    pub peer_id: String,
    pub addr: String,
}

/// The answer to a [`DialRequest`].
#[derive(Debug)]
pub struct DialResponse {
    pub result: Option<Outcome>,
}

/// An endpoint asks its relay to be listened for.
#[derive(Debug)]
pub struct ListenRequest {
    pub listen_peer_id: String,
    pub listen_addr: String,
}

/// The answer to a [`ListenRequest`].
#[derive(Debug)]
pub struct ListenResponse {
    pub result: Option<Outcome>,
}

/// A relay asks a listening endpoint to take a connection.
#[derive(Debug)]
pub struct ConnectRequest {
    pub dst_addr: String,
    pub dst_peer_id: String,
    pub dialer_addr: String,
}

/// The answer to a [`ConnectRequest`].
#[derive(Debug)]
pub struct ConnectResponse {
    pub result: Option<Outcome>,
}

/// Whether a result is the failure with a reason.
pub open spec fn failed_with(result: Option<Outcome>, reason: Seq<char>) -> bool {
    result matches Some(Outcome::Failed { reason: r }) && r@ == reason
}

} // verus!
