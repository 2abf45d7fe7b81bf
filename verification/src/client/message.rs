//! The requests of the exchanges of a client. Their answers are those of [`crate::message`].

use vstd::prelude::*;

verus! {

/// A client asks its relay for a connection to an address.
#[derive(Debug)]
pub struct DialRequest {
    pub addr: String,
}

/// A client asks its relay to be listened for.
#[derive(Debug)]
pub struct ListenRequest {
    pub local_peer_id: String,
    pub local_addr: String,
}

/// A relay asks a listening client to take a connection.
#[derive(Debug)]
pub struct ConnectRequest {
    pub dst_addr: String,
    pub dialer_addr: String,
}

} // verus!
