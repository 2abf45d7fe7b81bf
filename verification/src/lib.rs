use vstd::prelude::*;

pub mod address;
pub mod client;
pub mod combine;
pub mod connection;
pub mod endpoint;
pub mod error;
pub mod ids;
pub mod laws;
pub mod message;
pub mod relay;
pub mod server;
pub mod swarm;
pub mod table;

verus! {

/// The protocol with which an endpoint asks a relay for a connection to a peer.
pub const AUTO_RELAY_DIAL_PROTOCOL: &'static str = "/auto-relay/0.1/dial";

/// The protocol with which an endpoint asks a relay to be listened for.
pub const AUTO_RELAY_LISTEN_PROTOCOL: &'static str = "/auto-relay/0.1/listen";

/// The protocol with which a relay hands a connection to a listening endpoint.
pub const AUTO_RELAY_CONNECT_PROTOCOL: &'static str = "/auto-relay/0.1/connect";

/// The length of the longest message, in bytes.
pub const MAX_MESSAGE_SIZE: usize = 4096;

} // verus!
