//! The exchanges of a relay on a fresh substream.

use vstd::prelude::*;

pub use self::inbound::{ConnectRequest, InboundUpgrade, ListenRequest};
use crate::address::{multiaddr_text, Multiaddr};
use crate::error::{reason_text, reason_view, show_reason, IoError};

pub mod inbound;

verus! {

/// Why an exchange failed.
#[derive(Debug)]
pub enum UpgradeError {
    Io(IoError),
    UnexpectedStreamClosed,
    BehaviourDropped,
    ConnectFailed { addr: Multiaddr, err: IoError },
    InvalidDstPeerId(String),
    InvalidDstAddr(String),
    InvalidListenPeerId(String),
    InvalidListenAddr(String),
    UnexpectedResult,
    ActionFailed { action: UpgradeAction, reason: Option<String> },
}

/// What an exchange is for.
#[derive(Debug, Copy, Clone, Eq, PartialEq, Hash, Structural)]
pub enum UpgradeAction {
    Dial,
    Listen,
    Connect,
}

impl UpgradeError {
    pub open spec fn text(self) -> Seq<char> {
        match self {
            UpgradeError::Io(err) => "io error: "@ + err.text(),
            UpgradeError::UnexpectedStreamClosed => "unexpected stream closed"@,
            UpgradeError::BehaviourDropped => "behaviour is dropped"@,
            UpgradeError::ConnectFailed { addr, err } => "behaviour connect "@ + multiaddr_text(
                addr@,
            ) + " failed: "@ + err.text(),
            UpgradeError::InvalidDstPeerId(peer_id) => "dial dst peer id "@ + peer_id@
                + " invalid"@,
            UpgradeError::InvalidDstAddr(addr) => "dial dst addr "@ + addr@ + " invalid"@,
            UpgradeError::InvalidListenPeerId(peer_id) => "invalid listen peer id "@ + peer_id@,
            UpgradeError::InvalidListenAddr(addr) => "invalid listen addr "@ + addr@,
            UpgradeError::UnexpectedResult => "unexpected result"@,
            UpgradeError::ActionFailed { reason, .. } => "action failed: "@ + reason_text(
                reason_view(reason),
            ),
        }
    }

    /// The text that is shown for the error.
    pub fn message(&self) -> (r: String)
        ensures
            r@ == self.text(),
    {
        match self {
            UpgradeError::Io(err) => "io error: ".to_owned().concat(err.message().as_str()),
            UpgradeError::UnexpectedStreamClosed => "unexpected stream closed".to_owned(),
            UpgradeError::BehaviourDropped => "behaviour is dropped".to_owned(),
            UpgradeError::ConnectFailed { addr, err } => "behaviour connect ".to_owned().concat(
                addr.text().as_str(),
            ).concat(" failed: ").concat(err.message().as_str()),
            UpgradeError::InvalidDstPeerId(peer_id) => "dial dst peer id ".to_owned().concat(
                peer_id.as_str(),
            ).concat(" invalid"),
            UpgradeError::InvalidDstAddr(addr) => "dial dst addr ".to_owned().concat(
                addr.as_str(),
            ).concat(" invalid"),
            UpgradeError::InvalidListenPeerId(peer_id) => {
                "invalid listen peer id ".to_owned().concat(peer_id.as_str())
            },
            UpgradeError::InvalidListenAddr(addr) => "invalid listen addr ".to_owned().concat(
                addr.as_str(),
            ),
            UpgradeError::UnexpectedResult => "unexpected result".to_owned(),
            UpgradeError::ActionFailed { action: _, reason } => "action failed: ".to_owned().concat(
                show_reason(reason).as_str(),
            ),
        }
    }
}

} // verus!
