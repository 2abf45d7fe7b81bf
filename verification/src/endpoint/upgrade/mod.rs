//! The exchanges of an endpoint on a fresh substream.

use vstd::prelude::*;

pub use self::inbound::{InboundUpgrade, InboundUpgradeOutput};
pub use self::outbound::OutboundUpgrade;
use crate::error::{reason_text, reason_view, show_reason, IoError};

pub mod inbound;
pub mod outbound;

verus! {

/// What an exchange is for.
#[derive(Debug, Copy, Clone, Eq, PartialEq, Hash, Structural)]
pub enum UpgradeAction {
    Dial,
    Listen,
    Connect,
}

/// Why an exchange failed.
#[derive(Debug)]
pub enum UpgradeError {
    Io(IoError),
    UnexpectedStreamClosed,
    UnexpectedResult { action: UpgradeAction },
    ActionFailed { action: UpgradeAction, reason: Option<String> },
    InvalidAddr(String),
    InvalidPeerId(String),
}

impl UpgradeError {
    pub open spec fn text(self) -> Seq<char> {
        match self {
            UpgradeError::Io(err) => "io error: "@ + err.text(),
            UpgradeError::UnexpectedStreamClosed => "unexpected stream closed"@,
            UpgradeError::UnexpectedResult { .. } => "unexpected result"@,
            UpgradeError::ActionFailed { reason, .. } => "action failed: "@ + reason_text(
                reason_view(reason),
            ),
            UpgradeError::InvalidAddr(addr) => "invalid addr: "@ + addr@,
            UpgradeError::InvalidPeerId(peer_id) => "invalid peer id: "@ + peer_id@,
        }
    }

    /// The text that is shown for the error.
    pub fn message(&self) -> (r: String)
        ensures
            r@ == self.text(),
    {
        match self {
            UpgradeError::Io(err) => "io error: ".to_owned().concat(err.message().as_str()),
            UpgradeError::UnexpectedStreamClosed => "unexpected stream closed".to_owned(),
            UpgradeError::UnexpectedResult { .. } => "unexpected result".to_owned(),
            UpgradeError::ActionFailed { action: _, reason } => "action failed: ".to_owned().concat(
                show_reason(reason).as_str(),
            ),
            UpgradeError::InvalidAddr(addr) => "invalid addr: ".to_owned().concat(addr.as_str()),
            UpgradeError::InvalidPeerId(peer_id) => "invalid peer id: ".to_owned().concat(
                peer_id.as_str(),
            ),
        }
    }
}

} // verus!
