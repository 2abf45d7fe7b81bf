//! The exchange that a relay opens.

pub use self::outbound::OutboundUpgrade;

pub mod outbound;
