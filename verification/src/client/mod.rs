//! Lets a client communicate with other clients through one relay server.

pub use self::behaviour::Client;
pub use self::event::Event;
pub use self::transport::{Error, Transport};

pub mod behaviour;
pub mod delivery;
pub mod event;
pub mod exchanges;
pub mod handler;
pub mod laws;
pub mod message;
pub mod operations;
pub mod transport;
pub mod upgrade;
