//! Lets an endpoint communicate with other endpoints through relay servers.

pub use self::behaviour::Behaviour;
pub use self::event::Event;

pub mod behaviour;
pub mod delivery;
pub mod event;
pub mod exchanges;
pub mod handler;
pub mod laws;
pub mod operations;
pub mod poll;
pub mod upgrade;
