//! Makes a node a relay server, which helps endpoints that cannot reach each other directly.

pub use self::behaviour::Behaviour;
pub use self::event::Event;

pub mod behaviour;
pub mod event;
pub mod laws;
pub mod operations;
pub mod upgrade;
