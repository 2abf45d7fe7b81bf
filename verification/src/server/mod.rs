//! What a relay server does on each of its connections.

pub mod handler;
pub mod upgrade;
