//! Real-time connections: the hub of rooms and their players.

pub mod hub;

pub use hub::Hub;
