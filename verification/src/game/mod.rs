//! The game: board, state, rules and their transitions.

pub mod board;
pub mod state;
pub mod events;
pub mod text;
pub mod rules;
pub mod engine;
pub mod random;
pub mod lobby;
pub mod bankruptcy;
pub mod trade;
pub mod laws;
pub mod limits;
pub mod mechanics;
