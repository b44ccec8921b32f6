//! Game logic of a real-time multiplayer Monopoly-like game.

pub mod api;
pub mod bot;
pub mod error;
pub mod game;
pub mod ws;
