//! Computer players: deterministic decisions.

pub mod decision;
pub mod strategies;
