//! The HTTP API's bodies.

pub mod handlers;
