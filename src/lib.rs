//! A single-tenant text-generation server: the sampling decisions, the
//! generation session, the shared generation state, admission and
//! cancellation, and the protocol messages.
pub mod config;
pub mod sampling;
pub mod server;
pub mod session;
pub mod state;
pub mod text;
pub mod tokens;
pub mod wire;
