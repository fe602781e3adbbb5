//! Request dispatch for a JSON RPC server: envelope decoding, admission,
//! hierarchical method routing, long-running task tracking and response
//! building.

pub mod auth;
pub mod board;
pub mod client;
pub mod dispatcher;
pub mod envelope;
pub mod errors;
pub mod json;
pub mod laws;
pub mod limiter;
pub mod response;
pub mod router;
pub mod task;
pub mod text;
