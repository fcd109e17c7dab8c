//! Protocol flow engine for channel-open, withdraw and auth handshakes that
//! are answered by a Lightning node: single-use challenge tokens, the server's
//! decisions for each callback, and the requester's side of each flow.

pub mod token;
pub mod text;
pub mod primitives;
pub mod reply;
pub mod service;
pub mod channel;
pub mod withdraw;
pub mod auth;
pub mod laws;
pub mod client;
