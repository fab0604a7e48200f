//! Core of a TCP tunnel: a client exposes a local service through a public
//! relay server over one control connection per session.
//!
//! The crate holds the protocol logic shared by both ends: the wire codec for
//! control messages, the challenge/response authenticator, the server's port
//! allocator, the pairing table for announced public connections, the two
//! session state machines, and the heartbeat bookkeeping. All I/O is left to
//! the caller: the session types turn a received event into a new state and a
//! list of actions to perform.

pub mod auth;
pub mod client;
pub mod codec;
pub mod heartbeat;
pub mod msg;
pub mod pairing;
pub mod ports;
pub mod relay;
pub mod server;

pub use msg::ControlMessage;
pub use msg::TunnelError;
