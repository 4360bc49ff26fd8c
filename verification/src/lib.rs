//! Core of a TCP port-forwarding tunnel: challenge-response authentication,
//! the messages exchanged by client and server, the decisions each side takes
//! on them, and the parsing of the command-line forwarding specification.

pub mod hexcode;
pub mod crypto;
pub mod message;
pub mod auth;
pub mod forward;
pub mod client;
pub mod server;
pub mod protocol;
