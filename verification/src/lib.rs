//! A minimal multi-client line-oriented chat relay, verified.
//!
//! The crate models the core of a chat server: per-connection client
//! records, line framing and the `/nick` command, a bounded fan-out
//! broadcast medium with per-subscriber cursors, the self-message
//! delivery filter, the supervisor that couples a connection's two
//! flows, and monotonic id allocation. The surrounding transport
//! (sockets, task scheduling) lives outside the library and only
//! hands plain values in and out.

pub mod client;
pub mod medium;
pub mod msg;
pub mod receive;
pub mod send;
pub mod server;
pub mod supervisor;

pub use client::Client;
pub use msg::Message;
