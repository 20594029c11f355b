//! Core of a resilient client for a line-oriented, IRC-derived chat
//! protocol carried over TLS: identity configuration, the authentication
//! handshake, categorized failure handling, and reconnection with
//! backoff.
//!
//! Everything that decides — line classification, handshake transitions,
//! the failure taxonomy and its retry classification, the backoff
//! schedule, and the fused read model — lives here with a proved
//! contract. The sockets, TLS upgrade, and timers that those decisions
//! drive are the hosting application's, which feeds their outcomes back
//! into these machines as plain values.

pub mod app;
pub mod text;
pub mod twitch;
pub mod window;
