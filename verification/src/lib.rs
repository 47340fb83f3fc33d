//! Client-side engine of a secure remote-shell protocol.
//!
//! The crate models the decision core of an interactive shell client:
//! the session registry and its lifecycle, single-shot authentication
//! attempts, local / remote / dynamic port forwarding registries, the
//! SOCKS handshake used by dynamic forwarding, host-key trust
//! decisions, proxy-chained connections, and the event dispatcher that
//! routes transport events to their logical consumers.  All state
//! transitions and protocol decisions are specified and verified; the
//! asynchronous transport itself (sockets, channels, timers) lives
//! outside this crate and drives these functions.

pub mod auth;
pub mod connect;
pub mod dispatch;
pub mod errors;
pub mod manager;
pub mod registry;
pub mod relay;
pub mod session;
pub mod socks;
pub mod trust;
