//! Reverse HTTP tunnel client core.
//!
//! The tunnel engine: the framed request/response protocol over a single
//! persistent WebSocket ([`codec`], [`frame`], [`body`], [`json`]), the
//! session dispatch table ([`session`]), the per-request forwarder with
//! typed failure classification ([`forwarder`], [`headers`], [`status`]),
//! the reconnect supervisor with exponential backoff and outbound
//! queueing ([`reconnect`], [`supervisor`]), and the shared statistics
//! and event types ([`events`], [`errors`]).
//!
//! Everything here is synchronous logic on plain values. Sockets, HTTP
//! calls, clocks and sleeps live in the surrounding binary, which feeds
//! their outcomes back in as values.

pub mod body;
pub mod codec;
pub mod config;
pub mod errors;
pub mod events;
pub mod forwarder;
pub mod frame;
pub mod headers;
pub mod json;
pub mod protocol_config;
pub mod reconnect;
pub mod session;
pub mod static_files;
pub mod status;
pub mod supervisor;
pub mod transport;
pub mod wire_config;
