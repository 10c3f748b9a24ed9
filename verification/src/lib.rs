//! A GATT peripheral event coordination library.
//!
//! The library multiplexes asynchronous read, write, subscribe and state
//! events from native Bluetooth host callbacks into one ordered event
//! stream, correlates each inbound request with exactly one application
//! reply over a single-use responder, waits — keyed and bounded — for
//! asynchronous confirmations, and diffs native subscriber snapshots
//! into add and remove events. The attribute model, the identifier
//! canonicalization and the per-backend code tables complete the core;
//! each backend's native calls and event loops stand outside it.

pub mod error;
pub mod gatt;
pub mod peripheral;
pub mod uuid;
