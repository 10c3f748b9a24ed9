//! The peripheral event coordination layer.
//!
//! The event bus carries one ordered stream of events; the correlator
//! binds each inbound request to a single-use responder; the delegate
//! waits, keyed and bounded, for asynchronous confirmations; the
//! subscription tracker diffs native subscriber snapshots; and the
//! writer registry keys notification writers by characteristic. Around
//! them stand the per-backend code and property tables, the client
//! identifier extraction, the advertising-state decision, and the
//! trusted boundary to tokio's one-shot channels.

pub mod advertising;
pub mod attributes;
pub mod bus;
pub mod channel;
pub mod client_id;
pub mod codes;
pub mod correlator;
pub mod delegate;
pub mod subscriptions;
pub mod writers;
