//! A single-instance sealed-state auction: one deployment manages exactly one
//! auction over its lifetime. The state machine owns the persisted fields,
//! validates every transition against the stored state and the current time,
//! and records a notification for each successful mutation.
//!
//! The host supplies three capabilities, modelled here as plain data so that
//! every decision the machine takes is verified: a slot-keyed persistent
//! store, an authenticator that proves which identities the active caller
//! controls, and a clock.

pub mod host;
pub mod laws;
pub mod machine;
pub mod store;
pub mod types;
