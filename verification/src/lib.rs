//! EPI-gated governance engine.
//!
//! Proposals are admitted only when their Ethical/Profit Index (EPI) score
//! clears a configured threshold, then run through a weighted-voting
//! lifecycle with quorum checks and a guardian veto path, while an
//! append-only, hash-linked thought log records the reasoning behind each
//! decision.
//!
//! The engine is a pure state machine: durable storage, signature checks,
//! the slot/clock source and the event sink are collaborators of the host.
//! Identities arrive as opaque numeric handles, the current slot and time
//! arrive as arguments, and each successful operation appends one event to
//! a side-channel list that the host may drain and forward.

pub mod errors;
pub mod state;
pub mod events;
pub mod ledger;
pub mod engine;
pub mod laws;
