//! An ownership-gated score registry.
//!
//! One owner writes signed scores keyed by an address and, below it, by a
//! token; anybody reads them. The registry is kept as a value of this
//! library: the host that persists it and the host's address validator
//! stand outside, and hand their answers in as plain values.

pub mod error;
pub mod state;
pub mod guard;
pub mod scores;
pub mod msg;
pub mod encoding;
pub mod contract;
pub mod laws;
