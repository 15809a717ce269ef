//! A raffle ledger in rounds: participants buy tickets from a fungible
//! balance, an administrator draws three winners once the round has
//! expired, and the collected pool is split 50/30/20 among them before
//! the round resets.
//!
//! Winner selection uses a caller-supplied monotonically increasing
//! counter ("slot") as entropy. That counter is externally observable
//! and predictable; the selection is deliberately deterministic in it,
//! which is a known weakness of the scheme, kept as designed.

pub mod laws;
pub mod ops;
pub mod state;
