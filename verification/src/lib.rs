//! A staking-gated event core: an administrator opens an event with a minimum
//! stake, a capacity and a time window; participants lock a deposit to
//! register; the administrator may cancel; participants reclaim their deposit
//! once the event has ended or been cancelled.
//!
//! The four operations are verified state transitions over plain values. The
//! host substrate (durable keyed storage, identity verification, the clock and
//! the fungible-token ledger) stands outside this crate: it authenticates the
//! caller, fetches the records an operation names, hands in the current time
//! and the two balances a custody transfer touches, and persists whatever the
//! operation left behind.

pub mod errors;
pub mod laws;
pub mod ledger;
pub mod ops;
pub mod state;
