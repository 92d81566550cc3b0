//! The caller-visible failures. Every failure aborts the whole transaction:
//! the records and balances are left exactly as before the call.

use vstd::prelude::*;

verus! {

/// Failures of the event rules themselves.
#[derive(Clone, Copy, PartialEq, Eq, Structural, Debug)]
pub enum EventError {
    /// Registering against a cancelled event.
    EventInactive,
    /// Registering when capacity is exhausted.
    EventFull,
    /// A registration entry already exists for this (event, participant).
    AlreadyRegistered,
    /// Reserved for a caller-supplied amount below the minimum; the
    /// registration path always stakes exactly the minimum, so nothing
    /// raises it.
    StakeTooLow,
    /// Withdrawing while the event is still active and unexpired.
    CannotWithdrawYet,
    /// A non-administrator attempts cancellation.
    Unauthorized,
}

/// Failures of the fungible transfer primitive.
#[derive(Clone, Copy, PartialEq, Eq, Structural, Debug)]
pub enum TransferError {
    /// The source balance holds less than the amount.
    InsufficientFunds,
    /// The destination balance cannot take the amount.
    BalanceOverflow,
}

/// What an operation's transaction aborts with: one of the event rules, or
/// the custody transfer.
#[derive(Clone, Copy, PartialEq, Eq, Structural, Debug)]
pub enum OpError {
    Event(EventError),
    Transfer(TransferError),
}

} // verus!
