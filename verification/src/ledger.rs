//! The fungible transfer primitive, modeled on plain balances. The core never
//! inspects balances except through this move: `amount` leaves one balance and
//! arrives at the other, all or nothing.

use vstd::prelude::*;

use crate::errors::TransferError;

verus! {

/// When a move of `amount` from `from` to `to` can succeed.
pub open spec fn transfer_ok(from: u64, to: u64, amount: u64) -> bool {
    from >= amount && to + amount <= u64::MAX
}

/// Moves exactly `amount` from one balance to the other, or fails and leaves
/// both untouched.
pub fn transfer(from: &mut u64, to: &mut u64, amount: u64) -> (r: Result<(), TransferError>)
    ensures
        r is Ok <==> transfer_ok(*old(from), *old(to), amount),
        r == Err::<(), TransferError>(TransferError::InsufficientFunds) <==> *old(from) < amount,
        r == Err::<(), TransferError>(TransferError::BalanceOverflow) <==> (*old(from) >= amount
            && *old(to) + amount > u64::MAX),
        r is Ok ==> *final(from) == *old(from) - amount && *final(to) == *old(to) + amount,
        r is Err ==> *final(from) == *old(from) && *final(to) == *old(to),
{
    if *from < amount {
        return Err(TransferError::InsufficientFunds);
    }
    if amount > u64::MAX - *to {
        return Err(TransferError::BalanceOverflow);
    }
    *from = *from - amount;
    *to = *to + amount;
    Ok(())
}

} // verus!
