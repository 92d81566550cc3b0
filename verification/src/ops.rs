//! The four operations, each an all-or-nothing transaction over the records
//! and balances it names. The host serializes operations touching the same
//! record, so each contract describes one atomic step.

use vstd::prelude::*;

use crate::errors::{EventError, OpError, TransferError};
use crate::ledger;
use crate::state::{Event, Identity, Registration};

verus! {

/// Instantiates a new event record for `admin`: the counter starts at zero,
/// the record active, and the window runs from `now` for `duration` seconds.
/// `duration` is taken as the caller supplied it: a non-positive value yields
/// a window that is already over, and withdrawal opens at once.
pub fn create_event(
    admin: Identity,
    minimum_stake: u64,
    max_participants: u64,
    duration: i64,
    now: i64,
) -> (event: Event)
    requires
        minimum_stake > 0,
        max_participants > 0,
        i64::MIN <= now + duration <= i64::MAX,
    ensures
        event.admin == admin,
        event.minimum_stake == minimum_stake,
        event.max_participants == max_participants,
        event.participant_count == 0,
        event.start_time == now,
        event.end_time == now + duration,
        event.is_active,
        event.inv(),
{
    Event {
        admin,
        minimum_stake,
        max_participants,
        participant_count: 0,
        start_time: now,
        end_time: now + duration,
        is_active: true,
    }
}

/// The three registration gates, in the order they are checked.
pub open spec fn register_gates_pass(event: Event, registration: Registration) -> bool {
    &&& event.is_active
    &&& event.participant_count < event.max_participants
    &&& !registration.is_registered
}

/// The failure a registration attempt aborts with, if any: the first gate
/// that refuses, then the custody transfer of exactly `minimum_stake` from
/// the registrant's balance to the event's custody balance.
pub open spec fn register_error(
    event: Event,
    registration: Registration,
    user_balance: u64,
    vault_balance: u64,
) -> Option<OpError> {
    if !event.is_active {
        Some(OpError::Event(EventError::EventInactive))
    } else if event.participant_count >= event.max_participants {
        Some(OpError::Event(EventError::EventFull))
    } else if registration.is_registered {
        Some(OpError::Event(EventError::AlreadyRegistered))
    } else if user_balance < event.minimum_stake {
        Some(OpError::Transfer(TransferError::InsufficientFunds))
    } else if vault_balance + event.minimum_stake > u64::MAX {
        Some(OpError::Transfer(TransferError::BalanceOverflow))
    } else {
        None
    }
}

/// Registers `user` for the event held in the slot `registration`, unique to
/// the (event, participant) pair, and moves exactly `minimum_stake` from the
/// registrant's balance into the event's custody balance. On any failure
/// nothing changes: the gates run before any mutation, and the transfer and
/// the record updates commit together.
pub fn stake_and_register(
    event: &mut Event,
    registration: &mut Registration,
    event_id: Identity,
    user: Identity,
    user_balance: &mut u64,
    vault_balance: &mut u64,
) -> (r: Result<(), OpError>)
    requires
        old(event).inv(),
    ensures
        final(event).inv(),
        r is Ok <==> register_error(
            *old(event),
            *old(registration),
            *old(user_balance),
            *old(vault_balance),
        ) is None,
        r matches Err(e) ==> Some(e) == register_error(
            *old(event),
            *old(registration),
            *old(user_balance),
            *old(vault_balance),
        ),
        r is Ok ==> {
            &&& crate::state::registration_effect(*old(event), *final(event))
            &&& *final(registration) == (Registration {
                user,
                event: event_id,
                is_registered: true,
            })
            &&& *final(user_balance) == *old(user_balance) - old(event).minimum_stake
            &&& *final(vault_balance) == *old(vault_balance) + old(event).minimum_stake
        },
        r is Err ==> {
            &&& *final(event) == *old(event)
            &&& *final(registration) == *old(registration)
            &&& *final(user_balance) == *old(user_balance)
            &&& *final(vault_balance) == *old(vault_balance)
        },
        crate::state::event_step(*old(event), *final(event)),
{
    if !event.is_active {
        return Err(OpError::Event(EventError::EventInactive));
    }
    if event.participant_count >= event.max_participants {
        return Err(OpError::Event(EventError::EventFull));
    }
    if registration.is_registered {
        return Err(OpError::Event(EventError::AlreadyRegistered));
    }
    let amount = event.minimum_stake;
    match ledger::transfer(user_balance, vault_balance, amount) {
        Err(e) => Err(OpError::Transfer(e)),
        Ok(()) => {
            registration.user = user;
            registration.event = event_id;
            registration.is_registered = true;
            event.participant_count = event.participant_count + 1;
            Ok(())
        },
    }
}

/// The failure a cancellation attempt aborts with, if any: only the event's
/// administrator may cancel.
pub open spec fn cancel_error(event: Event, caller: Identity) -> Option<EventError> {
    if caller != event.admin {
        Some(EventError::Unauthorized)
    } else {
        None
    }
}

/// Cancels the event: only its administrator may, and only `is_active`
/// changes. Cancelling an already-cancelled event re-asserts `false`.
pub fn cancel_event(event: &mut Event, caller: Identity) -> (r: Result<(), EventError>)
    requires
        old(event).inv(),
    ensures
        final(event).inv(),
        r is Ok <==> cancel_error(*old(event), caller) is None,
        r matches Err(e) ==> Some(e) == cancel_error(*old(event), caller),
        r is Ok ==> crate::state::cancellation_effect(*old(event), *final(event)),
        r is Err ==> *final(event) == *old(event),
        crate::state::event_step(*old(event), *final(event)),
{
    if !(caller == event.admin) {
        return Err(EventError::Unauthorized);
    }
    event.is_active = false;
    Ok(())
}

/// When withdrawal is open: the event was cancelled, or its window is over.
pub open spec fn withdraw_open(event: Event, now: i64) -> bool {
    !event.is_active || now >= event.end_time
}

/// The failure a withdrawal attempt aborts with, if any: the timing gate,
/// then the custody transfer of exactly `minimum_stake` back to the caller.
pub open spec fn withdraw_error(
    event: Event,
    now: i64,
    vault_balance: u64,
    user_balance: u64,
) -> Option<OpError> {
    if !withdraw_open(event, now) {
        Some(OpError::Event(EventError::CannotWithdrawYet))
    } else if vault_balance < event.minimum_stake {
        Some(OpError::Transfer(TransferError::InsufficientFunds))
    } else if user_balance + event.minimum_stake > u64::MAX {
        Some(OpError::Transfer(TransferError::BalanceOverflow))
    } else {
        None
    }
}

/// Pays exactly `minimum_stake` out of the event's custody balance to the
/// caller once the event has ended or been cancelled. The event record is
/// only read. The caller is whoever the host authenticated: no proof of a
/// prior registration is demanded and nothing is marked withdrawn, so a
/// caller may draw again as long as custody still covers the stake — the
/// design's documented exposure, reproduced here deliberately.
pub fn withdraw_tokens(
    event: &Event,
    now: i64,
    vault_balance: &mut u64,
    user_balance: &mut u64,
) -> (r: Result<(), OpError>)
    ensures
        r is Ok <==> withdraw_error(*event, now, *old(vault_balance), *old(user_balance)) is None,
        r matches Err(e) ==> Some(e) == withdraw_error(
            *event,
            now,
            *old(vault_balance),
            *old(user_balance),
        ),
        r is Ok ==> *final(vault_balance) == *old(vault_balance) - event.minimum_stake
            && *final(user_balance) == *old(user_balance) + event.minimum_stake,
        r is Err ==> *final(vault_balance) == *old(vault_balance) && *final(user_balance) == *old(
            user_balance,
        ),
{
    if event.is_active && now < event.end_time {
        return Err(OpError::Event(EventError::CannotWithdrawYet));
    }
    match ledger::transfer(vault_balance, user_balance, event.minimum_stake) {
        Err(e) => Err(OpError::Transfer(e)),
        Ok(()) => Ok(()),
    }
}

} // verus!
