//! The library's laws, stated over the spec-level outcome functions that the
//! operations' contracts use, and proved once for all inputs.

use vstd::prelude::*;

use crate::errors::{EventError, OpError};
use crate::ops::{cancel_error, register_error, withdraw_error, withdraw_open};
use crate::state::{event_step, registration_effect, Event, Identity, Registration};

verus! {

/// One operation leaves a well-formed event record well-formed; in
/// particular the counter never passes the capacity.
pub proof fn lemma_step_preserves_inv(pre: Event, post: Event)
    requires
        pre.inv(),
        event_step(pre, post),
    ensures
        post.inv(),
{
}

/// Law: over any sequence of operations on one event record that starts
/// well-formed, every reachable record is well-formed, so the participant
/// count never exceeds the capacity. `trace[0]` is the record at creation and
/// each later entry is the record after one more operation.
pub proof fn lemma_capacity_never_exceeded(trace: Seq<Event>, i: int)
    requires
        0 <= i < trace.len(),
        trace[0].inv(),
        forall|j: int| 0 <= j < trace.len() - 1 ==> #[trigger] event_step(trace[j], trace[j + 1]),
    ensures
        trace[i].inv(),
        trace[i].participant_count <= trace[i].max_participants,
    decreases i,
{
    if i > 0 {
        lemma_capacity_never_exceeded(trace, i - 1);
        assert(event_step(trace[i - 1], trace[(i - 1) + 1]));
        lemma_step_preserves_inv(trace[i - 1], trace[i]);
    }
}

/// Law: along any sequence of operations, the fixed fields never change, the
/// counter never decreases, and `is_active` only ever falls: once cancelled,
/// an event never comes back.
pub proof fn lemma_lifecycle_monotone(trace: Seq<Event>, i: int, j: int)
    requires
        0 <= i <= j < trace.len(),
        forall|k: int| 0 <= k < trace.len() - 1 ==> #[trigger] event_step(trace[k], trace[k + 1]),
    ensures
        trace[j].admin == trace[i].admin,
        trace[j].minimum_stake == trace[i].minimum_stake,
        trace[j].max_participants == trace[i].max_participants,
        trace[j].start_time == trace[i].start_time,
        trace[j].end_time == trace[i].end_time,
        trace[j].participant_count >= trace[i].participant_count,
        !trace[i].is_active ==> !trace[j].is_active,
    decreases j - i,
{
    if j > i {
        lemma_lifecycle_monotone(trace, i, j - 1);
        assert(event_step(trace[j - 1], trace[(j - 1) + 1]));
    }
}

/// Law: along a run of successful registrations from a freshly created event
/// record, the N-th registration finds the counter at N-1 immediately before
/// its own increment, and leaves it at N.
pub proof fn lemma_nth_registration_count(trace: Seq<Event>, n: int)
    requires
        1 <= n < trace.len(),
        trace[0].participant_count == 0,
        forall|j: int| 0 <= j < trace.len() - 1 ==> #[trigger] registration_effect(
            trace[j],
            trace[j + 1],
        ),
    ensures
        trace[n - 1].participant_count == n - 1,
        trace[n].participant_count == n,
    decreases n,
{
    if n > 1 {
        lemma_nth_registration_count(trace, n - 1);
    }
    assert(registration_effect(trace[n - 1], trace[(n - 1) + 1]));
}

/// Law: once a pair's registration entry is marked registered — as a
/// successful registration leaves it — a second attempt for the same pair
/// fails with AlreadyRegistered while the event is still active with room
/// left, whatever the balances; the operation's contract then leaves every
/// record and balance unchanged.
pub proof fn lemma_second_registration_rejected(
    event: Event,
    registration: Registration,
    user_balance: u64,
    vault_balance: u64,
)
    requires
        registration.is_registered,
        event.is_active,
        event.participant_count < event.max_participants,
    ensures
        register_error(event, registration, user_balance, vault_balance) == Some(
            OpError::Event(EventError::AlreadyRegistered),
        ),
{
}

/// Law: registering on a cancelled event fails with EventInactive, whatever
/// the capacity, the pair's entry, or the balances.
pub proof fn lemma_register_on_cancelled(
    event: Event,
    registration: Registration,
    user_balance: u64,
    vault_balance: u64,
)
    requires
        !event.is_active,
    ensures
        register_error(event, registration, user_balance, vault_balance) == Some(
            OpError::Event(EventError::EventInactive),
        ),
{
}

/// Law: withdrawal before `end_time` on a still-active, non-cancelled event
/// fails with CannotWithdrawYet, whatever the balances.
pub proof fn lemma_withdraw_too_early(event: Event, now: i64, vault_balance: u64, user_balance: u64)
    requires
        event.is_active,
        now < event.end_time,
    ensures
        withdraw_error(event, now, vault_balance, user_balance) == Some(
            OpError::Event(EventError::CannotWithdrawYet),
        ),
{
}

/// Law: withdrawal after `end_time`, or at any time after cancellation,
/// succeeds whenever custody still covers the stake and the caller's balance
/// can take it; the operation's contract then moves exactly `minimum_stake`
/// from the event's custody balance to the caller.
pub proof fn lemma_withdraw_succeeds(event: Event, now: i64, vault_balance: u64, user_balance: u64)
    requires
        withdraw_open(event, now),
        vault_balance >= event.minimum_stake,
        user_balance + event.minimum_stake <= u64::MAX,
    ensures
        withdraw_error(event, now, vault_balance, user_balance) is None,
{
}

/// Law: cancellation by a non-admin identity fails with Unauthorized, and
/// the operation's contract then leaves the record — `is_active` in
/// particular — unchanged.
pub proof fn lemma_cancel_unauthorized(event: Event, caller: Identity)
    requires
        caller != event.admin,
    ensures
        cancel_error(event, caller) == Some(EventError::Unauthorized),
{
}

/// How many of the first `i` steps of a trace are successful registrations.
pub open spec fn registrations_before(trace: Seq<Event>, i: int) -> int
    decreases i,
{
    if i <= 0 {
        0
    } else {
        registrations_before(trace, i - 1) + if registration_effect(trace[i - 1], trace[i]) {
            1 as int
        } else {
            0 as int
        }
    }
}

/// Law: along any sequence of operations from a freshly created event
/// record, the counter at every point equals the number of successful
/// registrations so far — so the N-th successful registration observes the
/// counter at N-1 immediately before its own increment, and nothing ever
/// decrements it.
pub proof fn lemma_counter_counts_registrations(trace: Seq<Event>, i: int)
    requires
        0 <= i < trace.len(),
        trace[0].participant_count == 0,
        forall|j: int| 0 <= j < trace.len() - 1 ==> #[trigger] event_step(trace[j], trace[j + 1]),
    ensures
        trace[i].participant_count == registrations_before(trace, i),
    decreases i,
{
    if i > 0 {
        lemma_counter_counts_registrations(trace, i - 1);
        assert(event_step(trace[i - 1], trace[(i - 1) + 1]));
    }
}

} // verus!
