//! The two durable records and the transitions an operation may make on an
//! event record.

use vstd::prelude::*;

verus! {

/// An authenticated identity, as the host's signature verification hands it
/// in. The core only ever compares identities for equality.
#[derive(Clone, Copy, PartialEq, Eq, Structural, Debug)]
pub struct Identity {
    pub id: u64,
}

/// Durable record describing one staking event's parameters and lifecycle
/// state. `admin`, `minimum_stake`, `max_participants`, `start_time` and
/// `end_time` are fixed at creation; registrations increment
/// `participant_count` and cancellation clears `is_active`.
#[derive(Clone, Copy, PartialEq, Eq, Structural, Debug)]
pub struct Event {
    pub admin: Identity,
    pub minimum_stake: u64,
    pub max_participants: u64,
    pub participant_count: u64,
    pub start_time: i64,
    pub end_time: i64,
    pub is_active: bool,
}

impl Event {
    /// Well-formedness of an event record: the stake and the capacity are
    /// positive, and the counter never passes the capacity. Creation
    /// establishes this and every operation preserves it.
    pub open spec fn inv(self) -> bool {
        &&& self.minimum_stake > 0
        &&& self.max_participants > 0
        &&& self.participant_count <= self.max_participants
    }
}

/// The effect of one successful registration on the event record: it must be
/// active with room left, and exactly the counter moves, by one.
pub open spec fn registration_effect(pre: Event, post: Event) -> bool {
    &&& pre.is_active
    &&& pre.participant_count < pre.max_participants
    &&& post == (Event { participant_count: (pre.participant_count + 1) as u64, ..pre })
}

/// The effect of a cancellation on the event record: only `is_active` is
/// cleared.
pub open spec fn cancellation_effect(pre: Event, post: Event) -> bool {
    post == (Event { is_active: false, ..pre })
}

/// Every way one operation may leave an event record: unchanged (a failed
/// operation, or a withdrawal, which only reads it), incremented by a
/// successful registration, or deactivated by a cancellation.
pub open spec fn event_step(pre: Event, post: Event) -> bool {
    ||| post == pre
    ||| registration_effect(pre, post)
    ||| cancellation_effect(pre, post)
}

/// Durable record that one participant joined one event and locked a stake.
/// Populated once by a successful registration and never mutated afterwards:
/// withdrawal does not clear `is_registered`.
#[derive(Clone, Copy, PartialEq, Eq, Structural, Debug)]
pub struct Registration {
    pub user: Identity,
    pub event: Identity,
    pub is_registered: bool,
}

impl Registration {
    /// A fresh registration slot, as the storage collaborator's
    /// create-if-absent yields it: zeroed, not yet registered.
    pub fn fresh() -> (r: Registration)
        ensures
            r == (Registration {
                user: Identity { id: 0 },
                event: Identity { id: 0 },
                is_registered: false,
            }),
    {
        Registration { user: Identity { id: 0 }, event: Identity { id: 0 }, is_registered: false }
    }
}

} // verus!
