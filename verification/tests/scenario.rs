use event_stake::errors::{EventError, OpError, TransferError};
use event_stake::ledger::transfer;
use event_stake::ops::{cancel_event, create_event, stake_and_register, withdraw_tokens};
use event_stake::state::{Identity, Registration};

#[test]
fn end_to_end_two_seats_cancel_and_double_withdraw() {
    let admin = Identity { id: 10 };
    let event_id = Identity { id: 99 };
    let a = Identity { id: 1 };
    let b = Identity { id: 2 };
    let c = Identity { id: 3 };

    let now: i64 = 1000;
    let mut event = create_event(admin, 100, 2, 3600, now);
    assert_eq!(event.end_time, 4600);

    let mut custody: u64 = 0;
    let mut bal_a: u64 = 500;
    let mut bal_b: u64 = 500;
    let mut bal_c: u64 = 500;
    let mut reg_a = Registration::fresh();
    let mut reg_b = Registration::fresh();
    let mut reg_c = Registration::fresh();

    // A registers: counter 1, A pays 100 into custody.
    assert_eq!(
        stake_and_register(&mut event, &mut reg_a, event_id, a, &mut bal_a, &mut custody),
        Ok(())
    );
    assert_eq!(event.participant_count, 1);
    assert_eq!(bal_a, 400);
    assert_eq!(custody, 100);

    // B registers: counter 2.
    assert_eq!(
        stake_and_register(&mut event, &mut reg_b, event_id, b, &mut bal_b, &mut custody),
        Ok(())
    );
    assert_eq!(event.participant_count, 2);
    assert_eq!(custody, 200);

    // C finds the event full.
    assert_eq!(
        stake_and_register(&mut event, &mut reg_c, event_id, c, &mut bal_c, &mut custody),
        Err(OpError::Event(EventError::EventFull))
    );
    assert_eq!(event.participant_count, 2);
    assert_eq!(bal_c, 500);
    assert!(!reg_c.is_registered);

    // The administrator cancels.
    assert_eq!(cancel_event(&mut event, admin), Ok(()));
    assert!(!event.is_active);

    // A withdraws the stake back.
    assert_eq!(withdraw_tokens(&event, now, &mut custody, &mut bal_a), Ok(()));
    assert_eq!(bal_a, 500);
    assert_eq!(custody, 100);

    // Nothing marks A as withdrawn: a second draw succeeds while custody
    // still covers the stake, taking what B paid in.
    assert_eq!(withdraw_tokens(&event, now, &mut custody, &mut bal_a), Ok(()));
    assert_eq!(bal_a, 600);
    assert_eq!(custody, 0);

    // With custody exhausted, the next draw fails.
    assert_eq!(
        withdraw_tokens(&event, now, &mut custody, &mut bal_b),
        Err(OpError::Transfer(TransferError::InsufficientFunds))
    );
    assert_eq!(bal_b, 400);
}

#[test]
fn registrations_observe_successive_counter_values() {
    let admin = Identity { id: 10 };
    let event_id = Identity { id: 99 };
    let mut event = create_event(admin, 1, 5, 3600, 0);
    let mut custody: u64 = 0;
    for n in 0..5u64 {
        // The (n+1)-th registration sees the counter at n just before its
        // own increment.
        assert_eq!(event.participant_count, n);
        let mut reg = Registration::fresh();
        let mut bal: u64 = 1;
        assert_eq!(
            stake_and_register(
                &mut event,
                &mut reg,
                event_id,
                Identity { id: n + 1 },
                &mut bal,
                &mut custody
            ),
            Ok(())
        );
        assert_eq!(event.participant_count, n + 1);
    }
    assert_eq!(custody, 5);
}

#[test]
fn transfer_is_all_or_nothing() {
    let mut from: u64 = 10;
    let mut to: u64 = 0;
    assert_eq!(transfer(&mut from, &mut to, 4), Ok(()));
    assert_eq!((from, to), (6, 4));
    assert_eq!(
        transfer(&mut from, &mut to, 7),
        Err(TransferError::InsufficientFunds)
    );
    assert_eq!((from, to), (6, 4));
    let mut rich: u64 = u64::MAX;
    assert_eq!(
        transfer(&mut rich, &mut to, u64::MAX),
        Err(TransferError::BalanceOverflow)
    );
    assert_eq!((rich, to), (u64::MAX, 4));
}
