use task_bounty::{
    compute_fee, split_payout, Address, BountyError, CallContext, TaskBounty, TaskStatus,
    Transfer, DEFAULT_FEE_BASIS_POINTS, DISPUTE_WINDOW_SECONDS, SECONDS_PER_HOUR,
};

const START: u64 = 1_697_000_000;

fn addr(b: u8) -> Address {
    Address::from_bytes([b; 20])
}

fn ctx(sender: Address, value: u128, now: u64) -> CallContext {
    CallContext { sender, value, now }
}

fn creator() -> Address {
    addr(1)
}

fn worker() -> Address {
    addr(2)
}

/// An initialized engine holding one open task of `value`, accepted within
/// `hours` hours of `START`.
fn engine_with_task(value: u128, hours: u64) -> TaskBounty {
    let mut e = TaskBounty::new();
    e.initialize(&ctx(creator(), 0, START));
    let id = e.create_task(&ctx(creator(), value, START), [7u8; 32], [9u8; 32], hours);
    assert_eq!(id, Ok(1));
    e
}

/// An engine whose task 1 was accepted and submitted by `worker()` at `START`.
fn engine_with_submitted_task(value: u128) -> TaskBounty {
    let mut e = engine_with_task(value, 24);
    assert_eq!(e.accept_task(&ctx(worker(), 0, START), 1), Ok(()));
    assert_eq!(e.submit_task(&ctx(worker(), 0, START), 1), Ok(()));
    e
}

fn status_of(e: &TaskBounty, id: u64) -> TaskStatus {
    e.get_task(id).3
}

fn bounty_of(e: &TaskBounty, id: u64) -> u128 {
    e.get_task(id).1
}

#[test]
fn initialize_sets_owner_and_default_fee_once() {
    let mut e = TaskBounty::new();
    assert_eq!(e.get_platform_stats().0, 0);
    e.initialize(&ctx(addr(5), 0, START));
    let (fee, owner, balance) = e.get_platform_stats();
    assert_eq!(fee, DEFAULT_FEE_BASIS_POINTS);
    assert_eq!(fee, 250);
    assert_eq!(owner.bytes, [5u8; 20]);
    assert_eq!(balance, 0);
    e.initialize(&ctx(addr(6), 0, START + 1));
    assert_eq!(e.get_platform_stats().1.bytes, [5u8; 20]);
}

#[test]
fn create_without_value_is_refused() {
    let mut e = TaskBounty::new();
    e.initialize(&ctx(creator(), 0, START));
    let r = e.create_task(&ctx(creator(), 0, START), [1u8; 32], [2u8; 32], 5);
    assert_eq!(r, Err(BountyError::NoFunds));
    assert_eq!(e.get_task_count(), 0);
    assert_eq!(e.get_user_stats(&creator()), (0, 0));
}

#[test]
fn create_records_task_and_counts() {
    let mut e = engine_with_task(500, 3);
    let (c, bounty, assignee, status, title, description, deadline) = e.get_task(1);
    assert_eq!(c.bytes, creator().bytes);
    assert_eq!(bounty, 500);
    assert_eq!(assignee.bytes, [0u8; 20]);
    assert_eq!(status, TaskStatus::Open);
    assert_eq!(title, [7u8; 32]);
    assert_eq!(description, [9u8; 32]);
    assert_eq!(deadline, START as u128 + 3 * 3600);
    assert_eq!(SECONDS_PER_HOUR, 3600);
    assert_eq!(e.get_user_stats(&creator()), (0, 1));
    let second = e.create_task(&ctx(creator(), 10, START), [0u8; 32], [0u8; 32], 1);
    assert_eq!(second, Ok(2));
    assert_eq!(e.get_task_count(), 2);
    assert_eq!(e.get_user_stats(&creator()), (0, 2));
}

#[test]
fn unknown_task_reads_as_zero_record() {
    let e = engine_with_task(500, 3);
    for id in [0u64, 2, 99] {
        let (c, bounty, assignee, status, title, description, deadline) = e.get_task(id);
        assert_eq!(c.bytes, [0u8; 20]);
        assert_eq!(bounty, 0);
        assert_eq!(assignee.bytes, [0u8; 20]);
        assert_eq!(status, TaskStatus::Open);
        assert_eq!(title, [0u8; 32]);
        assert_eq!(description, [0u8; 32]);
        assert_eq!(deadline, 0);
    }
    assert_eq!(e.get_user_stats(&addr(42)), (0, 0));
}

#[test]
fn happy_path_pays_worker_minus_fee() {
    let mut e = engine_with_submitted_task(1000);
    assert_eq!(status_of(&e, 1), TaskStatus::Completed);
    let paid = e.approve_and_pay(&ctx(creator(), 0, START + 10), 1).unwrap();
    assert_eq!(paid.to.bytes, worker().bytes);
    assert_eq!(paid.amount, 975);
    assert_eq!(e.get_platform_stats().2, 25);
    assert_eq!(bounty_of(&e, 1), 0);
    assert_eq!(e.get_user_stats(&worker()), (1, 0));
    assert_eq!(status_of(&e, 1), TaskStatus::Completed);
}

#[test]
fn accept_after_deadline_is_refused() {
    let mut e = engine_with_task(1000, 2);
    let late = START + 2 * 3600 + 1;
    assert_eq!(e.accept_task(&ctx(worker(), 0, late), 1), Err(BountyError::WindowExpired));
    assert_eq!(status_of(&e, 1), TaskStatus::Open);
    assert_eq!(e.get_task(1).2.bytes, [0u8; 20]);
    let at_deadline = START + 2 * 3600;
    assert_eq!(e.accept_task(&ctx(worker(), 0, at_deadline), 1), Ok(()));
    assert_eq!(status_of(&e, 1), TaskStatus::InProgress);
    assert_eq!(e.get_task(1).2.bytes, worker().bytes);
}

#[test]
fn accept_twice_is_refused() {
    let mut e = engine_with_task(1000, 2);
    assert_eq!(e.accept_task(&ctx(worker(), 0, START), 1), Ok(()));
    assert_eq!(e.accept_task(&ctx(addr(3), 0, START), 1), Err(BountyError::InvalidState));
    assert_eq!(e.get_task(1).2.bytes, worker().bytes);
}

#[test]
fn operations_on_unknown_task_are_refused() {
    let mut e = engine_with_task(1000, 2);
    let c = ctx(creator(), 0, START);
    assert_eq!(e.accept_task(&c, 0), Err(BountyError::UnknownTask));
    assert_eq!(e.submit_task(&c, 5), Err(BountyError::UnknownTask));
    assert_eq!(e.approve_and_pay(&c, 5).unwrap_err(), BountyError::UnknownTask);
    assert_eq!(e.release_payment(&c, 5).unwrap_err(), BountyError::UnknownTask);
    assert_eq!(e.raise_dispute(&c, 5), Err(BountyError::UnknownTask));
    assert_eq!(e.cancel_task(&c, 0).unwrap_err(), BountyError::UnknownTask);
}

#[test]
fn submit_by_other_than_assignee_is_refused() {
    let mut e = engine_with_task(1000, 2);
    assert_eq!(e.accept_task(&ctx(worker(), 0, START), 1), Ok(()));
    assert_eq!(e.submit_task(&ctx(addr(3), 0, START), 1), Err(BountyError::Unauthorized));
    assert_eq!(status_of(&e, 1), TaskStatus::InProgress);
}

#[test]
fn submit_before_accept_is_refused() {
    let mut e = engine_with_task(1000, 2);
    // The unassigned task's assignee is the zero address.
    assert_eq!(e.submit_task(&ctx(Address::zero(), 0, START), 1), Err(BountyError::InvalidState));
}

#[test]
fn submit_opens_dispute_window() {
    let mut e = engine_with_submitted_task(1000);
    let c = ctx(creator(), 0, START + DISPUTE_WINDOW_SECONDS);
    assert_eq!(e.raise_dispute(&c, 1), Ok(()));
    assert_eq!(status_of(&e, 1), TaskStatus::Disputed);
}

#[test]
fn release_before_window_elapses_is_refused() {
    let mut e = engine_with_submitted_task(1000);
    for now in [START, START + 1, START + 86_400] {
        let r = e.release_payment(&ctx(addr(9), 0, now), 1);
        assert_eq!(r.unwrap_err(), BountyError::WindowNotYetElapsed);
    }
    assert_eq!(bounty_of(&e, 1), 1000);
    assert_eq!(e.get_platform_stats().2, 0);
}

#[test]
fn release_after_window_pays_anyone_triggering() {
    let mut e = engine_with_submitted_task(1000);
    let paid = e.release_payment(&ctx(addr(9), 0, START + 86_401), 1).unwrap();
    assert_eq!(paid.to.bytes, worker().bytes);
    assert_eq!(paid.amount, 975);
    assert_eq!(e.get_platform_stats().2, 25);
    assert_eq!(bounty_of(&e, 1), 0);
    let again = e.release_payment(&ctx(addr(9), 0, START + 90_000), 1);
    assert_eq!(again.unwrap_err(), BountyError::AlreadySettled);
}

#[test]
fn dispute_after_window_is_refused() {
    let mut e = engine_with_submitted_task(1000);
    let late = ctx(creator(), 0, START + 86_401);
    assert_eq!(e.raise_dispute(&late, 1), Err(BountyError::WindowExpired));
    assert_eq!(status_of(&e, 1), TaskStatus::Completed);
}

#[test]
fn dispute_blocks_every_later_payout() {
    let mut e = engine_with_submitted_task(1000);
    assert_eq!(e.raise_dispute(&ctx(addr(3), 0, START + 5), 1), Err(BountyError::Unauthorized));
    assert_eq!(e.raise_dispute(&ctx(creator(), 0, START + 5), 1), Ok(()));
    assert_eq!(status_of(&e, 1), TaskStatus::Disputed);
    for now in [START + 6, START + 86_401, START + 10_000_000] {
        let approve = e.approve_and_pay(&ctx(creator(), 0, now), 1);
        assert_eq!(approve.unwrap_err(), BountyError::AlreadyDisputed);
        let release = e.release_payment(&ctx(addr(9), 0, now), 1);
        assert_eq!(release.unwrap_err(), BountyError::AlreadyDisputed);
    }
    assert_eq!(bounty_of(&e, 1), 1000);
    assert_eq!(e.raise_dispute(&ctx(creator(), 0, START + 7), 1), Err(BountyError::InvalidState));
}

#[test]
fn approve_by_non_creator_is_refused() {
    let mut e = engine_with_submitted_task(1000);
    let r = e.approve_and_pay(&ctx(worker(), 0, START + 1), 1);
    assert_eq!(r.unwrap_err(), BountyError::Unauthorized);
    assert_eq!(bounty_of(&e, 1), 1000);
}

#[test]
fn approve_before_submission_is_refused() {
    let mut e = engine_with_task(1000, 2);
    assert_eq!(e.accept_task(&ctx(worker(), 0, START), 1), Ok(()));
    let r = e.approve_and_pay(&ctx(creator(), 0, START + 1), 1);
    assert_eq!(r.unwrap_err(), BountyError::InvalidState);
    let r = e.release_payment(&ctx(creator(), 0, START + 100_000), 1);
    assert_eq!(r.unwrap_err(), BountyError::InvalidState);
}

#[test]
fn second_approval_of_paid_task_is_refused() {
    let mut e = engine_with_submitted_task(1000);
    assert!(e.approve_and_pay(&ctx(creator(), 0, START + 1), 1).is_ok());
    let again = e.approve_and_pay(&ctx(creator(), 0, START + 2), 1);
    assert_eq!(again.unwrap_err(), BountyError::AlreadySettled);
    assert_eq!(status_of(&e, 1), TaskStatus::Completed);
    assert_eq!(bounty_of(&e, 1), 0);
    assert_eq!(e.get_platform_stats().2, 25);
    assert_eq!(e.get_user_stats(&worker()), (1, 0));
}

#[test]
fn cancel_refunds_open_task_once() {
    let mut e = engine_with_task(1000, 2);
    let c = ctx(creator(), 0, START + 1);
    assert_eq!(e.cancel_task(&ctx(worker(), 0, START), 1).unwrap_err(), BountyError::Unauthorized);
    let refund: Transfer = e.cancel_task(&c, 1).unwrap();
    assert_eq!(refund.to.bytes, creator().bytes);
    assert_eq!(refund.amount, 1000);
    assert_eq!(bounty_of(&e, 1), 0);
    assert_eq!(status_of(&e, 1), TaskStatus::Open);
    assert_eq!(e.cancel_task(&c, 1).unwrap_err(), BountyError::AlreadySettled);
}

#[test]
fn cancel_of_accepted_task_is_refused() {
    let mut e = engine_with_task(1000, 2);
    assert_eq!(e.accept_task(&ctx(worker(), 0, START), 1), Ok(()));
    let c = ctx(creator(), 0, START + 1);
    assert_eq!(e.cancel_task(&c, 1).unwrap_err(), BountyError::InvalidState);
    assert_eq!(bounty_of(&e, 1), 1000);
    assert_eq!(e.submit_task(&ctx(worker(), 0, START + 2), 1), Ok(()));
    assert_eq!(e.cancel_task(&c, 1).unwrap_err(), BountyError::InvalidState);
    assert_eq!(bounty_of(&e, 1), 1000);
}

#[test]
fn cancelled_task_cannot_be_paid_again() {
    let mut e = engine_with_task(1000, 2);
    assert!(e.cancel_task(&ctx(creator(), 0, START), 1).is_ok());
    // The cancelled task stays open and can still be taken, but holds nothing.
    assert_eq!(e.accept_task(&ctx(worker(), 0, START), 1), Ok(()));
    assert_eq!(e.submit_task(&ctx(worker(), 0, START), 1), Ok(()));
    let r = e.approve_and_pay(&ctx(creator(), 0, START + 1), 1);
    assert_eq!(r.unwrap_err(), BountyError::AlreadySettled);
    assert_eq!(e.get_user_stats(&worker()), (0, 0));
}

#[test]
fn bounty_never_grows_over_a_run() {
    let mut e = engine_with_submitted_task(4000);
    let mut last = bounty_of(&e, 1);
    let c = ctx(creator(), 0, START + 1);
    let calls: [u8; 5] = [0, 1, 2, 1, 0];
    for call in calls {
        let _ = match call {
            0 => e.approve_and_pay(&c, 1).map(|_| ()),
            1 => e.release_payment(&ctx(addr(9), 0, START + 100_000), 1).map(|_| ()),
            _ => e.cancel_task(&c, 1).map(|_| ()),
        };
        let now = bounty_of(&e, 1);
        assert!(now <= last);
        last = now;
    }
    assert_eq!(last, 0);
    assert_eq!(e.get_platform_stats().2, 100);
}

#[test]
fn fee_rounds_down() {
    assert_eq!(compute_fee(1000, 250), 25);
    assert_eq!(compute_fee(39, 250), 0);
    assert_eq!(compute_fee(40, 250), 1);
    assert_eq!(compute_fee(12_345, 10_000), 12_345);
    assert_eq!(compute_fee(0, 250), 0);
    assert_eq!(compute_fee(u128::MAX, 250), u128::MAX / 10_000 * 250 + (u128::MAX % 10_000) * 250 / 10_000);
    assert_eq!(split_payout(1001, 250), (25, 976));
}

#[test]
fn large_bounty_does_not_overflow_fee() {
    let mut e = engine_with_submitted_task(u128::MAX);
    let paid = e.approve_and_pay(&ctx(creator(), 0, START + 1), 1).unwrap();
    let fee = compute_fee(u128::MAX, 250);
    assert_eq!(paid.amount, u128::MAX - fee);
    assert_eq!(e.get_platform_stats().2, fee);
}

#[test]
fn ledger_overflow_is_refused() {
    let mut e = TaskBounty::new();
    e.initialize(&ctx(creator(), 0, START));
    for id in 1..=41u64 {
        let made = e.create_task(&ctx(creator(), u128::MAX, START), [0u8; 32], [0u8; 32], 1);
        assert_eq!(made, Ok(id));
        assert_eq!(e.accept_task(&ctx(worker(), 0, START), id), Ok(()));
        assert_eq!(e.submit_task(&ctx(worker(), 0, START), id), Ok(()));
    }
    let fee = compute_fee(u128::MAX, 250);
    let c = ctx(creator(), 0, START + 1);
    for id in 1..=40u64 {
        assert!(e.approve_and_pay(&c, id).is_ok());
    }
    assert_eq!(e.get_platform_stats().2, 40 * fee);
    assert_eq!(e.approve_and_pay(&c, 41).unwrap_err(), BountyError::Overflow);
    assert_eq!(bounty_of(&e, 41), u128::MAX);
    assert_eq!(e.get_platform_stats().2, 40 * fee);
    assert_eq!(e.get_user_stats(&worker()), (40, 0));
}

#[test]
fn status_codes_match_external_tags() {
    assert_eq!(TaskStatus::Open.code(), 0);
    assert_eq!(TaskStatus::InProgress.code(), 1);
    assert_eq!(TaskStatus::Completed.code(), 2);
    assert_eq!(TaskStatus::Disputed.code(), 3);
}

#[test]
fn addresses_compare_by_bytes() {
    assert!(addr(3).same_as(&addr(3)));
    let mut b = [3u8; 20];
    b[19] = 4;
    assert!(!addr(3).same_as(&Address::from_bytes(b)));
    assert!(Address::zero().is_zero_address());
    assert!(!addr(3).is_zero_address());
}
