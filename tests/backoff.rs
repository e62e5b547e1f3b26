use git2_hooks::backoff::{Backoff, PollDecision, NANOS_PER_MILLI};

const MS: u64 = NANOS_PER_MILLI;

/// Drives a wait on a simulated clock: each poll costs `poll_cost` and each
/// pause lasts as granted. The work completes once the clock passes
/// `complete_after`, if given. Returns whether it completed, the clock at the
/// end, and the pauses granted.
fn simulate(timeout: u64, complete_after: Option<u64>, poll_cost: u64) -> (bool, u64, Vec<u64>) {
    let mut b = Backoff::new(timeout);
    let mut clock: u64 = 0;
    let mut sleeps = Vec::new();
    loop {
        clock += poll_cost;
        let complete = matches!(complete_after, Some(t) if clock > t);
        match b.next(complete, clock) {
            PollDecision::Complete => return (true, clock, sleeps),
            PollDecision::TimedOut => return (false, clock, sleeps),
            PollDecision::Sleep(d) => {
                sleeps.push(d);
                clock += d;
            }
        }
    }
}

#[test]
fn test_timeout_with_quadratic_backoff_cost() {
    let timeout = 100 * MS;
    let (result, elapsed, _) = simulate(timeout, None, 1_000);
    assert_eq!(result, false);
    assert!(elapsed < timeout + 10 * MS);
}

#[test]
fn test_timeout_with_quadratic_backoff_timeout() {
    let timeout = 100 * MS;
    let wait_time = 5 * MS;
    let (result, elapsed, sleeps) = simulate(timeout, Some(wait_time), 1);
    assert!(result);
    assert_eq!(5, elapsed / MS);
    assert_eq!(sleeps, vec![MS, 4 * MS]);
}

#[test]
fn test_timeout_with_quadratic_backoff_overhead() {
    const TARGET_ATTEMPTS: u64 = 8;
    let timeout = 190 * MS;
    let poll_cost: u64 = 1_000;
    let (result, elapsed, sleeps) = simulate(timeout, None, poll_cost);
    assert!(!result);
    let overhead = (elapsed - timeout) / 1_000;
    assert!(overhead < TARGET_ATTEMPTS * 15);
    assert_eq!(&sleeps[..7], &[MS, 4 * MS, 9 * MS, 16 * MS, 25 * MS, 36 * MS, 49 * MS]);
}

#[test]
fn delay_follows_quadratic_schedule_with_cap() {
    assert_eq!(Backoff::delay(1), MS);
    assert_eq!(Backoff::delay(2), 4 * MS);
    assert_eq!(Backoff::delay(7), 49 * MS);
    assert_eq!(Backoff::delay(8), 50 * MS);
    assert_eq!(Backoff::delay(1_000_000), 50 * MS);
    assert_eq!(Backoff::delay(u64::MAX), 50 * MS);
}

#[test]
fn pause_is_cut_at_the_deadline() {
    let mut b = Backoff::new(10 * MS);
    b.attempt = 5;
    assert_eq!(b.next(false, 7 * MS), PollDecision::Sleep(3 * MS));
    assert_eq!(b.attempt, 6);
}

#[test]
fn poll_past_deadline_times_out_and_complete_wins() {
    let mut b = Backoff::new(10 * MS);
    assert_eq!(b.next(false, 10 * MS + 1), PollDecision::TimedOut);
    assert_eq!(b.attempt, 1);
    assert_eq!(b.next(true, 10 * MS + 1), PollDecision::Complete);
    assert_eq!(b.next(false, 0), PollDecision::Sleep(MS));
    assert_eq!(b.attempt, 2);
}

#[test]
fn exact_clock_wakes_on_schedule() {
    // 1 + 4 + 9 + 16 + 25 + 36 + 49 + 50 = 190
    let timeout = 1_000 * MS;
    let mut b = Backoff::new(timeout);
    let mut clock: u64 = 0;
    for _ in 0..8 {
        match b.next(false, clock) {
            PollDecision::Sleep(d) => clock += d,
            other => panic!("unexpected {:?}", other),
        }
    }
    assert_eq!(clock, 190 * MS);
}
