//! The decisions of a wait that polls for completion with growing pauses
//! between polls and gives up once a time budget is spent.
//!
//! Poll number `n`, counted from one, is followed by a pause of
//! `min(n * n * BASE_MILLIS, MAX_SLEEP_MILLIS)` milliseconds, cut short so that
//! it never ends past the budget. All times are in nanoseconds.

use vstd::prelude::*;

verus! {

/// The unit of the pause schedule, in milliseconds.
pub const BASE_MILLIS: u64 = 1;

/// The longest pause between two polls, in milliseconds.
pub const MAX_SLEEP_MILLIS: u64 = 50;

/// Nanoseconds in a millisecond.
pub const NANOS_PER_MILLI: u64 = 1_000_000;

/// The pause after poll number `attempt`, in nanoseconds, before the budget cuts it.
pub open spec fn backoff_delay(attempt: nat) -> nat {
    let ms = (attempt * attempt * BASE_MILLIS) as nat;
    ((if ms < MAX_SLEEP_MILLIS { ms } else { MAX_SLEEP_MILLIS as nat }) * NANOS_PER_MILLI) as nat
}

/// The sum of the uncut pauses after polls `1..=n`.
pub open spec fn schedule_total(n: nat) -> nat
    decreases n,
{
    if n == 0 {
        0
    } else {
        schedule_total((n - 1) as nat) + backoff_delay(n)
    }
}

/// What the waiting side does after a poll.
#[derive(Debug, Clone, Copy, PartialEq, Eq, Structural)]
pub enum PollDecision {
    /// The awaited work has finished.
    Complete,
    /// The budget is spent and the work has not finished.
    TimedOut,
    /// Pause for this many nanoseconds, then poll again.
    Sleep(u64),
}

/// The decision after poll number `attempt`, which found the work `complete` or
/// not, with `elapsed` nanoseconds gone of a budget of `timeout`.
pub open spec fn poll_decision(attempt: nat, complete: bool, elapsed: nat, timeout: nat) -> PollDecision {
    if complete {
        PollDecision::Complete
    } else if elapsed > timeout {
        PollDecision::TimedOut
    } else if backoff_delay(attempt) <= timeout - elapsed {
        PollDecision::Sleep(backoff_delay(attempt) as u64)
    } else {
        PollDecision::Sleep((timeout - elapsed) as u64)
    }
}

/// The state of a polling wait: the budget and the number of the next poll.
#[derive(Debug, Clone, Copy, PartialEq, Eq, Structural)]
pub struct Backoff {
    pub timeout: u64,
    pub attempt: u64,
}

impl Backoff {
    /// A wait with a budget of `timeout` nanoseconds, before its first poll.
    pub open spec fn new_spec(timeout: u64) -> Backoff {
        Backoff { timeout, attempt: 1 }
    }

    /// A wait with a budget of `timeout` nanoseconds, before its first poll.
    pub fn new(timeout: u64) -> (r: Backoff)
        ensures
            r == Backoff::new_spec(timeout),
    {
        Backoff { timeout, attempt: 1 }
    }

    /// The pause that follows poll number `attempt`, before the budget cuts it.
    pub fn delay(attempt: u64) -> (r: u64)
        ensures
            r == backoff_delay(attempt as nat),
    {
        let ms: u64 = if attempt >= 8 {
            MAX_SLEEP_MILLIS
        } else {
            assert(attempt * attempt <= 49) by (nonlinear_arith)
                requires
                    attempt < 8,
            ;
            let sq: u64 = attempt * attempt * BASE_MILLIS;
            if sq < MAX_SLEEP_MILLIS {
                sq
            } else {
                MAX_SLEEP_MILLIS
            }
        };
        assert(attempt >= 8 ==> attempt * attempt >= 64) by (nonlinear_arith);
        ms * NANOS_PER_MILLI
    }

    /// Decides what follows a poll that found the work `complete` or not, with
    /// `elapsed` nanoseconds gone since the wait began. The poll count moves on
    /// when the decision is to pause.
    pub fn next(&mut self, complete: bool, elapsed: u64) -> (r: PollDecision)
        ensures
            r == poll_decision(old(self).attempt as nat, complete, elapsed as nat, old(self).timeout as nat),
            final(self).timeout == old(self).timeout,
            final(self).attempt == if r is Sleep && old(self).attempt < u64::MAX {
                old(self).attempt + 1
            } else {
                old(self).attempt as int
            },
    {
        if complete {
            return PollDecision::Complete;
        }
        if elapsed > self.timeout {
            return PollDecision::TimedOut;
        }
        let remaining: u64 = self.timeout - elapsed;
        let mut sleep: u64 = Backoff::delay(self.attempt);
        if remaining < sleep {
            sleep = remaining;
        }
        if self.attempt < u64::MAX {
            self.attempt = self.attempt + 1;
        }
        PollDecision::Sleep(sleep)
    }
}

/// The clock of a wait that never finishes, read at each poll, where each
/// pause lasts exactly as granted and nothing else takes time: the reading at
/// poll number `n + 1`.
pub open spec fn exact_clock(n: nat, timeout: nat) -> nat
    decreases n,
{
    if n == 0 {
        0
    } else {
        let e = exact_clock((n - 1) as nat, timeout);
        match poll_decision(n, false, e, timeout) {
            PollDecision::Sleep(d) => e + d as nat,
            _ => e,
        }
    }
}

/// On an exact clock the pauses of an unfinished wait add up to the pause
/// schedule, cut at the budget: after `n` polls the wait has lasted
/// `min(schedule_total(n), timeout)`. So it never outlasts its budget, and it
/// wakes when the schedule says, for as long as the budget allows.
pub proof fn lemma_exact_clock_follows_schedule(n: nat, timeout: nat)
    requires
        timeout <= u64::MAX,
    ensures
        exact_clock(n, timeout) == if schedule_total(n) < timeout {
            schedule_total(n)
        } else {
            timeout
        },
    decreases n,
{
    if n > 0 {
        lemma_exact_clock_follows_schedule((n - 1) as nat, timeout);
        lemma_delay_bounded(n);
    }
}

/// A pause never reaches past the budget, and a poll after the budget is spent
/// ends the wait: an unfinished wait is given up at its first poll past the
/// deadline, having never slept beyond it.
pub proof fn lemma_pause_ends_within_budget(attempt: nat, complete: bool, elapsed: nat, timeout: nat)
    requires
        timeout <= u64::MAX,
    ensures
        poll_decision(attempt, complete, elapsed, timeout) matches PollDecision::Sleep(d) ==> elapsed
            + d <= timeout,
        !complete && elapsed > timeout ==> poll_decision(attempt, complete, elapsed, timeout)
            == PollDecision::TimedOut,
        complete ==> poll_decision(attempt, complete, elapsed, timeout) == PollDecision::Complete,
{
    lemma_delay_bounded(attempt);
}

/// No pause is longer than the longest one.
pub proof fn lemma_delay_bounded(attempt: nat)
    ensures
        backoff_delay(attempt) <= MAX_SLEEP_MILLIS * NANOS_PER_MILLI,
{
}

} // verus!
