//! One running instance, held by a named mutex.
//!
//! After an update the new process may start before the old one has let go of the mutex, so an
//! occupied one is tried again for a short while.

use vstd::prelude::*;

verus! {

pub const MUTEX_NAME: &'static str = "Local\\StreamPainter.App.2D711CD6-61E0-4E20-AEA2-9A4906C85328";

pub const HANDOFF_RETRY_BUDGET_NS: u64 = 2_000_000_000;

pub const HANDOFF_RETRY_INTERVAL_NS: u64 = 50_000_000;

/// The system's code for a name that was already in use.
pub const ERROR_ALREADY_EXISTS: u32 = 183;

/// Whether a mutex that could be opened is this process's own, by the code that came with it.
pub fn newly_created(last_error: u32) -> (created: bool)
    ensures
        created == (last_error != ERROR_ALREADY_EXISTS),
{
    last_error != ERROR_ALREADY_EXISTS
}

/// What to do after an attempt.
#[derive(Clone, Copy, Debug, PartialEq, Eq, Structural)]
pub enum RetryStep {
    Acquired,
    GiveUp,
    /// Sleep for the interval and try again.
    Wait,
}

/// Attempts at the mutex up to a deadline.
#[derive(Clone, Copy, Debug, PartialEq, Eq, Structural)]
pub struct Retry {
    pub deadline: u64,
}

impl Retry {
    /// Attempts that begin at time `now` and go on for `budget`.
    pub fn start(now: u64, budget: u64) -> (retry: Self)
        requires
            now + budget <= u64::MAX,
        ensures
            retry.deadline == now + budget,
    {
        Retry { deadline: now + budget }
    }

    pub open spec fn next(self, acquired: bool, now: u64) -> RetryStep {
        if acquired {
            RetryStep::Acquired
        } else if now >= self.deadline {
            RetryStep::GiveUp
        } else {
            RetryStep::Wait
        }
    }

    /// Takes the outcome of an attempt and the time after it.
    pub fn after_attempt(&self, acquired: bool, now: u64) -> (step: RetryStep)
        ensures
            step == self.next(acquired, now),
    {
        if acquired {
            RetryStep::Acquired
        } else if now >= self.deadline {
            RetryStep::GiveUp
        } else {
            RetryStep::Wait
        }
    }
}

/// Attempts that wait at least `interval` after each other end: no more of them wait than fit into
/// the budget.
pub proof fn law_waiting_ends(retry: Retry, start: u64, interval: nat, times: Seq<u64>)
    requires
        times.len() > 0,
        start <= times[0],
        forall|i: int|
            0 <= i < times.len() ==> retry.next(false, #[trigger] times[i]) == RetryStep::Wait,
        forall|i: int| 0 <= i < times.len() - 1 ==> times[i] + interval <= #[trigger] times[i + 1],
    ensures
        start + (times.len() - 1) * interval < retry.deadline,
{
    lemma_spacing(start, interval, times);
    assert(retry.next(false, times[times.len() - 1]) == RetryStep::Wait);
}

proof fn lemma_spacing(start: u64, interval: nat, times: Seq<u64>)
    requires
        times.len() > 0,
        start <= times[0],
        forall|i: int| 0 <= i < times.len() - 1 ==> times[i] + interval <= #[trigger] times[i + 1],
    ensures
        start + (times.len() - 1) * interval <= times[times.len() - 1],
    decreases times.len(),
{
    if times.len() > 1 {
        let earlier = times.drop_last();
        assert forall|i: int| 0 <= i < earlier.len() - 1 implies earlier[i] + interval
            <= #[trigger] earlier[i + 1] by {
            assert(times[i] + interval <= times[i + 1]);
        }
        lemma_spacing(start, interval, earlier);
        let last = times.len() - 2;
        assert(times[last] + interval <= times[last + 1]);
        assert((times.len() - 1) * interval == (earlier.len() - 1) * interval + interval)
            by (nonlinear_arith)
            requires
                times.len() == earlier.len() + 1,
        ;
    } else {
        assert((times.len() - 1) * interval == 0) by (nonlinear_arith)
            requires
                times.len() == 1,
        ;
    }
}

/// An attempt that succeeds ends the waiting at once; one that fails is followed by another until
/// the deadline, and by none from then on.
pub proof fn law_waiting_goes_on_until_the_deadline(retry: Retry, acquired: bool, now: u64)
    ensures
        retry.next(acquired, now) == RetryStep::Acquired <==> acquired,
        retry.next(acquired, now) == RetryStep::Wait <==> !acquired && now < retry.deadline,
        retry.next(acquired, now) == RetryStep::GiveUp <==> !acquired && now >= retry.deadline,
{
}

} // verus!
