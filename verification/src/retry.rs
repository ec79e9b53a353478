//! The bounded retry loop: probe, decide, sleep, until the probe is ready,
//! fails for good, or the deadline has passed.
//!
//! All times are milliseconds. `elapsed` is the time gone by since the
//! deadline's start, as the loop accounts for it.

use vstd::prelude::*;
use crate::deadline::Deadline;
use crate::outcome::{ErrorKind, PollOutcome};

verus! {

/// The shortest pause between two probes. A shorter interval, zero above all,
/// is raised to this, so that the remote side is never polled without a pause.
pub const MIN_INTERVAL: u64 = 1;

/// How one use site retries.
#[derive(Clone, Copy, Debug, PartialEq, Eq, Structural)]
pub struct RetryPolicy {
    /// The pause between two probes.
    pub interval: u64,
    /// The time budget of the whole wait.
    pub deadline: Deadline,
    /// Whether a failed probe ends the wait.
    pub abort_on_first_failure: bool,
}

/// What the loop does once a probe has reported.
#[derive(Debug, PartialEq, Eq)]
pub enum Step<T> {
    /// The wait ends with this result.
    Return(Result<T, ErrorKind>),
    /// Sleep this long, then probe again.
    Sleep(u64),
}

impl RetryPolicy {
    /// The interval, raised to `MIN_INTERVAL` where it is shorter.
    pub open spec fn spec_effective_interval(self) -> u64 {
        if self.interval < MIN_INTERVAL {
            MIN_INTERVAL
        } else {
            self.interval
        }
    }

    /// The pause that follows an undecided probe at `elapsed`: the effective
    /// interval, cut down to what is left of the budget.
    pub open spec fn spec_pause(self, elapsed: u64) -> u64 {
        let left = self.deadline.budget - elapsed;
        if elapsed >= self.deadline.budget {
            0
        } else if self.spec_effective_interval() <= left {
            self.spec_effective_interval()
        } else {
            left as u64
        }
    }

    /// A probe outcome that by itself does not end the wait: not ready yet,
    /// or a failure that the policy tolerates.
    pub open spec fn spec_undecided<T>(self, outcome: PollOutcome<T>) -> bool {
        match outcome {
            PollOutcome::Ready(_) => false,
            PollOutcome::NotYetReady => true,
            PollOutcome::Failed(_) => !self.abort_on_first_failure,
        }
    }

    /// The step that follows a probe outcome received at `elapsed`.
    ///
    /// A ready probe ends the wait with its value. A failed one ends it with
    /// its error if the policy aborts on failure. Anything else ends it with
    /// `TimedOut` once the budget is spent, and otherwise asks for a pause.
    pub open spec fn spec_decide<T>(self, outcome: PollOutcome<T>, elapsed: u64) -> Step<T> {
        match outcome {
            PollOutcome::Ready(v) => Step::Return(Ok(v)),
            PollOutcome::Failed(e) if self.abort_on_first_failure => Step::Return(Err(e)),
            _ => if elapsed >= self.deadline.budget {
                Step::Return(Err(ErrorKind::TimedOut))
            } else {
                Step::Sleep(self.spec_pause(elapsed))
            },
        }
    }

    pub fn new(interval: u64, deadline: Deadline, abort_on_first_failure: bool) -> (p: RetryPolicy)
        ensures
            p == (RetryPolicy { interval, deadline, abort_on_first_failure }),
    {
        RetryPolicy { interval, deadline, abort_on_first_failure }
    }

    pub fn effective_interval(&self) -> (i: u64)
        ensures
            i == self.spec_effective_interval(),
            i >= MIN_INTERVAL,
    {
        if self.interval < MIN_INTERVAL {
            MIN_INTERVAL
        } else {
            self.interval
        }
    }

    pub fn decide<T>(&self, outcome: PollOutcome<T>, elapsed: u64) -> (step: Step<T>)
        ensures
            step == self.spec_decide(outcome, elapsed),
            step matches Step::Sleep(d) ==> 1 <= d && elapsed + d <= self.deadline.budget,
    {
        match outcome {
            PollOutcome::Ready(v) => Step::Return(Ok(v)),
            PollOutcome::Failed(e) => {
                if self.abort_on_first_failure {
                    Step::Return(Err(e))
                } else {
                    self.pause_or_time_out(elapsed)
                }
            },
            PollOutcome::NotYetReady => self.pause_or_time_out(elapsed),
        }
    }

    fn pause_or_time_out<T>(&self, elapsed: u64) -> (step: Step<T>)
        ensures
            step == self.spec_decide(PollOutcome::<T>::NotYetReady, elapsed),
            step matches Step::Sleep(d) ==> 1 <= d && elapsed + d <= self.deadline.budget,
    {
        if elapsed >= self.deadline.budget {
            Step::Return(Err(ErrorKind::TimedOut))
        } else {
            let left: u64 = self.deadline.budget - elapsed;
            let interval: u64 = self.effective_interval();
            if interval <= left {
                Step::Sleep(interval)
            } else {
                Step::Sleep(left)
            }
        }
    }
}

/// The retry loop goes by the deadline clock: after an undecided probe at
/// clock reading `now` it gives up exactly if the deadline has expired, and
/// the pause it asks for otherwise is the effective interval or what remains
/// of the budget, whichever is less.
pub proof fn lemma_decide_goes_by_deadline<T>(policy: RetryPolicy, outcome: PollOutcome<T>, now: u64)
    requires
        policy.spec_undecided(outcome),
    ensures
        policy.deadline.spec_elapsed(now) <= u64::MAX,
        policy.deadline.spec_expired(now) <==> policy.spec_decide(
            outcome,
            policy.deadline.spec_elapsed(now) as u64,
        ) == Step::<T>::Return(Err(ErrorKind::TimedOut)),
        !policy.deadline.spec_expired(now) ==> policy.spec_decide(
            outcome,
            policy.deadline.spec_elapsed(now) as u64,
        ) == Step::<T>::Sleep(
            if policy.spec_effective_interval() <= policy.deadline.spec_remaining(now) {
                policy.spec_effective_interval()
            } else {
                policy.deadline.spec_remaining(now) as u64
            },
        ),
{
}

/// The book that a wait keeps: how much time it accounts for, how often it
/// has paused, and for how long in all.
///
/// Time that the wait has asked to sleep counts as gone by even where the
/// clock does not show it. So each pause moves the account forward, and a
/// wait that has its outcomes settled here ends after finitely many probes.
pub struct RetryLoop {
    policy: RetryPolicy,
    accounted: u64,
    retries: u64,
    slept: u64,
}

impl RetryLoop {
    #[verifier::type_invariant]
    spec fn well_formed(self) -> bool {
        &&& self.accounted <= self.policy.deadline.budget
        &&& self.slept <= self.accounted
        &&& self.retries <= self.accounted
    }

    pub closed spec fn spec_policy(self) -> RetryPolicy {
        self.policy
    }

    /// The time accounted for before the next probe.
    pub closed spec fn spec_accounted(self) -> u64 {
        self.accounted
    }

    pub closed spec fn spec_retries(self) -> u64 {
        self.retries
    }

    pub closed spec fn spec_slept(self) -> u64 {
        self.slept
    }

    /// The time at which an outcome comes in when the clock reads `now`: what
    /// the clock shows as elapsed, or what is accounted for if that is more.
    pub open spec fn spec_elapsed_at(self, now: u64) -> u64 {
        let shown = self.spec_policy().deadline.spec_elapsed(now);
        if shown >= self.spec_accounted() {
            shown as u64
        } else {
            self.spec_accounted()
        }
    }

    /// A wait under `policy` that has not probed yet.
    pub fn new(policy: RetryPolicy) -> (book: RetryLoop)
        ensures
            book.spec_policy() == policy,
            book.spec_accounted() == 0,
            book.spec_retries() == 0,
            book.spec_slept() == 0,
    {
        RetryLoop { policy, accounted: 0, retries: 0, slept: 0 }
    }

    pub fn policy(&self) -> (p: RetryPolicy)
        ensures
            p == self.spec_policy(),
    {
        self.policy
    }

    /// How often the wait has paused so far.
    pub fn retries(&self) -> (n: u64)
        ensures
            n == self.spec_retries(),
    {
        self.retries
    }

    /// How long the wait has slept so far; never more than the budget.
    pub fn slept(&self) -> (t: u64)
        ensures
            t == self.spec_slept(),
            t <= self.spec_policy().deadline.budget,
    {
        proof {
            use_type_invariant(self);
        }
        self.slept
    }

    /// Settles the outcome of a probe that came in when the clock read
    /// `now`: the step is what the policy decides at the time that outcome
    /// came in, and a pause is entered in the book.
    pub fn settle<T>(&mut self, outcome: PollOutcome<T>, now: u64) -> (step: Step<T>)
        ensures
            step == old(self).spec_policy().spec_decide(outcome, old(self).spec_elapsed_at(now)),
            final(self).spec_policy() == old(self).spec_policy(),
            match step {
                Step::Return(_) => {
                    &&& final(self).spec_accounted() == old(self).spec_accounted()
                    &&& final(self).spec_retries() == old(self).spec_retries()
                    &&& final(self).spec_slept() == old(self).spec_slept()
                },
                Step::Sleep(d) => {
                    &&& d >= 1
                    &&& final(self).spec_accounted() == old(self).spec_elapsed_at(now) + d
                    &&& final(self).spec_accounted() <= old(self).spec_policy().deadline.budget
                    &&& final(self).spec_accounted() > old(self).spec_accounted()
                    &&& final(self).spec_retries() == old(self).spec_retries() + 1
                    &&& final(self).spec_slept() == old(self).spec_slept() + d
                },
            },
    {
        proof {
            use_type_invariant(&*self);
        }
        let shown: u64 = self.policy.deadline.elapsed(now);
        let elapsed: u64 = if shown >= self.accounted {
            shown
        } else {
            self.accounted
        };
        let step = self.policy.decide(outcome, elapsed);
        match step {
            Step::Return(result) => Step::Return(result),
            Step::Sleep(d) => {
                self.accounted = elapsed + d;
                self.slept = self.slept + d;
                self.retries = self.retries + 1;
                Step::Sleep(d)
            },
        }
    }
}

} // verus!
