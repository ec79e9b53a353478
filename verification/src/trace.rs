//! The retry loop as a function of what it observes. A trace lists, probe by
//! probe, the outcome that came in and the time accounted for at that moment;
//! `spec_run` says how a wait under a given policy ends on a given trace. The
//! proof functions below state what holds of every such wait.

use vstd::prelude::*;
use crate::outcome::{ErrorKind, PollOutcome};
use crate::retry::{RetryPolicy, Step};

verus! {

/// One probe: its outcome, and the time accounted for when it came in.
pub struct Tick<T> {
    pub outcome: PollOutcome<T>,
    pub elapsed: u64,
}

/// How a wait ends on a trace.
pub enum Run<T> {
    /// The trace ran out before the wait ended.
    Pending,
    /// The wait ended with `result`, having made `probes` probes.
    Finished { result: Result<T, ErrorKind>, probes: nat },
}

/// The step that the policy takes on one tick.
pub open spec fn spec_step<T>(policy: RetryPolicy, tick: Tick<T>) -> Step<T> {
    policy.spec_decide(tick.outcome, tick.elapsed)
}

/// The wait under `policy` on `trace`: the first tick on which the policy
/// returns ends it; ticks after that one are never looked at.
pub open spec fn spec_run<T>(policy: RetryPolicy, trace: Seq<Tick<T>>) -> Run<T>
    decreases trace.len(),
{
    if trace.len() == 0 {
        Run::Pending
    } else {
        match spec_step(policy, trace[0]) {
            Step::Return(result) => Run::Finished { result, probes: 1 },
            Step::Sleep(_) => match spec_run(policy, trace.drop_first()) {
                Run::Pending => Run::Pending,
                Run::Finished { result, probes } => Run::Finished { result, probes: probes + 1 },
            },
        }
    }
}

/// The time slept over the whole of `trace`, if a pause followed each tick.
pub open spec fn spec_slept<T>(policy: RetryPolicy, trace: Seq<Tick<T>>) -> nat
    decreases trace.len(),
{
    if trace.len() == 0 {
        0
    } else {
        spec_slept(policy, trace.drop_last()) + policy.spec_pause(trace.last().elapsed) as nat
    }
}

/// Time does not stand still between probes: each tick comes in no earlier
/// than the tick before it plus the pause that followed that one.
pub open spec fn spec_paced<T>(policy: RetryPolicy, trace: Seq<Tick<T>>) -> bool {
    forall|i: int|
        0 <= i < trace.len() - 1 ==> (#[trigger] trace[i + 1]).elapsed >= trace[i].elapsed
            + policy.spec_pause(trace[i].elapsed)
}

/// An ideal clock: the first probe comes in at time zero, probes take no
/// time, and each pause lasts exactly as long as asked.
pub open spec fn spec_ideal<T>(policy: RetryPolicy, trace: Seq<Tick<T>>) -> bool {
    &&& trace.len() > 0 ==> trace[0].elapsed == 0
    &&& forall|i: int|
        0 <= i < trace.len() - 1 ==> (#[trigger] trace[i + 1]).elapsed == trace[i].elapsed
            + policy.spec_pause(trace[i].elapsed)
}

/// The wait ends at the first tick on which the policy returns, with what it
/// returns there, and every tick before that one was followed by a pause.
pub proof fn lemma_run_ends_at_first_return<T>(policy: RetryPolicy, trace: Seq<Tick<T>>, k: int)
    requires
        0 <= k < trace.len(),
        forall|i: int| 0 <= i < k ==> spec_step(policy, #[trigger] trace[i]) is Sleep,
        spec_step(policy, trace[k]) is Return,
    ensures
        spec_run(policy, trace) == (Run::Finished {
            result: spec_step(policy, trace[k])->Return_0,
            probes: (k + 1) as nat,
        }),
    decreases k,
{
    if k > 0 {
        let rest = trace.drop_first();
        assert forall|i: int| 0 <= i < k - 1 implies spec_step(policy, #[trigger] rest[i]) is Sleep by {
            assert(rest[i] == trace[i + 1]);
        }
        assert(rest[k - 1] == trace[k]);
        lemma_run_ends_at_first_return(policy, rest, k - 1);
    }
}

/// A wait that ended on the last tick of its trace paused after every tick
/// before that one, and its result is what the policy returns on the last.
pub proof fn lemma_run_ended_on_last<T>(
    policy: RetryPolicy,
    trace: Seq<Tick<T>>,
    result: Result<T, ErrorKind>,
)
    requires
        spec_run(policy, trace) == (Run::Finished { result, probes: trace.len() }),
    ensures
        trace.len() >= 1,
        forall|i: int| 0 <= i < trace.len() - 1 ==> spec_step(policy, #[trigger] trace[i]) is Sleep,
        spec_step(policy, trace.last()) == Step::Return(result),
    decreases trace.len(),
{
    if trace.len() > 0 {
        if spec_step(policy, trace[0]) is Sleep {
            let rest = trace.drop_first();
            lemma_run_ended_on_last(policy, rest, result);
            assert(rest.last() == trace.last());
            assert forall|i: int| 0 <= i < trace.len() - 1 implies spec_step(
                policy,
                #[trigger] trace[i],
            ) is Sleep by {
                if i > 0 {
                    assert(rest[i - 1] == trace[i]);
                }
            }
        }
    }
}

/// How a wait that ended on the last tick of its trace relates to the
/// outcome that came in last: `Ok` carries the value of a ready probe; an
/// error is that of a failed probe under a policy that aborts on failure, or
/// `TimedOut` after an undecided probe that came in with the budget spent.
/// Every earlier probe was undecided and came in before the budget was spent.
pub proof fn lemma_result_of_run<T>(
    policy: RetryPolicy,
    trace: Seq<Tick<T>>,
    result: Result<T, ErrorKind>,
)
    requires
        spec_run(policy, trace) == (Run::Finished { result, probes: trace.len() }),
    ensures
        trace.len() >= 1,
        forall|i: int|
            0 <= i < trace.len() - 1 ==> policy.spec_undecided((#[trigger] trace[i]).outcome)
                && trace[i].elapsed < policy.deadline.budget,
        result matches Ok(v) ==> trace.last().outcome == PollOutcome::Ready(v),
        result matches Err(e) ==> {
            ||| policy.abort_on_first_failure && trace.last().outcome == PollOutcome::<T>::Failed(e)
            ||| e == ErrorKind::TimedOut && policy.spec_undecided(trace.last().outcome)
                && trace.last().elapsed >= policy.deadline.budget
        },
        trace.last().outcome is Ready ==> result is Ok,
{
    lemma_run_ended_on_last(policy, trace, result);
    assert forall|i: int| 0 <= i < trace.len() - 1 implies policy.spec_undecided(
        (#[trigger] trace[i]).outcome,
    ) && trace[i].elapsed < policy.deadline.budget by {
        assert(spec_step(policy, trace[i]) is Sleep);
    }
}

/// A probe that fails first, under a policy that aborts on failure, ends the
/// wait at once with that error: after one probe and before any pause,
/// whatever is left of the budget.
pub proof fn lemma_first_failure_aborts<T>(policy: RetryPolicy, trace: Seq<Tick<T>>, e: ErrorKind)
    requires
        policy.abort_on_first_failure,
        trace.len() >= 1,
        trace[0].outcome == PollOutcome::<T>::Failed(e),
    ensures
        spec_run(policy, trace) == (Run::<T>::Finished { result: Err(e), probes: 1 }),
        spec_slept(policy, trace.take(0)) == 0,
{
}

/// The pause after a tick that came in before the budget was spent is at
/// least one millisecond and ends no later than the budget.
pub proof fn lemma_pause_bounds(policy: RetryPolicy, elapsed: u64)
    ensures
        elapsed < policy.deadline.budget ==> 1 <= policy.spec_pause(elapsed) && elapsed
            + policy.spec_pause(elapsed) <= policy.deadline.budget,
        elapsed >= policy.deadline.budget ==> policy.spec_pause(elapsed) == 0,
        policy.spec_pause(elapsed) <= policy.spec_effective_interval(),
{
}

/// On a paced trace the `i`-th tick comes in no earlier than `i` effective
/// intervals, or the budget if that is less.
pub proof fn lemma_paced_elapsed_grows<T>(policy: RetryPolicy, trace: Seq<Tick<T>>, i: int)
    requires
        spec_paced(policy, trace),
        0 <= i < trace.len(),
    ensures
        trace[i].elapsed >= policy.deadline.budget || trace[i].elapsed >= i
            * policy.spec_effective_interval(),
    decreases i,
{
    let eff = policy.spec_effective_interval() as int;
    if i > 0 {
        lemma_paced_elapsed_grows(policy, trace, i - 1);
        let before = trace[i - 1].elapsed;
        lemma_pause_bounds(policy, before);
        assert(trace[(i - 1) + 1].elapsed >= before + policy.spec_pause(before));
        if before < policy.deadline.budget && trace[i].elapsed < policy.deadline.budget {
            assert(policy.spec_pause(before) == eff);
            assert((i - 1) * eff + eff == i * eff) by (nonlinear_arith);
        }
    } else {
        assert(0 * eff == 0);
    }
}

/// The pauses over a paced trace add up to no more than the time at which its
/// last tick came in plus the pause after that one.
pub proof fn lemma_slept_behind_clock<T>(policy: RetryPolicy, trace: Seq<Tick<T>>)
    requires
        spec_paced(policy, trace),
        trace.len() >= 1,
    ensures
        spec_slept(policy, trace) <= trace.last().elapsed + policy.spec_pause(trace.last().elapsed),
    decreases trace.len(),
{
    let front = trace.drop_last();
    if front.len() >= 1 {
        assert forall|i: int| 0 <= i < front.len() - 1 implies (#[trigger] front[i + 1]).elapsed
            >= front[i].elapsed + policy.spec_pause(front[i].elapsed) by {
            assert(front[i + 1] == trace[i + 1]);
            assert(front[i] == trace[i]);
        }
        lemma_slept_behind_clock(policy, front);
        let n = trace.len() as int;
        assert(front.last() == trace[n - 2]);
        assert(trace[(n - 2) + 1].elapsed >= trace[n - 2].elapsed + policy.spec_pause(
            trace[n - 2].elapsed,
        ));
    } else {
        assert(spec_slept(policy, front) == 0);
    }
}

/// The first tick at or after `from` that comes in with the budget spent,
/// given that the tick at `until` does.
proof fn lemma_first_expired<T>(policy: RetryPolicy, trace: Seq<Tick<T>>, from: int, until: int) -> (k: int)
    requires
        0 <= from <= until < trace.len(),
        trace[until].elapsed >= policy.deadline.budget,
        forall|i: int| 0 <= i < from ==> (#[trigger] trace[i]).elapsed < policy.deadline.budget,
    ensures
        from <= k <= until,
        trace[k].elapsed >= policy.deadline.budget,
        forall|i: int| 0 <= i < k ==> (#[trigger] trace[i]).elapsed < policy.deadline.budget,
    decreases until - from,
{
    if trace[from].elapsed >= policy.deadline.budget {
        from
    } else {
        lemma_first_expired(policy, trace, from + 1, until)
    }
}

/// A wait whose probes never decide ends with `TimedOut`, and never hangs.
///
/// Let every outcome on a paced trace be undecided, and let the trace be long
/// enough for its pauses to use up the budget. Then the wait ends within the
/// trace, with `TimedOut`, at the first tick that comes in with the budget
/// spent. It has slept no longer than the budget in all, and all its probes
/// but the last two lie a full effective interval apart, so their number is
/// bounded by the budget. Under an ideal clock the wait ends exactly when the
/// budget is spent.
pub proof fn lemma_undecided_wait_times_out<T>(policy: RetryPolicy, trace: Seq<Tick<T>>) -> (probes: nat)
    requires
        spec_paced(policy, trace),
        forall|i: int| 0 <= i < trace.len() ==> policy.spec_undecided((#[trigger] trace[i]).outcome),
        trace.len() >= 1,
        (trace.len() - 1) * policy.spec_effective_interval() >= policy.deadline.budget,
    ensures
        spec_run(policy, trace) == (Run::<T>::Finished { result: Err(ErrorKind::TimedOut), probes }),
        1 <= probes <= trace.len(),
        trace[probes - 1].elapsed >= policy.deadline.budget,
        forall|i: int| 0 <= i < probes - 1 ==> (#[trigger] trace[i]).elapsed < policy.deadline.budget,
        (probes - 2) * policy.spec_effective_interval() < policy.deadline.budget,
        spec_slept(policy, trace.take(probes - 1)) <= policy.deadline.budget,
        spec_ideal(policy, trace) ==> trace[probes - 1].elapsed == policy.deadline.budget,
{
    let eff = policy.spec_effective_interval() as int;
    let budget = policy.deadline.budget as int;
    let n = trace.len() as int;
    lemma_paced_elapsed_grows(policy, trace, n - 1);
    let k = lemma_first_expired(policy, trace, 0, n - 1);
    assert forall|i: int| 0 <= i < k implies spec_step(policy, #[trigger] trace[i]) is Sleep by {
        assert(policy.spec_undecided(trace[i].outcome));
    }
    assert(policy.spec_undecided(trace[k].outcome));
    assert(spec_step(policy, trace[k]) == Step::<T>::Return(Err(ErrorKind::TimedOut)));
    lemma_run_ends_at_first_return(policy, trace, k);
    if k >= 1 {
        lemma_paced_elapsed_grows(policy, trace, k - 1);
        assert(trace[k - 1].elapsed < budget);
        assert((k - 1) * eff < budget);
        assert(((k + 1) as nat - 2) * eff == (k - 1) * eff);
        let front = trace.take(k);
        assert forall|i: int| 0 <= i < front.len() - 1 implies (#[trigger] front[i + 1]).elapsed
            >= front[i].elapsed + policy.spec_pause(front[i].elapsed) by {
            assert(front[i + 1] == trace[i + 1]);
            assert(front[i] == trace[i]);
        }
        lemma_slept_behind_clock(policy, front);
        assert(front.last() == trace[k - 1]);
        lemma_pause_bounds(policy, trace[k - 1].elapsed);
        if spec_ideal(policy, trace) {
            assert(trace[(k - 1) + 1].elapsed == trace[k - 1].elapsed + policy.spec_pause(
                trace[k - 1].elapsed,
            ));
        }
    } else {
        assert((1 - 2) * eff < budget) by (nonlinear_arith)
            requires
                eff >= 1,
                budget >= 0,
        ;
        assert(trace.take(0).len() == 0);
        if spec_ideal(policy, trace) {
            assert(trace[0].elapsed == 0);
        }
    }
    (k + 1) as nat
}

/// Under an ideal clock the `i`-th tick comes in after exactly `i` effective
/// intervals, as long as that many fit into the budget.
pub proof fn lemma_ideal_elapsed<T>(policy: RetryPolicy, trace: Seq<Tick<T>>, i: int)
    requires
        spec_ideal(policy, trace),
        0 <= i < trace.len(),
        i * policy.spec_effective_interval() <= policy.deadline.budget,
    ensures
        trace[i].elapsed == i * policy.spec_effective_interval(),
    decreases i,
{
    let eff = policy.spec_effective_interval() as int;
    if i > 0 {
        assert((i - 1) * eff + eff == i * eff) by (nonlinear_arith);
        lemma_ideal_elapsed(policy, trace, i - 1);
        let before = trace[i - 1].elapsed;
        assert(trace[(i - 1) + 1].elapsed == before + policy.spec_pause(before));
    } else {
        assert(0 * eff == 0);
    }
}

/// The time slept over a run of ticks that each come in a full effective
/// interval or more before the budget is spent.
pub proof fn lemma_slept_full_intervals<T>(policy: RetryPolicy, trace: Seq<Tick<T>>)
    requires
        forall|i: int|
            0 <= i < trace.len() ==> (#[trigger] trace[i]).elapsed + policy.spec_effective_interval()
                <= policy.deadline.budget,
    ensures
        spec_slept(policy, trace) == trace.len() * policy.spec_effective_interval(),
    decreases trace.len(),
{
    let eff = policy.spec_effective_interval() as int;
    let n = trace.len() as int;
    if n > 0 {
        let front = trace.drop_last();
        assert forall|i: int| 0 <= i < front.len() implies (#[trigger] front[i]).elapsed + eff
            <= policy.deadline.budget by {
            assert(front[i] == trace[i]);
        }
        lemma_slept_full_intervals(policy, front);
        assert(trace.last() == trace[n - 1]);
        assert((n - 1) * eff + eff == n * eff) by (nonlinear_arith);
    } else {
        assert(0 * eff == 0);
    }
}

/// A probe that is ready on its `k`-th call, and not yet ready before, makes
/// the wait return its value after exactly `k` probes.
///
/// This holds under an ideal clock whenever `k` effective intervals fit into
/// the budget; the wait has then slept `k - 1` effective intervals.
pub proof fn lemma_ready_on_kth_probe<T>(policy: RetryPolicy, trace: Seq<Tick<T>>, k: int, v: T)
    requires
        spec_ideal(policy, trace),
        1 <= k <= trace.len(),
        forall|i: int| 0 <= i < k - 1 ==> (#[trigger] trace[i]).outcome is NotYetReady,
        trace[k - 1].outcome == PollOutcome::Ready(v),
        k * policy.spec_effective_interval() <= policy.deadline.budget,
    ensures
        spec_run(policy, trace) == (Run::Finished { result: Ok(v), probes: k as nat }),
        spec_slept(policy, trace.take(k - 1)) == (k - 1) * policy.spec_effective_interval(),
{
    let eff = policy.spec_effective_interval() as int;
    let budget = policy.deadline.budget as int;
    assert forall|i: int| 0 <= i < k - 1 implies (#[trigger] trace[i]).elapsed + eff <= budget by {
        assert((i + 1) * eff <= k * eff) by (nonlinear_arith)
            requires
                i + 1 <= k,
                eff >= 0,
        ;
        assert((i + 1) * eff == i * eff + eff) by (nonlinear_arith);
        lemma_ideal_elapsed(policy, trace, i);
    }
    assert forall|i: int| 0 <= i < k - 1 implies spec_step(policy, #[trigger] trace[i]) is Sleep by {
        assert(trace[i].outcome is NotYetReady);
        assert(trace[i].elapsed + eff <= budget);
    }
    lemma_run_ends_at_first_return(policy, trace, k - 1);
    let front = trace.take(k - 1);
    assert forall|i: int| 0 <= i < front.len() implies (#[trigger] front[i]).elapsed + eff
        <= budget by {
        assert(front[i] == trace[i]);
    }
    lemma_slept_full_intervals(policy, front);
}

/// Once a probe is ready the wait returns its value, come what may later and
/// however late the probe came in.
pub proof fn lemma_ready_wins<T>(policy: RetryPolicy, trace: Seq<Tick<T>>, k: int, v: T)
    requires
        0 <= k < trace.len(),
        forall|i: int| 0 <= i < k ==> spec_step(policy, #[trigger] trace[i]) is Sleep,
        trace[k].outcome == PollOutcome::Ready(v),
    ensures
        spec_run(policy, trace) == (Run::Finished { result: Ok(v), probes: (k + 1) as nat }),
{
    lemma_run_ends_at_first_return(policy, trace, k);
}

} // verus!
