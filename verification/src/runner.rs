//! The retry loop itself. The probe, the clock and the sleep are handed in by
//! the caller; the loop calls them strictly in turn and decides in between.
//! Every wait of the library is this one loop.

use vstd::prelude::*;
use crate::outcome::{ErrorKind, PollOutcome};
use crate::retry::{RetryLoop, RetryPolicy, Step};
use crate::trace::{
    lemma_run_ends_at_first_return, spec_paced, spec_run, spec_slept, spec_step, Run, Tick,
};

verus! {

/// How a wait ended, and what it took.
#[derive(Debug, PartialEq, Eq)]
pub struct RunReport<T> {
    /// The value of the first ready probe, or why the wait gave up.
    pub result: Result<T, ErrorKind>,
    /// How often the loop paused and probed again: one less than the number
    /// of probes.
    pub retries: u64,
    /// The sum of all pauses.
    pub slept: u64,
}

/// The time accounted for before the `i`-th probe of `trace` is made: none
/// before the first, and after that the time at which the probe before came
/// in plus the pause that followed it.
pub open spec fn spec_due<T>(policy: RetryPolicy, trace: Seq<Tick<T>>, i: int) -> int {
    if i <= 0 {
        0
    } else {
        trace[i - 1].elapsed + policy.spec_pause(trace[i - 1].elapsed)
    }
}

/// `report` is the account of a wait under `policy` that saw the outcomes of
/// `trace` and read the clock as `readings` say.
///
/// One reading was taken after each probe. An outcome comes in at the time
/// that its reading shows as elapsed, or at the time already accounted for
/// if the reading lags behind. The wait ends on the last tick of the trace,
/// as `spec_run` says: it gives up no earlier and goes on no longer. It has
/// paused once after every tick but the last, for the pauses that the policy
/// asks for.
pub open spec fn spec_accounts<T>(
    policy: RetryPolicy,
    trace: Seq<Tick<T>>,
    readings: Seq<u64>,
    report: RunReport<T>,
) -> bool {
    &&& trace.len() == report.retries + 1
    &&& readings.len() == trace.len()
    &&& forall|i: int|
        0 <= i < trace.len() ==> (#[trigger] trace[i]).elapsed == vstd::math::max(
            policy.deadline.spec_elapsed(readings[i]) as int,
            spec_due(policy, trace, i),
        )
    &&& spec_run(policy, trace) == (Run::Finished { result: report.result, probes: trace.len() })
    &&& report.slept == spec_slept(policy, trace.drop_last())
}

/// `states`, `trace` and `readings` are what a wait saw of a probe that
/// carries a state from call to call, and of the clock: the probe was first
/// called on `start`, then on the state that the call before gave, and the
/// last call gave `end`; every outcome is one that the probe gave on that
/// state, every reading one that the clock gave.
pub open spec fn spec_threads<St, T, P: Fn(St) -> (St, PollOutcome<T>), C: Fn() -> u64>(
    probe: P,
    clock: C,
    start: St,
    states: Seq<St>,
    trace: Seq<Tick<T>>,
    readings: Seq<u64>,
    end: St,
) -> bool {
    &&& states.len() == trace.len() + 1
    &&& states[0] == start
    &&& states.last() == end
    &&& forall|i: int|
        0 <= i < trace.len() ==> call_ensures(
            probe,
            (states[i],),
            (states[i + 1], (#[trigger] trace[i]).outcome),
        )
    &&& forall|i: int| 0 <= i < readings.len() ==> call_ensures(clock, (), #[trigger] readings[i])
}

/// What `spec_threads` and `spec_accounts` say together.
pub open spec fn spec_explains_threaded<St, T, P: Fn(St) -> (St, PollOutcome<T>), C: Fn() -> u64>(
    policy: RetryPolicy,
    probe: P,
    clock: C,
    start: St,
    states: Seq<St>,
    trace: Seq<Tick<T>>,
    readings: Seq<u64>,
    end: St,
    report: RunReport<T>,
) -> bool {
    &&& spec_threads(probe, clock, start, states, trace, readings, end)
    &&& spec_accounts(policy, trace, readings, report)
}

/// `trace` and `readings` are what a wait under `policy` saw of `probe` and
/// `clock`, and `report` is its account: every outcome in the trace is one
/// that the probe gave, every reading one that the clock gave, and the
/// report accounts for them.
pub open spec fn spec_explains<T, P: Fn() -> PollOutcome<T>, C: Fn() -> u64>(
    policy: RetryPolicy,
    probe: P,
    clock: C,
    trace: Seq<Tick<T>>,
    readings: Seq<u64>,
    report: RunReport<T>,
) -> bool {
    &&& spec_accounts(policy, trace, readings, report)
    &&& forall|i: int| 0 <= i < trace.len() ==> call_ensures(probe, (), (#[trigger] trace[i]).outcome)
    &&& forall|i: int| 0 <= i < readings.len() ==> call_ensures(clock, (), #[trigger] readings[i])
}

/// What a wait accounts for makes a paced trace: the accounting never lets
/// time stand still between two probes, whatever the clock says.
pub proof fn lemma_accounted_is_paced<T>(
    policy: RetryPolicy,
    trace: Seq<Tick<T>>,
    readings: Seq<u64>,
    report: RunReport<T>,
)
    requires
        spec_accounts(policy, trace, readings, report),
    ensures
        spec_paced(policy, trace),
{
    assert forall|i: int| 0 <= i < trace.len() - 1 implies (#[trigger] trace[i + 1]).elapsed
        >= trace[i].elapsed + policy.spec_pause(trace[i].elapsed) by {
        assert(spec_due(policy, trace, i + 1) == trace[i].elapsed + policy.spec_pause(
            trace[i].elapsed,
        ));
    }
}

/// Probes until the probe is ready, fails for good, or the budget is spent,
/// handing the state that each call of the probe gives to the next call.
/// Returns the last state and the account of the wait.
///
/// After each probe the clock is read once. A pause that the loop has asked
/// for counts as time gone by even where the clock does not show it, so the
/// loop ends after finitely many probes whatever the clock and the sleep do.
pub fn run_threaded<St, T, P, C, S>(
    start: St,
    probe: P,
    policy: &RetryPolicy,
    clock: C,
    sleep: S,
) -> (end: (St, RunReport<T>)) where
    P: Fn(St) -> (St, PollOutcome<T>),
    C: Fn() -> u64,
    S: Fn(u64),

    requires
        forall|state: St| call_requires(probe, (state,)),
        call_requires(clock, ()),
        forall|d: u64| call_requires(sleep, (d,)),
    ensures
        exists|states: Seq<St>, trace: Seq<Tick<T>>, readings: Seq<u64>| #[trigger]
            spec_explains_threaded(
                *policy,
                probe,
                clock,
                start,
                states,
                trace,
                readings,
                end.0,
                end.1,
            ),
        end.1.slept <= policy.deadline.budget,
{
    let mut book = RetryLoop::new(*policy);
    let mut state = start;
    let ghost mut states: Seq<St> = seq![start];
    let ghost mut trace: Seq<Tick<T>> = Seq::empty();
    let ghost mut readings: Seq<u64> = Seq::empty();
    loop
        invariant
            forall|state: St| call_requires(probe, (state,)),
            call_requires(clock, ()),
            forall|d: u64| call_requires(sleep, (d,)),
            book.spec_policy() == *policy,
            trace.len() == book.spec_retries(),
            readings.len() == trace.len(),
            states.len() == trace.len() + 1,
            states[0] == start,
            states.last() == state,
            forall|i: int|
                0 <= i < trace.len() ==> call_ensures(
                    probe,
                    (states[i],),
                    (states[i + 1], (#[trigger] trace[i]).outcome),
                ),
            forall|i: int| 0 <= i < readings.len() ==> call_ensures(clock, (), #[trigger] readings[i]),
            forall|i: int|
                0 <= i < trace.len() ==> (#[trigger] trace[i]).elapsed == vstd::math::max(
                    policy.deadline.spec_elapsed(readings[i]) as int,
                    spec_due(*policy, trace, i),
                ),
            forall|i: int| 0 <= i < trace.len() ==> spec_step(*policy, #[trigger] trace[i]) is Sleep,
            book.spec_accounted() == spec_due(*policy, trace, trace.len() as int),
            book.spec_accounted() <= policy.deadline.budget,
            book.spec_slept() == spec_slept(*policy, trace),
        decreases policy.deadline.budget - book.spec_accounted(),
    {
        let ghost before = trace;
        let ghost passed = states;
        let (next, outcome) = probe(state);
        let now: u64 = clock();
        let ghost tick = Tick { outcome, elapsed: book.spec_elapsed_at(now) };
        proof {
            trace = trace.push(tick);
            readings = readings.push(now);
            states = states.push(next);
            assert(trace.drop_last() =~= before);
            assert forall|i: int| 0 <= i < trace.len() implies (#[trigger] trace[i]).elapsed
                == vstd::math::max(
                policy.deadline.spec_elapsed(readings[i]) as int,
                spec_due(*policy, trace, i),
            ) by {
                if i < before.len() {
                    assert(trace[i] == before[i]);
                    assert(spec_due(*policy, trace, i) == spec_due(*policy, before, i));
                } else {
                    assert(spec_due(*policy, trace, i) == spec_due(
                        *policy,
                        before,
                        before.len() as int,
                    ));
                }
            }
            assert forall|i: int| 0 <= i < trace.len() implies call_ensures(
                probe,
                (states[i],),
                (states[i + 1], (#[trigger] trace[i]).outcome),
            ) by {
                if i < before.len() {
                    assert(trace[i] == before[i]);
                    assert(states[i] == passed[i]);
                    assert(states[i + 1] == passed[i + 1]);
                }
            }
        }
        state = next;
        match book.settle(outcome, now) {
            Step::Return(result) => {
                let report = RunReport { result, retries: book.retries(), slept: book.slept() };
                let end = (state, report);
                proof {
                    let k = before.len() as int;
                    assert forall|i: int| 0 <= i < k implies spec_step(*policy, #[trigger] trace[i]) is Sleep by {
                        assert(trace[i] == before[i]);
                    }
                    assert(trace[k] == tick);
                    lemma_run_ends_at_first_return(*policy, trace, k);
                    assert(spec_explains_threaded(
                        *policy,
                        probe,
                        clock,
                        start,
                        states,
                        trace,
                        readings,
                        end.0,
                        end.1,
                    ));
                }
                return end;
            },
            Step::Sleep(d) => {
                sleep(d);
                proof {
                    assert(spec_slept(*policy, trace) == spec_slept(*policy, before)
                        + policy.spec_pause(tick.elapsed));
                    assert forall|i: int| 0 <= i < trace.len() implies spec_step(
                        *policy,
                        #[trigger] trace[i],
                    ) is Sleep by {
                        if i < before.len() {
                            assert(trace[i] == before[i]);
                        }
                    }
                }
            },
        }
    }
}

/// Probes until the probe is ready, fails for good, or the budget is spent,
/// and returns the account of the wait.
pub fn run_reporting<T, P, C, S>(probe: P, policy: &RetryPolicy, clock: C, sleep: S) -> (report:
    RunReport<T>) where P: Fn() -> PollOutcome<T>, C: Fn() -> u64, S: Fn(u64)
    requires
        call_requires(probe, ()),
        call_requires(clock, ()),
        forall|d: u64| call_requires(sleep, (d,)),
    ensures
        exists|trace: Seq<Tick<T>>, readings: Seq<u64>| #[trigger]
            spec_explains(*policy, probe, clock, trace, readings, report),
        report.slept <= policy.deadline.budget,
{
    let asked = &probe;
    let stateless = |unit: ()| -> (gave: ((), PollOutcome<T>))
        ensures
            call_ensures(*asked, (), gave.1),
        { ((), asked()) };
    let (_, report) = run_threaded((), stateless, policy, clock, sleep);
    proof {
        let (states, trace, readings) = choose|
            states: Seq<()>,
            trace: Seq<Tick<T>>,
            readings: Seq<u64>,
        | #[trigger]
            spec_explains_threaded(*policy, stateless, clock, (), states, trace, readings, (), report);
        assert forall|i: int| 0 <= i < trace.len() implies call_ensures(
            probe,
            (),
            (#[trigger] trace[i]).outcome,
        ) by {
            assert(call_ensures(stateless, (states[i],), (states[i + 1], trace[i].outcome)));
        }
        assert(spec_explains(*policy, probe, clock, trace, readings, report));
    }
    report
}

/// Probes until the probe is ready, fails for good, or the budget is spent.
///
/// Returns the value of the first ready probe; the error of the first failed
/// probe if the policy aborts on failure; `TimedOut` once an undecided probe
/// comes in with the budget spent.
pub fn run<T, P, C, S>(probe: P, policy: &RetryPolicy, clock: C, sleep: S) -> (result: Result<
    T,
    ErrorKind,
>) where P: Fn() -> PollOutcome<T>, C: Fn() -> u64, S: Fn(u64)
    requires
        call_requires(probe, ()),
        call_requires(clock, ()),
        forall|d: u64| call_requires(sleep, (d,)),
    ensures
        exists|trace: Seq<Tick<T>>, readings: Seq<u64>, report: RunReport<T>| #[trigger]
            spec_explains(*policy, probe, clock, trace, readings, report) && report.result
                == result,
{
    run_reporting(probe, policy, clock, sleep).result
}

} // verus!
