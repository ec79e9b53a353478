//! Fetching the testcases of a contest: wait for the contest to start, then
//! probe until the testcases of every problem are in hand.
//!
//! The read interface, the clock and the sleep are handed in by the caller.
//! They are called strictly in turn; what they give decides how a wait ends,
//! and the budget decides when.

use vstd::prelude::*;
use crate::contest::{
    initial_sleep, seconds_to_millis, spec_filled, spec_initial_sleep, spec_refreshed,
    spec_seconds_to_millis, spec_start_outcome, spec_time_to_start, start_outcome, time_to_start,
    Answer, ContestEntry, ContestWindow,
};
use crate::deadline::Deadline;
use crate::outcome::{ErrorKind, PollOutcome};
use crate::retry::RetryPolicy;
use crate::runner::{
    run_reporting, run_threaded, spec_accounts, spec_explains, spec_explains_threaded, RunReport,
};
use crate::trace::{lemma_result_of_run, spec_slept, Tick};

verus! {

/// One probe of the start gave `out`: the judge's list of contests was
/// fetched, and `out` is what the probe reports on what the fetch gave.
pub open spec fn spec_start_seen<K: Fn() -> Result<Vec<ContestEntry>, ErrorKind>>(
    contests: K,
    contest_id: i64,
    out: PollOutcome<i64>,
) -> bool {
    exists|listed: Result<Vec<ContestEntry>, ErrorKind>| #[trigger]
        call_ensures(contests, (), listed) && spec_start_outcome(listed, contest_id) == out
}

/// Every fetch of the judge's list of contests shows that the contest has
/// started, or does not tell.
pub open spec fn spec_always_started<K: Fn() -> Result<Vec<ContestEntry>, ErrorKind>>(
    contests: K,
    contest_id: i64,
) -> bool {
    forall|listed: Result<Vec<ContestEntry>, ErrorKind>| #[trigger]
        call_ensures(contests, (), listed) ==> spec_start_outcome(listed, contest_id) is Ready
}

/// `report` is the account of a check of the start of contest `contest_id`:
/// there is a trace of probes of the start, each with the outcome that the
/// probe gave, and clock readings, each one that the clock gave, of which a
/// wait under `policy` gives this account.
pub open spec fn spec_start_checked<K: Fn() -> Result<Vec<ContestEntry>, ErrorKind>, C: Fn() -> u64>(
    contest_id: i64,
    policy: RetryPolicy,
    contests: K,
    clock: C,
    report: RunReport<i64>,
) -> bool {
    exists|trace: Seq<Tick<i64>>, readings: Seq<u64>| #[trigger]
        spec_accounts(policy, trace, readings, report) && {
            &&& forall|i: int|
                0 <= i < trace.len() ==> spec_start_seen(
                    contests,
                    contest_id,
                    (#[trigger] trace[i]).outcome,
                )
            &&& forall|i: int|
                0 <= i < readings.len() ==> call_ensures(clock, (), #[trigger] readings[i])
        }
}

/// A check of the start that ends with `Ok` carries the seconds to the start
/// that its last probe saw, zero or less. One that ends with an error ends
/// with `TimedOut`, or with the error of a failed fetch if the policy aborts
/// on failure. If every fetch shows the contest started, the check ends with
/// `Ok` after one probe and no pause.
pub proof fn lemma_start_checked<K: Fn() -> Result<Vec<ContestEntry>, ErrorKind>, C: Fn() -> u64>(
    contest_id: i64,
    policy: RetryPolicy,
    contests: K,
    clock: C,
    report: RunReport<i64>,
)
    requires
        spec_start_checked(contest_id, policy, contests, clock, report),
    ensures
        report.result matches Ok(seconds) ==> seconds <= 0 && spec_start_seen(
            contests,
            contest_id,
            PollOutcome::Ready(seconds),
        ),
        report.result matches Err(e) ==> {
            ||| e == ErrorKind::TimedOut
            ||| policy.abort_on_first_failure && call_ensures(
                contests,
                (),
                Err::<Vec<ContestEntry>, ErrorKind>(e),
            )
        },
        spec_always_started(contests, contest_id) ==> report.result is Ok && report.retries == 0
            && report.slept == 0,
{
    let (trace, readings) = choose|trace: Seq<Tick<i64>>, readings: Seq<u64>| #[trigger]
        spec_accounts(policy, trace, readings, report) && {
            &&& forall|i: int|
                0 <= i < trace.len() ==> spec_start_seen(
                    contests,
                    contest_id,
                    (#[trigger] trace[i]).outcome,
                )
            &&& forall|i: int|
                0 <= i < readings.len() ==> call_ensures(clock, (), #[trigger] readings[i])
        };
    lemma_result_of_run(policy, trace, report.result);
    let last = trace[trace.len() - 1];
    assert(spec_start_seen(contests, contest_id, last.outcome));
    if spec_always_started(contests, contest_id) {
        assert(spec_start_seen(contests, contest_id, trace[0].outcome));
        assert(trace[0].outcome is Ready);
        assert(trace.len() == 1);
        assert(trace.drop_last().len() == 0);
    }
}

/// Probes the start of a contest once.
pub fn probe_start<K>(contest_id: i64, contests: &K) -> (out: PollOutcome<i64>) where
    K: Fn() -> Result<Vec<ContestEntry>, ErrorKind>,

    requires
        call_requires(*contests, ()),
    ensures
        spec_start_seen(*contests, contest_id, out),
{
    let listed = contests();
    proof {
        assert(call_ensures(*contests, (), listed));
    }
    start_outcome(listed, contest_id)
}

/// Probes the start of a contest until the judge's list of contests shows
/// that it has started, and returns the account of the wait.
///
/// The result carries the seconds to the start as last seen, zero or less.
/// A list that does not tell when the contest starts counts as a contest
/// that has started. A failed fetch of the list ends the wait with its error
/// if the policy aborts on failure, and is waited out if not. Once the
/// budget is spent the wait ends with `TimedOut`.
pub fn await_start<K, C, S>(
    contest_id: i64,
    policy: &RetryPolicy,
    contests: &K,
    clock: &C,
    sleep: &S,
) -> (report: RunReport<i64>) where
    K: Fn() -> Result<Vec<ContestEntry>, ErrorKind>,
    C: Fn() -> u64,
    S: Fn(u64),

    requires
        call_requires(*contests, ()),
        call_requires(*clock, ()),
        forall|d: u64| call_requires(*sleep, (d,)),
    ensures
        spec_start_checked(contest_id, *policy, *contests, *clock, report),
        report.result matches Ok(seconds) ==> seconds <= 0,
        spec_always_started(*contests, contest_id) ==> report.result is Ok && report.retries == 0
            && report.slept == 0,
{
    let probe = || -> (out: PollOutcome<i64>)
        ensures
            spec_start_seen(*contests, contest_id, out),
        { probe_start(contest_id, contests) };
    let report = run_reporting(probe, policy, clock, sleep);
    proof {
        let (trace, readings) = choose|trace: Seq<Tick<i64>>, readings: Seq<u64>| #[trigger]
            spec_explains(*policy, probe, clock, trace, readings, report);
        assert forall|i: int| 0 <= i < trace.len() implies spec_start_seen(
            *contests,
            contest_id,
            (#[trigger] trace[i]).outcome,
        ) by {
            assert(call_ensures(probe, (), trace[i].outcome));
        }
        assert(spec_accounts(*policy, trace, readings, report));
        lemma_start_checked(contest_id, *policy, *contests, *clock, report);
    }
    report
}

/// The read interface never fails: every fetch of the problem list and every
/// fetch of testcases goes through.
pub open spec fn spec_always_answers<L: Fn() -> Result<Vec<String>, ErrorKind>, F: Fn(&String) -> Result<Vec<String>, ErrorKind>>(
    problems: L,
    testcases: F,
) -> bool {
    &&& forall|listed: Result<Vec<String>, ErrorKind>| #[trigger]
        call_ensures(problems, (), listed) ==> listed is Ok
    &&& forall|index: &String, answer: Result<Vec<String>, ErrorKind>| #[trigger]
        call_ensures(testcases, (index,), answer) ==> answer is Ok
}

/// One probe of the testcases made `after` of `before` and gave `out`: the
/// problem list was fetched, and `after` and `out` are what the probe makes
/// of the window on what that fetch and the fetches of testcases gave.
pub open spec fn spec_probe_step<L: Fn() -> Result<Vec<String>, ErrorKind>, F: Fn(&String) -> Result<Vec<String>, ErrorKind>>(
    problems: L,
    testcases: F,
    wait: bool,
    before: ContestWindow,
    after: ContestWindow,
    out: PollOutcome<()>,
) -> bool {
    exists|listed: Result<Vec<String>, ErrorKind>| #[trigger]
        call_ensures(problems, (), listed) && before.spec_probed(
            wait,
            listed,
            testcases,
            after,
            out,
        )
}

/// Probes the testcases once: fetches the problem list, takes it into the
/// window, fetches what is missing, and names to `failed` each problem whose
/// testcases it could not get.
pub fn probe_once<L, F, N>(
    window: ContestWindow,
    wait: bool,
    problems: &L,
    testcases: &F,
    failed: &N,
) -> (gave: (ContestWindow, PollOutcome<()>)) where
    L: Fn() -> Result<Vec<String>, ErrorKind>,
    F: Fn(&String) -> Result<Vec<String>, ErrorKind>,
    N: Fn(&String),

    requires
        call_requires(*problems, ()),
        forall|index: &String| call_requires(*testcases, (index,)),
        forall|index: &String| call_requires(*failed, (index,)),
    ensures
        spec_probe_step(*problems, *testcases, wait, window, gave.0, gave.1),
{
    let mut window = window;
    let listed = problems();
    proof {
        assert(call_ensures(*problems, (), listed));
    }
    let (outcome, missing) = window.probe_testcases(wait, listed, testcases);
    let mut k: usize = 0;
    while k < missing.len()
        invariant
            forall|index: &String| call_requires(*failed, (index,)),
            k <= missing@.len(),
            forall|j: int|
                0 <= j < missing@.len() ==> (#[trigger] missing@[j]) < window.problem_set@.len(),
        decreases missing@.len() - k,
    {
        let slot = missing[k];
        failed(&window.problem_set[slot].index);
        k = k + 1;
    }
    (window, outcome)
}

/// The policy of the wait for the testcases: a failed fetch of the problem
/// list ends a single attempt and is waited out in wait mode.
pub open spec fn spec_testcase_policy(wait: bool, interval: u64, deadline: Deadline) -> RetryPolicy {
    RetryPolicy { interval, deadline, abort_on_first_failure: !wait }
}

/// `states`, `trace` and `readings` are what a wait for the testcases went
/// through, from the window `start` to the window `end`, and `report` is its
/// account: each probe made the next window of the one before and gave the
/// outcome of its tick, and every reading is one that the clock gave.
pub open spec fn spec_waited_by<L: Fn() -> Result<Vec<String>, ErrorKind>, F: Fn(&String) -> Result<Vec<String>, ErrorKind>, C: Fn() -> u64>(
    wait: bool,
    interval: u64,
    deadline: Deadline,
    problems: L,
    testcases: F,
    clock: C,
    start: ContestWindow,
    states: Seq<ContestWindow>,
    trace: Seq<Tick<()>>,
    readings: Seq<u64>,
    end: ContestWindow,
    report: RunReport<()>,
) -> bool {
    &&& spec_accounts(spec_testcase_policy(wait, interval, deadline), trace, readings, report)
    &&& states.len() == trace.len() + 1
    &&& states[0] == start
    &&& states.last() == end
    &&& forall|i: int|
        0 <= i < trace.len() ==> spec_probe_step(
            problems,
            testcases,
            wait,
            states[i],
            states[i + 1],
            (#[trigger] trace[i]).outcome,
        )
    &&& forall|i: int| 0 <= i < readings.len() ==> call_ensures(clock, (), #[trigger] readings[i])
}

/// A wait for the testcases led from the window `start` to the window `end`
/// with the account `report`.
pub open spec fn spec_waited<L: Fn() -> Result<Vec<String>, ErrorKind>, F: Fn(&String) -> Result<Vec<String>, ErrorKind>, C: Fn() -> u64>(
    wait: bool,
    interval: u64,
    deadline: Deadline,
    problems: L,
    testcases: F,
    clock: C,
    start: ContestWindow,
    end: ContestWindow,
    report: RunReport<()>,
) -> bool {
    exists|states: Seq<ContestWindow>, trace: Seq<Tick<()>>, readings: Seq<u64>| #[trigger]
        spec_waited_by(
            wait,
            interval,
            deadline,
            problems,
            testcases,
            clock,
            start,
            states,
            trace,
            readings,
            end,
            report,
        )
}

/// What holds of the first state of a chain holds of each, if every step
/// keeps it.
proof fn lemma_kept<St>(states: Seq<St>, inv: spec_fn(St) -> bool, k: int)
    requires
        0 <= k < states.len(),
        inv(states[0]),
        forall|i: int| 0 <= i < states.len() - 1 && inv(#[trigger] states[i]) ==> inv(states[i + 1]),
    ensures
        inv(states[k]),
    decreases k,
{
    if k > 0 {
        lemma_kept(states, inv, k - 1);
    }
}

/// A probe keeps the contest that the window is about, and keeps every set
/// of testcases in it one that a fetch gave for the label of its problem.
pub proof fn lemma_probe_keeps<L: Fn() -> Result<Vec<String>, ErrorKind>, F: Fn(&String) -> Result<Vec<String>, ErrorKind>>(
    problems: L,
    testcases: F,
    wait: bool,
    before: ContestWindow,
    after: ContestWindow,
    out: PollOutcome<()>,
)
    requires
        spec_probe_step(problems, testcases, wait, before, after, out),
    ensures
        after.contest_id == before.contest_id,
        after.relative_time_to_start == before.relative_time_to_start,
        before.spec_fetched_by(testcases) ==> after.spec_fetched_by(testcases),
        out is Ready ==> !wait || after.spec_all_populated(),
        out matches PollOutcome::Failed(e) ==> call_ensures(
            problems,
            (),
            Err::<Vec<String>, ErrorKind>(e),
        ) && after.problem_set == before.problem_set,
        !wait ==> !(out is NotYetReady),
        spec_always_answers(problems, testcases) ==> out is Ready && after.spec_all_populated(),
{
    let listed = choose|listed: Result<Vec<String>, ErrorKind>| #[trigger]
        call_ensures(problems, (), listed) && before.spec_probed(
            wait,
            listed,
            testcases,
            after,
            out,
        );
    if listed is Ok {
        let indices = listed->Ok_0;
        let refreshed = spec_refreshed(before.problem_set@, after.problem_set@, indices@);
        let answers = choose|answers: Seq<Answer>| #[trigger]
            spec_filled(refreshed, after.problem_set@, testcases, answers);
        if before.spec_fetched_by(testcases) {
            assert forall|i: int| 0 <= i < after.problem_set@.len() implies ((
            #[trigger] after.problem_set@[i]).testcases matches Some(given) ==> call_ensures(
                testcases,
                (&after.problem_set@[i].index,),
                Ok::<Vec<String>, ErrorKind>(given),
            )) by {
                if refreshed[i].testcases is Some {
                    assert(refreshed[i] == before.problem_set@[i]);
                } else {
                    assert(call_ensures(testcases, (&refreshed[i].index,), answers[i]->Some_0));
                }
            }
        }
        if spec_always_answers(problems, testcases) {
            assert forall|i: int| 0 <= i < after.problem_set@.len() implies (
            #[trigger] after.problem_set@[i]).testcases is Some by {
                if refreshed[i].testcases is None {
                    assert(call_ensures(testcases, (&refreshed[i].index,), answers[i]->Some_0));
                }
            }
        }
    }
}

/// What `lemma_probe_keeps` says of one probe.
pub open spec fn spec_step_kept<L: Fn() -> Result<Vec<String>, ErrorKind>, F: Fn(&String) -> Result<Vec<String>, ErrorKind>>(
    problems: L,
    testcases: F,
    wait: bool,
    before: ContestWindow,
    after: ContestWindow,
    out: PollOutcome<()>,
) -> bool {
    &&& after.contest_id == before.contest_id
    &&& after.relative_time_to_start == before.relative_time_to_start
    &&& before.spec_fetched_by(testcases) ==> after.spec_fetched_by(testcases)
    &&& out is Ready ==> !wait || after.spec_all_populated()
    &&& out matches PollOutcome::Failed(e) ==> call_ensures(
        problems,
        (),
        Err::<Vec<String>, ErrorKind>(e),
    ) && after.problem_set == before.problem_set
    &&& !wait ==> !(out is NotYetReady)
    &&& spec_always_answers(problems, testcases) ==> out is Ready && after.spec_all_populated()
}

/// What holds of a chain of probes that a wait ended on.
proof fn lemma_chain<L: Fn() -> Result<Vec<String>, ErrorKind>, F: Fn(&String) -> Result<Vec<String>, ErrorKind>>(
    wait: bool,
    policy: RetryPolicy,
    problems: L,
    testcases: F,
    start: ContestWindow,
    states: Seq<ContestWindow>,
    trace: Seq<Tick<()>>,
    end: ContestWindow,
    report: RunReport<()>,
)
    requires
        policy.abort_on_first_failure == !wait,
        trace.len() >= 1,
        trace.len() == report.retries + 1,
        report.slept == spec_slept(policy, trace.drop_last()),
        states.len() == trace.len() + 1,
        states[0] == start,
        states.last() == end,
        forall|i: int|
            0 <= i < trace.len() ==> spec_step_kept(
                problems,
                testcases,
                wait,
                states[i],
                states[i + 1],
                (#[trigger] trace[i]).outcome,
            ),
        forall|i: int|
            0 <= i < trace.len() - 1 ==> policy.spec_undecided((#[trigger] trace[i]).outcome),
        report.result is Ok ==> trace.last().outcome is Ready,
        report.result matches Err(e) ==> {
            ||| policy.abort_on_first_failure && trace.last().outcome == PollOutcome::<()>::Failed(e)
            ||| e == ErrorKind::TimedOut && policy.spec_undecided(trace.last().outcome)
        },
        trace.last().outcome is Ready ==> report.result is Ok,
    ensures
        end.contest_id == start.contest_id,
        end.relative_time_to_start == start.relative_time_to_start,
        start.spec_fetched_by(testcases) ==> end.spec_fetched_by(testcases),
        wait ==> match report.result {
            Ok(_) => end.spec_all_populated(),
            Err(e) => e == ErrorKind::TimedOut,
        },
        !wait ==> report.retries == 0 && report.slept == 0 && (report.result matches Err(e)
            ==> call_ensures(problems, (), Err::<Vec<String>, ErrorKind>(e)) && end.problem_set
            == start.problem_set),
        spec_always_answers(problems, testcases) ==> report.result is Ok
            && end.spec_all_populated() && report.retries == 0 && report.slept == 0,
{
    let n = trace.len() as int;
    let same = |w: ContestWindow|
        w.contest_id == start.contest_id && w.relative_time_to_start
            == start.relative_time_to_start;
    assert forall|i: int| 0 <= i < states.len() - 1 && same(#[trigger] states[i]) implies same(
        states[i + 1],
    ) by {
        assert(spec_step_kept(problems, testcases, wait, states[i], states[i + 1], trace[i].outcome));
    }
    lemma_kept(states, same, n);
    if start.spec_fetched_by(testcases) {
        let fetched = |w: ContestWindow| w.spec_fetched_by(testcases);
        assert forall|i: int|
            0 <= i < states.len() - 1 && fetched(#[trigger] states[i]) implies fetched(
            states[i + 1],
        ) by {
            assert(spec_step_kept(
                problems,
                testcases,
                wait,
                states[i],
                states[i + 1],
                trace[i].outcome,
            ));
        }
        lemma_kept(states, fetched, n);
    }
    assert(spec_step_kept(
        problems,
        testcases,
        wait,
        states[n - 1],
        states[n],
        trace[n - 1].outcome,
    ));
    if !wait || spec_always_answers(problems, testcases) {
        if n >= 2 {
            assert(policy.spec_undecided(trace[0].outcome));
            assert(spec_step_kept(problems, testcases, wait, states[0], states[1], trace[0].outcome));
        }
        assert(n == 1);
        assert(trace.drop_last().len() == 0);
    }
}

/// What a wait for the testcases comes to.
///
/// The window stays about the same contest, and testcases that fetches gave
/// stay such. With `wait`, `Ok` means that nothing is missing, and the only
/// error is `TimedOut`. Without `wait`, a single probe is made: an error is
/// that of the problem list's fetch, and the window is then as it was. If
/// the read interface never fails, the wait ends with `Ok`, nothing missing,
/// after one probe and no pause.
pub proof fn lemma_waited<L: Fn() -> Result<Vec<String>, ErrorKind>, F: Fn(&String) -> Result<Vec<String>, ErrorKind>, C: Fn() -> u64>(
    wait: bool,
    interval: u64,
    deadline: Deadline,
    problems: L,
    testcases: F,
    clock: C,
    start: ContestWindow,
    end: ContestWindow,
    report: RunReport<()>,
)
    requires
        spec_waited(wait, interval, deadline, problems, testcases, clock, start, end, report),
    ensures
        end.contest_id == start.contest_id,
        end.relative_time_to_start == start.relative_time_to_start,
        start.spec_fetched_by(testcases) ==> end.spec_fetched_by(testcases),
        wait ==> match report.result {
            Ok(_) => end.spec_all_populated(),
            Err(e) => e == ErrorKind::TimedOut,
        },
        !wait ==> report.retries == 0 && report.slept == 0 && (report.result matches Err(e)
            ==> call_ensures(problems, (), Err::<Vec<String>, ErrorKind>(e)) && end.problem_set
            == start.problem_set),
        spec_always_answers(problems, testcases) ==> report.result is Ok
            && end.spec_all_populated() && report.retries == 0 && report.slept == 0,
{
    let (states, trace, readings) = choose|
        states: Seq<ContestWindow>,
        trace: Seq<Tick<()>>,
        readings: Seq<u64>,
    | #[trigger]
        spec_waited_by(
            wait,
            interval,
            deadline,
            problems,
            testcases,
            clock,
            start,
            states,
            trace,
            readings,
            end,
            report,
        );
    let policy = spec_testcase_policy(wait, interval, deadline);
    lemma_result_of_run(policy, trace, report.result);
    assert forall|i: int| 0 <= i < trace.len() implies spec_step_kept(
        problems,
        testcases,
        wait,
        states[i],
        states[i + 1],
        (#[trigger] trace[i]).outcome,
    ) by {
        lemma_probe_keeps(problems, testcases, wait, states[i], states[i + 1], trace[i].outcome);
    }
    assert(report.slept == spec_slept(policy, trace.drop_last()));
    lemma_chain(wait, policy, problems, testcases, start, states, trace, end, report);
}

/// Probes until the window holds the testcases of every problem of the
/// contest, and returns the window with the account of the wait.
///
/// With `wait`, the probes go on, `interval` apart, until nothing is missing
/// or the deadline's budget is spent; a fetch that fails is waited out, and
/// the only error is `TimedOut`. Without `wait`, a single probe is made: it
/// returns the error of the problem list's fetch if that one failed, with
/// the window as it was, and else `Ok` with what it got.
pub fn wait_for_testcases<L, F, N, C, S>(
    window: ContestWindow,
    wait: bool,
    interval: u64,
    deadline: Deadline,
    problems: &L,
    testcases: &F,
    failed: &N,
    clock: &C,
    sleep: &S,
) -> (end: (ContestWindow, RunReport<()>)) where
    L: Fn() -> Result<Vec<String>, ErrorKind>,
    F: Fn(&String) -> Result<Vec<String>, ErrorKind>,
    N: Fn(&String),
    C: Fn() -> u64,
    S: Fn(u64),

    requires
        call_requires(*problems, ()),
        forall|index: &String| call_requires(*testcases, (index,)),
        forall|index: &String| call_requires(*failed, (index,)),
        call_requires(*clock, ()),
        forall|d: u64| call_requires(*sleep, (d,)),
    ensures
        spec_waited(wait, interval, deadline, *problems, *testcases, *clock, window, end.0, end.1),
        end.0.contest_id == window.contest_id,
        end.0.relative_time_to_start == window.relative_time_to_start,
        window.spec_fetched_by(*testcases) ==> end.0.spec_fetched_by(*testcases),
        wait ==> match end.1.result {
            Ok(_) => end.0.spec_all_populated(),
            Err(e) => e == ErrorKind::TimedOut,
        },
        !wait ==> end.1.retries == 0 && (end.1.result matches Err(e) ==> call_ensures(
            *problems,
            (),
            Err::<Vec<String>, ErrorKind>(e),
        ) && end.0.problem_set == window.problem_set),
        spec_always_answers(*problems, *testcases) ==> end.1.result is Ok
            && end.0.spec_all_populated() && end.1.retries == 0,
{
    let policy = RetryPolicy::new(interval, deadline, !wait);
    let probe = |before: ContestWindow| -> (gave: (ContestWindow, PollOutcome<()>))
        ensures
            spec_probe_step(*problems, *testcases, wait, before, gave.0, gave.1),
        { probe_once(before, wait, problems, testcases, failed) };
    let end = run_threaded(window, probe, &policy, clock, sleep);
    proof {
        let (states, trace, readings) = choose|
            states: Seq<ContestWindow>,
            trace: Seq<Tick<()>>,
            readings: Seq<u64>,
        | #[trigger]
            spec_explains_threaded(
                policy,
                probe,
                clock,
                window,
                states,
                trace,
                readings,
                end.0,
                end.1,
            );
        assert forall|i: int| 0 <= i < trace.len() implies spec_probe_step(
            *problems,
            *testcases,
            wait,
            states[i],
            states[i + 1],
            (#[trigger] trace[i]).outcome,
        ) by {
            assert(call_ensures(probe, (states[i],), (states[i + 1], trace[i].outcome)));
        }
        assert(spec_waited_by(
            wait,
            interval,
            deadline,
            *problems,
            *testcases,
            *clock,
            window,
            states,
            trace,
            readings,
            end.0,
            end.1,
        ));
        lemma_waited(
            wait,
            interval,
            deadline,
            *problems,
            *testcases,
            *clock,
            window,
            end.0,
            end.1,
        );
    }
    end
}

/// How a fetch of testcases ended, and what it took.
#[derive(Debug, PartialEq, Eq)]
pub struct FetchReport {
    /// The window with the testcases, or why the fetch gave up.
    pub result: Result<ContestWindow, ErrorKind>,
    /// Milliseconds slept in one piece before the budget began to count.
    pub initial_sleep: u64,
    /// How often the check of the start paused and probed again.
    pub start_retries: u64,
    /// Milliseconds that the check of the start slept in all.
    pub start_slept: u64,
    /// How often the wait for the testcases paused and probed again: one
    /// less than the number of times the problem list was fetched.
    pub retries: u64,
    /// Milliseconds that the wait for the testcases slept in all.
    pub slept: u64,
}

/// The time to sleep in one piece before the first probe, in milliseconds,
/// on what the first fetch of the judge's list of contests gave: the time
/// until the start if the list tells it, and none else.
pub open spec fn spec_initial_pause(
    listed: Result<Vec<ContestEntry>, ErrorKind>,
    contest_id: i64,
) -> u64 {
    match listed {
        Ok(list) => match spec_time_to_start(list@, contest_id) {
            Some(seconds) => spec_seconds_to_millis(spec_initial_sleep(seconds)),
            None => 0,
        },
        Err(_) => 0,
    }
}

/// The policy of the check of the start: every failed fetch is waited out.
pub open spec fn spec_start_policy(interval: u64, deadline: Deadline) -> RetryPolicy {
    RetryPolicy { interval, deadline, abort_on_first_failure: false }
}

/// The wait for the testcases of a fetch began on an empty window on
/// contest `contest_id` with `until_start` seconds to the start, and
/// `report` gives its account and what it came to.
pub open spec fn spec_fetched_from<L: Fn() -> Result<Vec<String>, ErrorKind>, F: Fn(&String) -> Result<Vec<String>, ErrorKind>, C: Fn() -> u64>(
    contest_id: i64,
    until_start: i64,
    wait: bool,
    interval: u64,
    deadline: Deadline,
    problems: L,
    testcases: F,
    clock: C,
    report: FetchReport,
) -> bool {
    exists|fresh: ContestWindow, end: ContestWindow, waited: RunReport<()>| #[trigger]
        spec_waited(wait, interval, deadline, problems, testcases, clock, fresh, end, waited) && {
            &&& fresh.contest_id == contest_id
            &&& fresh.relative_time_to_start == until_start
            &&& fresh.problem_set@.len() == 0
            &&& waited.retries == report.retries
            &&& waited.slept == report.slept
            &&& report.result == match waited.result {
                Ok(_) => Ok::<ContestWindow, ErrorKind>(end),
                Err(e) => Err::<ContestWindow, ErrorKind>(e),
            }
        }
}

/// `report` is the account of a fetch of the testcases of contest
/// `contest_id` whose waits went by `deadline`.
///
/// Without `wait` nothing was slept or checked before the single attempt.
/// With `wait`, the initial sleep is what the first fetch of the list of
/// contests called for; then the start was checked, every failure waited
/// out; and if that check ended with an error, so did the fetch, before any
/// problem list was asked for. In every other case the wait for the
/// testcases began on an empty window.
pub open spec fn spec_fetched<K: Fn() -> Result<Vec<ContestEntry>, ErrorKind>, L: Fn() -> Result<Vec<String>, ErrorKind>, F: Fn(&String) -> Result<Vec<String>, ErrorKind>, C: Fn() -> u64>(
    contest_id: i64,
    wait: bool,
    interval: u64,
    deadline: Deadline,
    contests: K,
    problems: L,
    testcases: F,
    clock: C,
    report: FetchReport,
) -> bool {
    if wait {
        &&& exists|listed: Result<Vec<ContestEntry>, ErrorKind>| #[trigger]
            call_ensures(contests, (), listed) && report.initial_sleep == spec_initial_pause(
                listed,
                contest_id,
            )
        &&& exists|checked: RunReport<i64>| #[trigger]
            spec_start_checked(
                contest_id,
                spec_start_policy(interval, deadline),
                contests,
                clock,
                checked,
            ) && {
                &&& checked.retries == report.start_retries
                &&& checked.slept == report.start_slept
                &&& match checked.result {
                    Err(e) => report.result == Err::<ContestWindow, ErrorKind>(e) && report.retries
                        == 0 && report.slept == 0,
                    Ok(seconds) => spec_fetched_from(
                        contest_id,
                        seconds,
                        wait,
                        interval,
                        deadline,
                        problems,
                        testcases,
                        clock,
                        report,
                    ),
                }
            }
    } else {
        &&& report.initial_sleep == 0
        &&& report.start_retries == 0
        &&& report.start_slept == 0
        &&& spec_fetched_from(
            contest_id,
            0,
            wait,
            interval,
            deadline,
            problems,
            testcases,
            clock,
            report,
        )
    }
}

/// Fetches the testcases of every problem of contest `contest_id`, and
/// reports how the fetch ended and what it took.
///
/// With `wait`, the judge's list of contests is asked first when the contest
/// starts, and the time until then is slept through in one piece. After
/// that, for at most `timeout` milliseconds in all and with probes `interval`
/// milliseconds apart, the start is checked again in case the clocks differ,
/// and then the testcases are waited for until none is missing. Without
/// `wait`, a single attempt is made and what it got is returned.
pub fn fetch_testcases<K, L, F, N, C, S>(
    contest_id: i64,
    wait: bool,
    interval: u64,
    timeout: u64,
    contests: &K,
    problems: &L,
    testcases: &F,
    failed: &N,
    clock: &C,
    sleep: &S,
) -> (report: FetchReport) where
    K: Fn() -> Result<Vec<ContestEntry>, ErrorKind>,
    L: Fn() -> Result<Vec<String>, ErrorKind>,
    F: Fn(&String) -> Result<Vec<String>, ErrorKind>,
    N: Fn(&String),
    C: Fn() -> u64,
    S: Fn(u64),

    requires
        call_requires(*contests, ()),
        call_requires(*problems, ()),
        forall|index: &String| call_requires(*testcases, (index,)),
        forall|index: &String| call_requires(*failed, (index,)),
        call_requires(*clock, ()),
        forall|d: u64| call_requires(*sleep, (d,)),
    ensures
        exists|start: u64| #[trigger]
            call_ensures(*clock, (), start) && spec_fetched(
                contest_id,
                wait,
                interval,
                Deadline { start, budget: timeout },
                *contests,
                *problems,
                *testcases,
                *clock,
                report,
            ),
        report.result matches Ok(window) ==> window.contest_id == contest_id
            && window.spec_fetched_by(*testcases),
        wait ==> match report.result {
            Ok(window) => window.spec_all_populated() && window.relative_time_to_start <= 0,
            Err(e) => e == ErrorKind::TimedOut,
        },
        !wait ==> report.retries == 0 && (report.result matches Err(e) ==> call_ensures(
            *problems,
            (),
            Err::<Vec<String>, ErrorKind>(e),
        )),
        spec_always_answers(*problems, *testcases) && (wait ==> spec_always_started(
            *contests,
            contest_id,
        )) ==> (report.result matches Ok(window) && window.spec_all_populated()) && report.retries
            == 0 && report.start_retries == 0,
{
    let mut initial: u64 = 0;
    let ghost mut seen: Result<Vec<ContestEntry>, ErrorKind> = Err(ErrorKind::TimedOut);
    if wait {
        let listed = contests();
        proof {
            seen = listed;
        }
        if let Ok(list) = listed {
            if let Some(seconds) = time_to_start(&list, contest_id) {
                initial = seconds_to_millis(initial_sleep(seconds));
                sleep(initial);
            }
        }
        proof {
            assert(call_ensures(*contests, (), seen));
            assert(initial == spec_initial_pause(seen, contest_id));
        }
    }
    let start: u64 = clock();
    let deadline = Deadline::new(start, timeout);
    let mut until_start: i64 = 0;
    let mut start_retries: u64 = 0;
    let mut start_slept: u64 = 0;
    let ghost mut checked_as: RunReport<i64> = RunReport { result: Ok(0), retries: 0, slept: 0 };
    if wait {
        let policy = RetryPolicy::new(interval, deadline, false);
        let checked = await_start(contest_id, &policy, contests, clock, sleep);
        proof {
            checked_as = checked;
        }
        start_retries = checked.retries;
        start_slept = checked.slept;
        match checked.result {
            Ok(seconds) => {
                until_start = seconds;
            },
            Err(e) => {
                let report = FetchReport {
                    result: Err(e),
                    initial_sleep: initial,
                    start_retries,
                    start_slept,
                    retries: 0,
                    slept: 0,
                };
                proof {
                    lemma_start_checked(contest_id, policy, *contests, *clock, checked_as);
                    assert(deadline == (Deadline { start, budget: timeout }));
                    assert(call_ensures(*contests, (), seen) && initial == spec_initial_pause(
                        seen,
                        contest_id,
                    ));
                    assert(spec_start_checked(
                        contest_id,
                        spec_start_policy(interval, deadline),
                        *contests,
                        *clock,
                        checked_as,
                    ));
                    assert(spec_fetched(
                        contest_id,
                        wait,
                        interval,
                        Deadline { start, budget: timeout },
                        *contests,
                        *problems,
                        *testcases,
                        *clock,
                        report,
                    ));
                }
                return report;
            },
        }
    }
    let window = ContestWindow::new(contest_id, until_start);
    let ghost fresh = window;
    let (end, waited) = wait_for_testcases(
        window,
        wait,
        interval,
        deadline,
        problems,
        testcases,
        failed,
        clock,
        sleep,
    );
    let ghost waited_as = waited;
    let retries = waited.retries;
    let slept = waited.slept;
    let result = match waited.result {
        Ok(_) => Ok(end),
        Err(e) => Err(e),
    };
    let report = FetchReport {
        result,
        initial_sleep: initial,
        start_retries,
        start_slept,
        retries,
        slept,
    };
    proof {
        assert(spec_waited(
            wait,
            interval,
            deadline,
            *problems,
            *testcases,
            *clock,
            fresh,
            end,
            waited_as,
        ));
        assert(deadline == (Deadline { start, budget: timeout }));
        assert(spec_fetched_from(
            contest_id,
            until_start,
            wait,
            interval,
            deadline,
            *problems,
            *testcases,
            *clock,
            report,
        ));
        if wait {
            assert(call_ensures(*contests, (), seen) && initial == spec_initial_pause(
                seen,
                contest_id,
            ));
            assert(spec_start_checked(
                contest_id,
                spec_start_policy(interval, deadline),
                *contests,
                *clock,
                checked_as,
            ));
            assert(checked_as.result == Ok::<i64, ErrorKind>(until_start));
        }
        assert(spec_fetched(
            contest_id,
            wait,
            interval,
            Deadline { start, budget: timeout },
            *contests,
            *problems,
            *testcases,
            *clock,
            report,
        ));
    }
    report
}

} // verus!
