use caffeine_cf::deadline::Deadline;
use caffeine_cf::outcome::{ErrorKind, PollOutcome};
use caffeine_cf::retry::{RetryPolicy, Step};
use caffeine_cf::runner::{run, run_reporting, run_threaded};
use std::cell::Cell;

/// A clock that only moves when the loop sleeps.
struct FakeTime {
    now: Cell<u64>,
    sleeps: Cell<u64>,
}

impl FakeTime {
    fn new() -> FakeTime {
        FakeTime { now: Cell::new(0), sleeps: Cell::new(0) }
    }
}

#[test]
fn never_ready_times_out_at_the_deadline() {
    let time = FakeTime::new();
    let probes = Cell::new(0u64);
    let policy = RetryPolicy::new(30, Deadline::new(0, 100), false);
    let report = run_reporting(
        || {
            probes.set(probes.get() + 1);
            PollOutcome::<u8>::NotYetReady
        },
        &policy,
        || time.now.get(),
        |d| {
            time.sleeps.set(time.sleeps.get() + 1);
            time.now.set(time.now.get() + d)
        },
    );
    assert_eq!(report.result, Err(ErrorKind::TimedOut));
    assert_eq!(report.slept, 100);
    assert_eq!(report.retries, 4);
    assert_eq!(probes.get(), 5);
    assert_eq!(time.now.get(), 100);
    assert!(time.now.get() <= 100 + 30);
}

#[test]
fn ready_on_third_probe_returns_after_three_probes() {
    let time = FakeTime::new();
    let probes = Cell::new(0u64);
    let policy = RetryPolicy::new(10, Deadline::new(0, 30), false);
    let result = run(
        || {
            probes.set(probes.get() + 1);
            if probes.get() == 3 {
                PollOutcome::Ready(42u32)
            } else {
                PollOutcome::NotYetReady
            }
        },
        &policy,
        || time.now.get(),
        |d| time.now.set(time.now.get() + d),
    );
    assert_eq!(result, Ok(42));
    assert_eq!(probes.get(), 3);
    assert_eq!(time.now.get(), 20);
}

#[test]
fn failure_with_abort_returns_without_sleeping() {
    let time = FakeTime::new();
    let policy = RetryPolicy::new(10, Deadline::new(0, 1000), true);
    let report = run_reporting(
        || PollOutcome::<()>::Failed(ErrorKind::RemoteRejected("contest has not started".to_string())),
        &policy,
        || time.now.get(),
        |d| {
            time.sleeps.set(time.sleeps.get() + 1);
            time.now.set(time.now.get() + d)
        },
    );
    assert_eq!(report.result, Err(ErrorKind::RemoteRejected("contest has not started".to_string())));
    assert_eq!(report.retries, 0);
    assert_eq!(report.slept, 0);
    assert_eq!(time.sleeps.get(), 0);
}

#[test]
fn decide_clamps_the_pause_to_the_budget() {
    let policy = RetryPolicy::new(30, Deadline::new(0, 100), false);
    assert_eq!(policy.decide(PollOutcome::<u8>::NotYetReady, 0), Step::Sleep(30));
    assert_eq!(policy.decide(PollOutcome::<u8>::NotYetReady, 90), Step::Sleep(10));
    assert_eq!(policy.decide(PollOutcome::<u8>::NotYetReady, 100), Step::Return(Err(ErrorKind::TimedOut)));
    assert_eq!(policy.decide(PollOutcome::Ready(7u8), 500), Step::Return(Ok(7)));
}

#[test]
fn zero_interval_is_raised_to_the_minimum() {
    let time = FakeTime::new();
    let probes = Cell::new(0u64);
    let policy = RetryPolicy::new(0, Deadline::new(0, 3), false);
    assert_eq!(policy.effective_interval(), 1);
    let report = run_reporting(
        || {
            probes.set(probes.get() + 1);
            PollOutcome::<u8>::NotYetReady
        },
        &policy,
        || time.now.get(),
        |d| {
            assert!(d >= 1);
            time.now.set(time.now.get() + d)
        },
    );
    assert_eq!(report.result, Err(ErrorKind::TimedOut));
    assert_eq!(probes.get(), 4);
    assert_eq!(report.slept, 3);
}

#[test]
fn tolerated_failures_end_in_timed_out() {
    let time = FakeTime::new();
    let probes = Cell::new(0u64);
    let policy = RetryPolicy::new(50, Deadline::new(0, 120), false);
    let result = run(
        || {
            probes.set(probes.get() + 1);
            PollOutcome::<u8>::Failed(ErrorKind::TransportFailure)
        },
        &policy,
        || time.now.get(),
        |d| time.now.set(time.now.get() + d),
    );
    assert_eq!(result, Err(ErrorKind::TimedOut));
    assert_eq!(probes.get(), 4);
    assert_eq!(time.now.get(), 120);
}

#[test]
fn tolerated_failure_then_ready_returns_the_value() {
    let time = FakeTime::new();
    let probes = Cell::new(0u64);
    let policy = RetryPolicy::new(50, Deadline::new(0, 120), false);
    let result = run(
        || {
            probes.set(probes.get() + 1);
            if probes.get() < 2 {
                PollOutcome::Failed(ErrorKind::TransportFailure)
            } else {
                PollOutcome::Ready("done")
            }
        },
        &policy,
        || time.now.get(),
        |d| time.now.set(time.now.get() + d),
    );
    assert_eq!(result, Ok("done"));
    assert_eq!(probes.get(), 2);
}

#[test]
fn a_clock_that_stands_still_cannot_make_the_loop_hang() {
    let probes = Cell::new(0u64);
    let slept = Cell::new(0u64);
    let policy = RetryPolicy::new(10, Deadline::new(500, 35), false);
    let report = run_reporting(
        || {
            probes.set(probes.get() + 1);
            PollOutcome::<u8>::NotYetReady
        },
        &policy,
        || 500,
        |d| slept.set(slept.get() + d),
    );
    assert_eq!(report.result, Err(ErrorKind::TimedOut));
    assert_eq!(probes.get(), 5);
    assert_eq!(slept.get(), 35);
    assert_eq!(report.slept, 35);
    assert_eq!(report.retries, 4);
}

#[test]
fn a_slow_probe_uses_up_the_budget() {
    let time = FakeTime::new();
    let probes = Cell::new(0u64);
    let policy = RetryPolicy::new(10, Deadline::new(0, 100), false);
    let report = run_reporting(
        || {
            probes.set(probes.get() + 1);
            time.now.set(time.now.get() + 60);
            PollOutcome::<u8>::NotYetReady
        },
        &policy,
        || time.now.get(),
        |d| time.now.set(time.now.get() + d),
    );
    assert_eq!(report.result, Err(ErrorKind::TimedOut));
    assert_eq!(probes.get(), 2);
    assert_eq!(report.slept, 10);
}

#[test]
fn ready_wins_even_after_the_deadline() {
    let policy = RetryPolicy::new(10, Deadline::new(0, 100), true);
    let result = run(|| PollOutcome::Ready(1u8), &policy, || 5000, |_d| ());
    assert_eq!(result, Ok(1));
}

#[test]
fn zero_budget_allows_exactly_one_probe() {
    let probes = Cell::new(0u64);
    let policy = RetryPolicy::new(10, Deadline::new(0, 0), false);
    let report = run_reporting(
        || {
            probes.set(probes.get() + 1);
            PollOutcome::<u8>::NotYetReady
        },
        &policy,
        || 0,
        |_d| panic!("no sleep is due"),
    );
    assert_eq!(report.result, Err(ErrorKind::TimedOut));
    assert_eq!(probes.get(), 1);
    assert_eq!(report.slept, 0);
}

#[test]
fn decide_follows_the_policy_on_failure() {
    let aborting = RetryPolicy::new(10, Deadline::new(0, 100), true);
    let patient = RetryPolicy::new(10, Deadline::new(0, 100), false);
    assert_eq!(
        aborting.decide(PollOutcome::<u8>::Failed(ErrorKind::TransportFailure), 0),
        Step::Return(Err(ErrorKind::TransportFailure))
    );
    assert_eq!(
        patient.decide(PollOutcome::<u8>::Failed(ErrorKind::TransportFailure), 0),
        Step::Sleep(10)
    );
    assert_eq!(
        patient.decide(PollOutcome::<u8>::Failed(ErrorKind::TransportFailure), 100),
        Step::Return(Err(ErrorKind::TimedOut))
    );
}

#[test]
fn deadline_counts_down_and_expires() {
    let d = Deadline::new(1000, 250);
    assert_eq!(d.elapsed(1000), 0);
    assert_eq!(d.remaining(1000), 250);
    assert!(!d.expired(1000));
    assert_eq!(d.elapsed(1100), 100);
    assert_eq!(d.remaining(1100), 150);
    assert!(!d.expired(1249));
    assert_eq!(d.remaining(1250), 0);
    assert!(d.expired(1250));
    assert_eq!(d.elapsed(5000), 4000);
    assert_eq!(d.remaining(5000), 0);
    assert!(d.expired(5000));
}

#[test]
fn deadline_treats_an_early_reading_as_no_time_gone() {
    let d = Deadline::new(1000, 250);
    assert_eq!(d.elapsed(900), 0);
    assert_eq!(d.remaining(900), 250);
    assert!(!d.expired(900));
    let spent = Deadline::new(7, 0);
    assert!(spent.expired(7));
    assert_eq!(spent.remaining(7), 0);
}

#[test]
fn a_threaded_probe_gets_the_state_that_the_call_before_gave() {
    let time = FakeTime::new();
    let policy = RetryPolicy::new(10, Deadline::new(0, 1000), false);
    let (state, report) = run_threaded(
        Vec::new(),
        |seen: Vec<u32>| {
            let mut seen = seen;
            seen.push(seen.len() as u32);
            let out = if seen.len() == 4 { PollOutcome::Ready("full") } else { PollOutcome::NotYetReady };
            (seen, out)
        },
        &policy,
        || time.now.get(),
        |d| time.now.set(time.now.get() + d),
    );
    assert_eq!(state, vec![0, 1, 2, 3]);
    assert_eq!(report.result, Ok("full"));
    assert_eq!(report.retries, 3);
    assert_eq!(report.slept, 30);
}
