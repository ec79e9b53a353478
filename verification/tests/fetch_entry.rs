use caffeine_cf::contest::{ContestEntry, ContestWindow, ProblemSlot};
use caffeine_cf::deadline::Deadline;
use caffeine_cf::fetch::{await_start, fetch_testcases, wait_for_testcases, FetchReport};
use caffeine_cf::outcome::ErrorKind;
use caffeine_cf::retry::RetryPolicy;
use std::cell::{Cell, RefCell};

/// A judge made up for the tests. Its clock only moves when someone sleeps.
struct FakeJudge {
    now: Cell<u64>,
    /// Milliseconds from the beginning at which contest 1466 starts.
    starts_at: u64,
    /// Milliseconds from the beginning from which on problem B has testcases.
    b_from: u64,
    list_calls: Cell<u32>,
    outer: Cell<u32>,
    sleeps: RefCell<Vec<u64>>,
    failed: RefCell<Vec<String>>,
}

impl FakeJudge {
    fn new(starts_at: u64, b_from: u64) -> FakeJudge {
        FakeJudge {
            now: Cell::new(0),
            starts_at,
            b_from,
            list_calls: Cell::new(0),
            outer: Cell::new(0),
            sleeps: RefCell::new(Vec::new()),
            failed: RefCell::new(Vec::new()),
        }
    }

    fn contests(&self) -> Result<Vec<ContestEntry>, ErrorKind> {
        self.list_calls.set(self.list_calls.get() + 1);
        let since = (self.now.get() as i64 - self.starts_at as i64) / 1000;
        Ok(vec![
            ContestEntry { id: 1, relative_time_seconds: Some(99) },
            ContestEntry { id: 1466, relative_time_seconds: Some(since) },
        ])
    }

    fn problems(&self) -> Result<Vec<String>, ErrorKind> {
        self.outer.set(self.outer.get() + 1);
        if self.now.get() < self.starts_at {
            Err(ErrorKind::RemoteRejected("contest has not started".to_string()))
        } else {
            Ok(vec!["A".to_string(), "B".to_string(), "C".to_string()])
        }
    }

    fn testcases(&self, index: &String) -> Result<Vec<String>, ErrorKind> {
        if index == "B" && self.now.get() < self.b_from {
            Err(ErrorKind::RemoteRejected("No testcase input found for this problem.".to_string()))
        } else {
            Ok(vec![format!("input of {}", index)])
        }
    }

    fn sleep(&self, d: u64) {
        self.sleeps.borrow_mut().push(d);
        self.now.set(self.now.get() + d);
    }

    fn fetch(&self, wait: bool, interval: u64, timeout: u64) -> FetchReport {
        fetch_testcases(
            1466,
            wait,
            interval,
            timeout,
            &|| self.contests(),
            &|| self.problems(),
            &|index: &String| self.testcases(index),
            &|index: &String| self.failed.borrow_mut().push(index.clone()),
            &|| self.now.get(),
            &|d| self.sleep(d),
        )
    }
}

fn slot(index: &str) -> ProblemSlot {
    ProblemSlot { index: index.to_string(), testcases: Some(vec![format!("input of {}", index)]) }
}

#[test]
fn fetch_waits_until_slot_b_is_published() {
    let judge = FakeJudge::new(0, 20_000);
    let report = judge.fetch(true, 10_000, 1_000_000);
    assert_eq!(report.retries, 2);
    assert_eq!(report.slept, 20_000);
    assert_eq!(report.initial_sleep, 0);
    assert_eq!(report.start_retries, 0);
    assert_eq!(report.start_slept, 0);
    let window = report.result.unwrap();
    assert_eq!(window.contest_id, 1466);
    assert_eq!(window.problem_set, vec![slot("A"), slot("B"), slot("C")]);
    assert!(window.all_populated());
    assert!(judge.outer.get() >= 3);
    assert_eq!(judge.outer.get(), 3);
    assert_eq!(*judge.failed.borrow(), vec!["B".to_string(), "B".to_string()]);
    assert_eq!(*judge.sleeps.borrow(), vec![0, 10_000, 10_000]);
}

#[test]
fn fetch_sleeps_until_the_start_in_one_piece() {
    let judge = FakeJudge::new(90_000, 0);
    let report = judge.fetch(true, 10_000, 1_000_000);
    assert_eq!(report.initial_sleep, 90_000);
    assert_eq!(report.retries, 0);
    assert_eq!(report.slept, 0);
    let window = report.result.unwrap();
    assert_eq!(*judge.sleeps.borrow(), vec![90_000]);
    assert_eq!(window.relative_time_to_start, 0);
    assert_eq!(window.problem_set, vec![slot("A"), slot("B"), slot("C")]);
    assert_eq!(judge.list_calls.get(), 2);
    assert_eq!(judge.outer.get(), 1);
}

#[test]
fn fetch_of_a_started_contest_does_not_sleep_before_probing() {
    let judge = FakeJudge::new(0, 0);
    judge.now.set(5_000);
    let window = judge.fetch(true, 10_000, 1_000_000).result.unwrap();
    assert_eq!(window.relative_time_to_start, -5);
    assert_eq!(*judge.sleeps.borrow(), vec![0]);
    assert_eq!(judge.outer.get(), 1);
    assert!(window.all_populated());
}

#[test]
fn fetch_times_out_when_testcases_never_come() {
    let judge = FakeJudge::new(0, u64::MAX);
    let report = judge.fetch(true, 10_000, 35_000);
    assert_eq!(report.result, Err(ErrorKind::TimedOut));
    assert_eq!(report.retries, 4);
    assert_eq!(report.slept, 35_000);
    assert_eq!(*judge.sleeps.borrow(), vec![0, 10_000, 10_000, 10_000, 5_000]);
    assert_eq!(judge.now.get(), 35_000);
    assert_eq!(judge.outer.get(), 5);
}

#[test]
fn fetch_without_wait_makes_a_single_attempt() {
    let judge = FakeJudge::new(0, 20_000);
    let report = judge.fetch(false, 10_000, 1_000_000);
    assert_eq!(report.retries, 0);
    assert_eq!(report.initial_sleep, 0);
    let window = report.result.unwrap();
    assert_eq!(judge.outer.get(), 1);
    assert_eq!(judge.list_calls.get(), 0);
    assert!(judge.sleeps.borrow().is_empty());
    assert_eq!(window.problem_set[0], slot("A"));
    assert_eq!(window.problem_set[1], ProblemSlot { index: "B".to_string(), testcases: None });
    assert_eq!(window.problem_set[2], slot("C"));
    assert_eq!(*judge.failed.borrow(), vec!["B".to_string()]);
}

#[test]
fn fetch_without_wait_fails_on_a_read_error() {
    let judge = FakeJudge::new(60_000, 0);
    let result = judge.fetch(false, 10_000, 1_000_000).result;
    assert_eq!(result, Err(ErrorKind::RemoteRejected("contest has not started".to_string())));
    assert_eq!(judge.outer.get(), 1);
    assert!(judge.sleeps.borrow().is_empty());
}

#[test]
fn await_start_checks_again_until_the_contest_runs() {
    let judge = FakeJudge::new(25_000, 0);
    let policy = RetryPolicy::new(10_000, Deadline::new(0, 100_000), false);
    let report = await_start(1466, &policy, &|| judge.contests(), &|| judge.now.get(), &|d| judge.sleep(d));
    assert_eq!(report.result, Ok(-5));
    assert_eq!(report.retries, 3);
    assert_eq!(report.slept, 30_000);
    assert_eq!(judge.list_calls.get(), 4);
    assert_eq!(*judge.sleeps.borrow(), vec![10_000, 10_000, 10_000]);
}

#[test]
fn await_start_gives_up_at_the_deadline() {
    let judge = FakeJudge::new(500_000, 0);
    let policy = RetryPolicy::new(10_000, Deadline::new(0, 25_000), false);
    let report = await_start(1466, &policy, &|| judge.contests(), &|| judge.now.get(), &|d| judge.sleep(d));
    assert_eq!(report.result, Err(ErrorKind::TimedOut));
    assert_eq!(report.slept, 25_000);
    assert_eq!(*judge.sleeps.borrow(), vec![10_000, 10_000, 5_000]);
}

#[test]
fn await_start_aborts_on_failure_if_the_policy_says_so() {
    let policy = RetryPolicy::new(10_000, Deadline::new(0, 25_000), true);
    let report = await_start(
        1466,
        &policy,
        &|| Err(ErrorKind::TransportFailure),
        &|| 0,
        &|_d| panic!("no sleep is due"),
    );
    assert_eq!(report.result, Err(ErrorKind::TransportFailure));
    assert_eq!(report.retries, 0);
}

#[test]
fn wait_for_testcases_keeps_what_it_has_between_probes() {
    let judge = FakeJudge::new(0, 10_000);
    let a_fetches = Cell::new(0u32);
    let (window, report) = wait_for_testcases(
        ContestWindow::new(1466, 0),
        true,
        10_000,
        Deadline::new(0, 100_000),
        &|| judge.problems(),
        &|index: &String| {
            if index == "A" {
                a_fetches.set(a_fetches.get() + 1);
            }
            judge.testcases(index)
        },
        &|_index: &String| (),
        &|| judge.now.get(),
        &|d| judge.sleep(d),
    );
    assert_eq!(report.result, Ok(()));
    assert_eq!(report.retries, 1);
    assert_eq!(report.slept, 10_000);
    assert_eq!(a_fetches.get(), 1);
    assert_eq!(judge.outer.get(), 2);
    assert!(window.all_populated());
}

#[test]
fn three_probes_and_two_pauses_of_a_second() {
    let probes = Cell::new(0u32);
    let now = Cell::new(0u64);
    let sleeps: RefCell<Vec<u64>> = RefCell::new(Vec::new());
    let b_tries = Cell::new(0u32);
    let report = fetch_testcases(
        1466,
        true,
        1_000,
        1_000_000,
        &|| Ok(vec![ContestEntry { id: 1466, relative_time_seconds: Some(60) }]),
        &|| {
            probes.set(probes.get() + 1);
            Ok(vec!["A".to_string(), "B".to_string(), "C".to_string()])
        },
        &|index: &String| match index.as_str() {
            "A" => Ok(vec!["1".to_string()]),
            "C" => Ok(vec!["3".to_string()]),
            _ => {
                b_tries.set(b_tries.get() + 1);
                if probes.get() < 3 {
                    Err(ErrorKind::RemoteRejected("No testcase input found for this problem.".to_string()))
                } else {
                    Ok(vec!["2".to_string()])
                }
            }
        },
        &|_index: &String| (),
        &|| now.get(),
        &|d| {
            sleeps.borrow_mut().push(d);
            now.set(now.get() + d)
        },
    );
    assert_eq!(report.retries, 2);
    assert_eq!(report.slept, 2_000);
    assert_eq!(probes.get(), 3);
    assert_eq!(b_tries.get(), 3);
    assert_eq!(*sleeps.borrow(), vec![0, 1_000, 1_000]);
    let window = report.result.unwrap();
    assert_eq!(
        window.problem_set,
        vec![
            ProblemSlot { index: "A".to_string(), testcases: Some(vec!["1".to_string()]) },
            ProblemSlot { index: "B".to_string(), testcases: Some(vec!["2".to_string()]) },
            ProblemSlot { index: "C".to_string(), testcases: Some(vec!["3".to_string()]) },
        ]
    );
}

#[test]
fn a_judge_that_always_answers_is_done_after_one_probe() {
    let probes = Cell::new(0u32);
    let report = fetch_testcases(
        7,
        true,
        1_000,
        0,
        &|| Ok(Vec::new()),
        &|| {
            probes.set(probes.get() + 1);
            Ok(vec!["A".to_string()])
        },
        &|_index: &String| Ok(vec!["in".to_string()]),
        &|_index: &String| (),
        &|| 123_456,
        &|_d| panic!("no sleep is due"),
    );
    assert_eq!(probes.get(), 1);
    assert_eq!(report.retries, 0);
    assert_eq!(report.start_retries, 0);
    assert!(report.result.unwrap().all_populated());
}
