use caffeine_cf::contest::{
    classify_start, initial_sleep, seconds_to_millis, start_outcome, time_to_start, until_start,
    ContestEntry, ContestWindow, ProblemSlot,
};
use caffeine_cf::deadline::Deadline;
use caffeine_cf::outcome::{ErrorKind, PollOutcome};
use caffeine_cf::retry::RetryPolicy;
use caffeine_cf::runner::{run, run_reporting};
use std::cell::{Cell, RefCell};

fn labels(names: &[&str]) -> Vec<String> {
    names.iter().map(|n| n.to_string()).collect()
}

fn cases(index: &str) -> Vec<String> {
    vec![format!("{} first", index), format!("{} second", index)]
}

#[test]
fn a_started_contest_needs_no_initial_sleep() {
    assert_eq!(initial_sleep(-5), 0);
    assert_eq!(classify_start(-5), PollOutcome::Ready(()));
    let time = Cell::new(0u64);
    let policy = RetryPolicy::new(1000, Deadline::new(0, 60_000), false);
    let report = run_reporting(
        || classify_start(-5),
        &policy,
        || time.get(),
        |d| time.set(time.get() + d),
    );
    assert_eq!(report.result, Ok(()));
    assert_eq!(report.retries, 0);
    assert_eq!(report.slept, 0);
}

#[test]
fn initial_sleep_is_the_time_until_the_start() {
    assert_eq!(initial_sleep(0), 0);
    assert_eq!(initial_sleep(1), 1);
    assert_eq!(initial_sleep(90), 90);
    assert_eq!(initial_sleep(i64::MAX), i64::MAX as u64);
    assert_eq!(initial_sleep(i64::MIN), 0);
    assert_eq!(classify_start(0), PollOutcome::Ready(()));
    assert_eq!(classify_start(1), PollOutcome::NotYetReady);
}

#[test]
fn until_start_negates_the_time_since_the_start() {
    assert_eq!(until_start(-90), 90);
    assert_eq!(until_start(5), -5);
    assert_eq!(until_start(0), 0);
    assert_eq!(until_start(i64::MIN), i64::MAX);
    assert_eq!(until_start(i64::MAX), -i64::MAX);
    assert_eq!(initial_sleep(until_start(-90)), 90);
    assert_eq!(initial_sleep(until_start(5)), 0);
}

#[test]
fn seconds_become_milliseconds() {
    assert_eq!(seconds_to_millis(0), 0);
    assert_eq!(seconds_to_millis(10), 10_000);
    assert_eq!(seconds_to_millis(u64::MAX / 1000), (u64::MAX / 1000) * 1000);
    assert_eq!(seconds_to_millis(u64::MAX / 1000 + 1), u64::MAX);
    assert_eq!(seconds_to_millis(u64::MAX), u64::MAX);
}

#[test]
fn time_to_start_reads_the_first_line_that_tells() {
    let list = vec![
        ContestEntry { id: 1, relative_time_seconds: Some(-10) },
        ContestEntry { id: 7, relative_time_seconds: None },
        ContestEntry { id: 7, relative_time_seconds: Some(-300) },
        ContestEntry { id: 7, relative_time_seconds: Some(42) },
        ContestEntry { id: 9, relative_time_seconds: None },
    ];
    assert_eq!(time_to_start(&list, 7), Some(300));
    assert_eq!(time_to_start(&list, 1), Some(10));
    assert_eq!(time_to_start(&list, 9), None);
    assert_eq!(time_to_start(&list, 1466), None);
    assert_eq!(time_to_start(&Vec::new(), 7), None);
}

#[test]
fn refresh_keeps_testcases_when_the_list_is_the_same() {
    let mut w = ContestWindow::new(1466, 0);
    assert!(w.all_populated());
    w.refresh(&labels(&["A", "B"]));
    assert_eq!(w.problem_set.len(), 2);
    assert_eq!(w.problem_set[0], ProblemSlot { index: "A".to_string(), testcases: None });
    assert!(!w.all_populated());
    w.problem_set[0].testcases = Some(cases("A"));
    w.refresh(&labels(&["A", "B"]));
    assert_eq!(w.problem_set[0].testcases, Some(cases("A")));
    assert_eq!(w.problem_set[1].testcases, None);
    assert!(w.has_indices(&labels(&["A", "B"])));
    assert!(!w.has_indices(&labels(&["A"])));
    assert!(!w.has_indices(&labels(&["B", "A"])));
}

#[test]
fn refresh_starts_over_when_the_list_has_changed() {
    let mut w = ContestWindow::new(1466, 0);
    w.refresh(&labels(&["A", "B"]));
    w.problem_set[0].testcases = Some(cases("A"));
    w.refresh(&labels(&["A", "B", "C"]));
    assert_eq!(w.contest_id, 1466);
    assert_eq!(w.problem_set.len(), 3);
    for (slot, name) in w.problem_set.iter().zip(["A", "B", "C"]) {
        assert_eq!(slot.index, name);
        assert_eq!(slot.testcases, None);
    }
}

#[test]
fn fill_missing_asks_only_for_what_is_missing() {
    let mut w = ContestWindow::new(1466, 0);
    w.refresh(&labels(&["A", "B", "C", "D"]));
    w.problem_set[2].testcases = Some(vec!["kept".to_string()]);
    let asked: RefCell<Vec<String>> = RefCell::new(Vec::new());
    let missing = w.fill_missing(&|index: &String| {
        asked.borrow_mut().push(index.clone());
        if index == "B" || index == "D" {
            Err(ErrorKind::RemoteRejected("not out yet".to_string()))
        } else {
            Ok(cases(index))
        }
    });
    assert_eq!(*asked.borrow(), labels(&["A", "B", "D"]));
    assert_eq!(missing, vec![1, 3]);
    assert_eq!(w.problem_set[0].testcases, Some(cases("A")));
    assert_eq!(w.problem_set[1].testcases, None);
    assert_eq!(w.problem_set[2].testcases, Some(vec!["kept".to_string()]));
    assert_eq!(w.problem_set[3].testcases, None);
    assert!(!w.all_populated());
    assert_eq!(w.testcase_outcome(true), PollOutcome::NotYetReady);
    assert_eq!(w.testcase_outcome(false), PollOutcome::Ready(()));
}

#[test]
fn a_failed_list_fetch_fails_the_probe_and_keeps_the_window() {
    let mut w = ContestWindow::new(1466, 0);
    w.refresh(&labels(&["A"]));
    w.problem_set[0].testcases = Some(cases("A"));
    let (outcome, missing) = w.probe_testcases(
        true,
        Err(ErrorKind::TransportFailure),
        &|_index: &String| panic!("nothing to fetch"),
    );
    assert_eq!(outcome, PollOutcome::Failed(ErrorKind::TransportFailure));
    assert!(missing.is_empty());
    assert_eq!(w.problem_set[0].testcases, Some(cases("A")));
}

#[test]
fn testcase_wait_returns_once_every_slot_is_populated() {
    let window = RefCell::new(ContestWindow::new(1466, -5));
    let outer = Cell::new(0u32);
    let time = Cell::new(0u64);
    let policy = RetryPolicy::new(10_000, Deadline::new(0, 1_000_000), false);
    let result = run(
        || {
            outer.set(outer.get() + 1);
            let round = outer.get();
            let (outcome, _missing) = window.borrow_mut().probe_testcases(
                true,
                Ok(labels(&["A", "B", "C"])),
                &|index: &String| {
                    if index == "B" && round < 3 {
                        Err(ErrorKind::RemoteRejected("testcases not published".to_string()))
                    } else {
                        Ok(cases(index))
                    }
                },
            );
            outcome
        },
        &policy,
        || time.get(),
        |d| time.set(time.get() + d),
    );
    assert_eq!(result, Ok(()));
    assert!(outer.get() >= 3);
    assert_eq!(outer.get(), 3);
    let window = window.into_inner();
    assert!(window.all_populated());
    assert_eq!(window.problem_set.len(), 3);
    assert_eq!(window.problem_set[0], ProblemSlot { index: "A".to_string(), testcases: Some(cases("A")) });
    assert_eq!(window.problem_set[1], ProblemSlot { index: "B".to_string(), testcases: Some(cases("B")) });
    assert_eq!(window.problem_set[2], ProblemSlot { index: "C".to_string(), testcases: Some(cases("C")) });
    assert_eq!(time.get(), 20_000);
}

#[test]
fn without_wait_mode_a_read_error_is_terminal() {
    let window = RefCell::new(ContestWindow::new(1466, 0));
    let time = Cell::new(0u64);
    let probes = Cell::new(0u32);
    let policy = RetryPolicy::new(10_000, Deadline::new(0, 1_000_000), true);
    let result = run(
        || {
            probes.set(probes.get() + 1);
            window
                .borrow_mut()
                .probe_testcases(
                    false,
                    Err(ErrorKind::RemoteRejected("contest has not started".to_string())),
                    &|index: &String| Ok(cases(index)),
                )
                .0
        },
        &policy,
        || time.get(),
        |d| time.set(time.get() + d),
    );
    assert_eq!(result, Err(ErrorKind::RemoteRejected("contest has not started".to_string())));
    assert_eq!(probes.get(), 1);
    assert_eq!(time.get(), 0);
}

#[test]
fn in_wait_mode_a_read_error_is_waited_out() {
    let window = RefCell::new(ContestWindow::new(1466, 0));
    let time = Cell::new(0u64);
    let probes = Cell::new(0u32);
    let policy = RetryPolicy::new(10_000, Deadline::new(0, 1_000_000), false);
    let result = run(
        || {
            probes.set(probes.get() + 1);
            let listed = if probes.get() < 4 {
                Err(ErrorKind::RemoteRejected("contest has not started".to_string()))
            } else {
                Ok(labels(&["A"]))
            };
            window.borrow_mut().probe_testcases(true, listed, &|index: &String| Ok(cases(index))).0
        },
        &policy,
        || time.get(),
        |d| time.set(time.get() + d),
    );
    assert_eq!(result, Ok(()));
    assert_eq!(probes.get(), 4);
    assert!(window.borrow().all_populated());
}

#[test]
fn without_wait_mode_a_single_attempt_takes_what_it_got() {
    let mut w = ContestWindow::new(1466, 0);
    let (outcome, missing) = w.probe_testcases(
        false,
        Ok(labels(&["A", "B"])),
        &|index: &String| {
            if index == "A" {
                Ok(cases(index))
            } else {
                Err(ErrorKind::TransportFailure)
            }
        },
    );
    assert_eq!(outcome, PollOutcome::Ready(()));
    assert_eq!(missing, vec![1]);
    assert_eq!(w.problem_set[0].testcases, Some(cases("A")));
    assert_eq!(w.problem_set[1].testcases, None);
}

#[test]
fn start_outcome_reads_the_list() {
    let list = |t: Option<i64>| Ok(vec![ContestEntry { id: 7, relative_time_seconds: t }]);
    assert_eq!(start_outcome(list(Some(5)), 7), PollOutcome::Ready(-5));
    assert_eq!(start_outcome(list(Some(0)), 7), PollOutcome::Ready(0));
    assert_eq!(start_outcome(list(Some(-90)), 7), PollOutcome::NotYetReady);
    assert_eq!(start_outcome(list(None), 7), PollOutcome::Ready(0));
    assert_eq!(start_outcome(list(Some(-90)), 8), PollOutcome::Ready(0));
    assert_eq!(
        start_outcome(Err(ErrorKind::TransportFailure), 7),
        PollOutcome::Failed(ErrorKind::TransportFailure)
    );
}
