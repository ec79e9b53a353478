//! Submitting one solution: what to tell the browser in each phase of the
//! session, how to watch for the outcome of a step, and the session as a
//! whole. The browser is handed in by the caller as a handful of calls.

use vstd::prelude::*;
use vstd::string::StringExecFns;
use crate::deadline::Deadline;
use crate::outcome::{classify_login, classify_submission, ErrorKind, Mirror, PollOutcome};
use crate::retry::RetryPolicy;
use crate::runner::{run_reporting, spec_accounts, spec_explains, RunReport};
use crate::session::{
    drive, lemma_succeeded_saw_marker, spec_answers, spec_drives, spec_replay, Failure,
    SessionAction, SessionEvent, SessionPhase,
};
use crate::target::{
    enter_url, form_script, login_script, observe_login, observe_submission, source_script,
    spec_base_url, spec_enter_url, spec_form_script, spec_login_script,
    spec_my_submissions_url, spec_source_script, spec_submit_url, submit_url, EDITOR_OFF_SCRIPT,
    EDITOR_TOGGLE, LOGIN_ERROR_MARKER, SUBMIT_BUTTON, SUBMIT_ERROR_MARKER,
};
use crate::trace::{lemma_result_of_run, Tick};

verus! {

/// Milliseconds that the two waits of a session may take together.
pub const SESSION_TIMEOUT: u64 = 20_000;

/// Milliseconds between two looks at the page.
pub const LOOK_INTERVAL: u64 = 100;

/// One solution to submit, and as whom.
#[derive(Debug, PartialEq, Eq)]
pub struct Submission {
    pub mirror: Mirror,
    pub contest_id: i64,
    pub problem_index: String,
    pub program_type_id: i64,
    pub source: String,
    pub handle: String,
    pub password: String,
}

/// One thing to tell the browser.
#[derive(Debug, PartialEq, Eq)]
pub enum Command {
    /// Go to this address and wait until the page is there.
    Navigate(String),
    /// Run this script on the page.
    Evaluate(String),
    /// Wait for the element that this marker selects, and click it.
    Click(String),
    /// Wait for the element that this marker selects.
    Await(String),
}

/// One step of a phase's work.
#[derive(Debug, PartialEq, Eq)]
pub enum Order {
    /// Tell the browser this command; if it fails, the work has failed.
    Tell(Command),
    /// Switch off what `marker` selects, if it is there: await the element;
    /// if that fails, the step is done; if not, run `script` and click the
    /// element, and if either fails, the work has failed.
    SwitchOff { marker: String, script: String },
}

/// An order with its texts as sequences of characters.
pub enum OrderView {
    Navigate(Seq<char>),
    Evaluate(Seq<char>),
    Click(Seq<char>),
    Await(Seq<char>),
    SwitchOff { marker: Seq<char>, script: Seq<char> },
}

impl View for Order {
    type V = OrderView;

    open spec fn view(&self) -> OrderView {
        match *self {
            Order::Tell(Command::Navigate(url)) => OrderView::Navigate(url@),
            Order::Tell(Command::Evaluate(script)) => OrderView::Evaluate(script@),
            Order::Tell(Command::Click(marker)) => OrderView::Click(marker@),
            Order::Tell(Command::Await(marker)) => OrderView::Await(marker@),
            Order::SwitchOff { marker, script } => OrderView::SwitchOff {
                marker: marker@,
                script: script@,
            },
        }
    }
}

/// The views of a list of orders.
pub open spec fn spec_views(orders: Seq<Order>) -> Seq<OrderView> {
    Seq::new(orders.len(), |i: int| orders[i]@)
}

impl Submission {
    /// The work of the phase that asks for `action`.
    ///
    /// To send the credentials: go to the login surface and run the login
    /// script. To send the submission: go to the submission surface, select
    /// problem and language, switch the source editor off if there is one,
    /// put the source into the form, and click the submit button. Every
    /// other phase has no work for the browser.
    pub open spec fn spec_orders(self, action: SessionAction) -> Seq<OrderView> {
        match action {
            SessionAction::SendCredentials => seq![
                OrderView::Navigate(spec_enter_url(self.mirror)),
                OrderView::Evaluate(spec_login_script(self.handle@, self.password@)),
            ],
            SessionAction::SendSubmission => seq![
                OrderView::Navigate(spec_submit_url(self.mirror, self.contest_id)),
                OrderView::Evaluate(spec_form_script(self.problem_index@, self.program_type_id)),
                OrderView::SwitchOff { marker: EDITOR_TOGGLE@, script: EDITOR_OFF_SCRIPT@ },
                OrderView::Evaluate(spec_source_script(self.source@)),
                OrderView::Click(SUBMIT_BUTTON@),
            ],
            _ => seq![],
        }
    }

    /// The address at which a wait sees that its step was accepted: the
    /// endpoint's home for the login, the list of own submissions for the
    /// result.
    pub open spec fn spec_landing(self, action: SessionAction) -> Seq<char> {
        match action {
            SessionAction::WatchResult => spec_my_submissions_url(self.mirror, self.contest_id),
            _ => spec_base_url(self.mirror),
        }
    }

    /// How many error elements a page shows without any refusal.
    pub open spec fn spec_tolerated_errors(self, action: SessionAction) -> nat {
        match action {
            SessionAction::WatchResult => self.mirror.spec_hidden_error_elements(),
            _ => 0,
        }
    }

    /// What a wait makes of one look at the page: accepted at the landing
    /// address, refused if more error elements show than are tolerated, and
    /// open else.
    pub open spec fn spec_verdict(
        self,
        action: SessionAction,
        location: Seq<char>,
        errors: usize,
    ) -> PollOutcome<bool> {
        if location == self.spec_landing(action) {
            PollOutcome::Ready(true)
        } else if errors > self.spec_tolerated_errors(action) {
            PollOutcome::Ready(false)
        } else {
            PollOutcome::NotYetReady
        }
    }

    pub fn orders(&self, action: SessionAction) -> (list: Vec<Order>)
        ensures
            spec_views(list@) == self.spec_orders(action),
    {
        let mut list: Vec<Order> = Vec::new();
        match action {
            SessionAction::SendCredentials => {
                list.push(Order::Tell(Command::Navigate(enter_url(self.mirror))));
                list.push(
                    Order::Tell(
                        Command::Evaluate(
                            login_script(self.handle.as_str(), self.password.as_str()),
                        ),
                    ),
                );
            },
            SessionAction::SendSubmission => {
                list.push(Order::Tell(Command::Navigate(submit_url(self.mirror, self.contest_id))));
                list.push(
                    Order::Tell(
                        Command::Evaluate(
                            form_script(self.problem_index.as_str(), self.program_type_id),
                        ),
                    ),
                );
                list.push(
                    Order::SwitchOff {
                        marker: String::from_str(EDITOR_TOGGLE),
                        script: String::from_str(EDITOR_OFF_SCRIPT),
                    },
                );
                list.push(Order::Tell(Command::Evaluate(source_script(self.source.as_str()))));
                list.push(Order::Tell(Command::Click(String::from_str(SUBMIT_BUTTON))));
            },
            _ => {},
        }
        assert(spec_views(list@) =~= self.spec_orders(action));
        list
    }

    /// What a wait makes of one look at the page.
    pub fn verdict(&self, action: SessionAction, location: &String, errors: usize) -> (out:
        PollOutcome<bool>)
        ensures
            out == self.spec_verdict(action, location@, errors),
    {
        match action {
            SessionAction::WatchResult => classify_submission(
                observe_submission(self.mirror, self.contest_id, location, errors),
                self.mirror,
            ),
            _ => classify_login(observe_login(self.mirror, location, errors > 0)),
        }
    }
}

/// The browser was told `command`, and it went through.
pub open spec fn spec_went_through<D: Fn(&Command) -> Result<(), String>>(
    browser: D,
    command: Command,
) -> bool {
    exists|done: Result<(), String>| #[trigger] call_ensures(browser, (&command,), done) && done is Ok
}

/// The browser was told `command`, and it failed.
pub open spec fn spec_fell_through<D: Fn(&Command) -> Result<(), String>>(
    browser: D,
    command: Command,
) -> bool {
    exists|done: Result<(), String>| #[trigger]
        call_ensures(browser, (&command,), done) && done is Err
}

/// The browser was told `command`, and it failed with these words.
pub open spec fn spec_broke_on<D: Fn(&Command) -> Result<(), String>>(
    browser: D,
    command: Command,
    said: String,
) -> bool {
    call_ensures(browser, (&command,), Err::<(), String>(said))
}

/// `order` was carried out. A command was told and went through. Of a
/// switch, either the element did not show up and nothing more was told, or
/// it did, and the script and the click went through.
pub open spec fn spec_done<D: Fn(&Command) -> Result<(), String>>(browser: D, order: Order) -> bool {
    match order {
        Order::Tell(command) => spec_went_through(browser, command),
        Order::SwitchOff { marker, script } => {
            ||| spec_fell_through(browser, Command::Await(marker))
            ||| {
                &&& spec_went_through(browser, Command::Await(marker))
                &&& spec_went_through(browser, Command::Evaluate(script))
                &&& spec_went_through(browser, Command::Click(marker))
            }
        },
    }
}

/// `order` failed with the words `said`: the command did, or, of a switch
/// whose element showed up, the script or else the click did.
pub open spec fn spec_broke<D: Fn(&Command) -> Result<(), String>>(
    browser: D,
    order: Order,
    said: String,
) -> bool {
    match order {
        Order::Tell(command) => spec_broke_on(browser, command, said),
        Order::SwitchOff { marker, script } => {
            &&& spec_went_through(browser, Command::Await(marker))
            &&& {
                ||| spec_broke_on(browser, Command::Evaluate(script), said)
                ||| {
                    &&& spec_went_through(browser, Command::Evaluate(script))
                    &&& spec_broke_on(browser, Command::Click(marker), said)
                }
            }
        },
    }
}

/// `done` is how carrying out `orders` in order ended: `Ok` if every order
/// was carried out, and else the words of the first that failed, with all
/// before it carried out.
pub open spec fn spec_carried_out<D: Fn(&Command) -> Result<(), String>>(
    browser: D,
    orders: Seq<Order>,
    done: Result<(), String>,
) -> bool {
    match done {
        Ok(_) => forall|i: int| 0 <= i < orders.len() ==> spec_done(browser, #[trigger] orders[i]),
        Err(said) => exists|k: int|
            {
                &&& 0 <= k < orders.len()
                &&& #[trigger] spec_broke(browser, orders[k], said)
                &&& forall|i: int| 0 <= i < k ==> spec_done(browser, #[trigger] orders[i])
            },
    }
}

/// Carries out one order.
pub fn carry_out<D>(order: &Order, browser: &D) -> (done: Result<(), String>) where
    D: Fn(&Command) -> Result<(), String>,

    requires
        forall|c: &Command| call_requires(*browser, (c,)),
    ensures
        done is Ok ==> spec_done(*browser, *order),
        done matches Err(said) ==> spec_broke(*browser, *order, said),
{
    match order {
        Order::Tell(command) => browser(command),
        Order::SwitchOff { marker, script } => {
            let wait_for = Command::Await(marker.clone());
            if browser(&wait_for).is_err() {
                return Ok(());
            }
            let run = Command::Evaluate(script.clone());
            if let Err(said) = browser(&run) {
                return Err(said);
            }
            let click = Command::Click(marker.clone());
            browser(&click)
        },
    }
}

/// Carries out `orders` in order and stops at the first that fails.
pub fn perform<D>(orders: &Vec<Order>, browser: &D) -> (done: Result<(), String>) where
    D: Fn(&Command) -> Result<(), String>,

    requires
        forall|c: &Command| call_requires(*browser, (c,)),
    ensures
        spec_carried_out(*browser, orders@, done),
{
    let mut i: usize = 0;
    while i < orders.len()
        invariant
            forall|c: &Command| call_requires(*browser, (c,)),
            i <= orders@.len(),
            forall|j: int| 0 <= j < i ==> spec_done(*browser, #[trigger] orders@[j]),
        decreases orders@.len() - i,
    {
        if let Err(said) = carry_out(&orders[i], browser) {
            assert(spec_broke(*browser, orders@[i as int], said));
            return Err(said);
        }
        i = i + 1;
    }
    Ok(())
}

/// `done` is how the work of the phase that asks for `action` ended.
pub open spec fn spec_performed<D: Fn(&Command) -> Result<(), String>>(
    job: Submission,
    action: SessionAction,
    browser: D,
    done: Result<(), String>,
) -> bool {
    exists|list: Seq<Order>| #[trigger]
        spec_views(list) == job.spec_orders(action) && spec_carried_out(browser, list, done)
}

/// Does the work of the phase that asks for `action`.
pub fn interact<D>(job: &Submission, action: SessionAction, browser: &D) -> (done: Result<
    (),
    String,
>) where D: Fn(&Command) -> Result<(), String>
    requires
        forall|c: &Command| call_requires(*browser, (c,)),
    ensures
        spec_performed(*job, action, *browser, done),
{
    let list = job.orders(action);
    let done = perform(&list, browser);
    proof {
        assert(spec_views(list@) == job.spec_orders(action));
    }
    done
}

/// The marker whose elements the wait of a phase counts.
pub open spec fn spec_error_marker_of(action: SessionAction) -> &'static str {
    match action {
        SessionAction::WatchResult => SUBMIT_ERROR_MARKER,
        _ => LOGIN_ERROR_MARKER,
    }
}

pub fn error_marker_of(action: SessionAction) -> (marker: &'static str)
    ensures
        marker == spec_error_marker_of(action),
{
    match action {
        SessionAction::WatchResult => SUBMIT_ERROR_MARKER,
        _ => LOGIN_ERROR_MARKER,
    }
}

/// One look at the page gave the verdict `out`: the browser stood at some
/// address and showed some number of error elements, and `out` is what the
/// wait for `action` makes of the two.
pub open spec fn spec_looked<U: Fn() -> String, M: Fn(&str) -> usize>(
    job: Submission,
    action: SessionAction,
    location: U,
    count: M,
    out: PollOutcome<bool>,
) -> bool {
    exists|at: String| #[trigger]
        call_ensures(location, (), at) && exists|errors: usize| #[trigger]
            call_ensures(count, (spec_error_marker_of(action),), errors) && job.spec_verdict(
                action,
                at@,
                errors,
            ) == out
}

/// Looks at the page once: asks where the browser stands and how many error
/// elements it shows, and gives the verdict on the two.
pub fn look<U, M>(job: &Submission, action: SessionAction, location: &U, count: &M) -> (out:
    PollOutcome<bool>) where U: Fn() -> String, M: Fn(&str) -> usize
    requires
        call_requires(*location, ()),
        forall|marker: &str| call_requires(*count, (marker,)),
    ensures
        spec_looked(*job, action, *location, *count, out),
{
    let at = location();
    let errors = count(error_marker_of(action));
    let out = job.verdict(action, &at, errors);
    proof {
        assert(call_ensures(*location, (), at));
        assert(call_ensures(*count, (spec_error_marker_of(action),), errors));
    }
    out
}

/// The policy of a session's waits: a look never fails, so nothing is
/// tolerated.
pub open spec fn spec_watch_policy(interval: u64, deadline: Deadline) -> RetryPolicy {
    RetryPolicy { interval, deadline, abort_on_first_failure: true }
}

/// `seen` is how watching for the outcome of `action` ended: there is a
/// trace of looks at the page, each with the verdict that the look gave, and
/// clock readings, each one that the clock gave, of which a wait under the
/// session's policy gives the account and ends with `seen`.
pub open spec fn spec_watched<U: Fn() -> String, M: Fn(&str) -> usize, C: Fn() -> u64>(
    job: Submission,
    action: SessionAction,
    interval: u64,
    deadline: Deadline,
    location: U,
    count: M,
    clock: C,
    seen: Result<bool, ErrorKind>,
) -> bool {
    exists|trace: Seq<Tick<bool>>, readings: Seq<u64>, report: RunReport<bool>| #[trigger]
        spec_accounts(spec_watch_policy(interval, deadline), trace, readings, report) && {
            &&& report.result == seen
            &&& forall|i: int|
                0 <= i < trace.len() ==> spec_looked(
                    job,
                    action,
                    location,
                    count,
                    (#[trigger] trace[i]).outcome,
                )
            &&& forall|i: int|
                0 <= i < readings.len() ==> call_ensures(clock, (), #[trigger] readings[i])
        }
}

/// A wait that ended with a verdict saw it in a look at the page; one that
/// ended without saw a look that gave none, and ended with `TimedOut`, when
/// the budget was spent.
pub proof fn lemma_watched_ends_on_look<U: Fn() -> String, M: Fn(&str) -> usize, C: Fn() -> u64>(
    job: Submission,
    action: SessionAction,
    interval: u64,
    deadline: Deadline,
    location: U,
    count: M,
    clock: C,
    seen: Result<bool, ErrorKind>,
)
    requires
        spec_watched(job, action, interval, deadline, location, count, clock, seen),
    ensures
        seen matches Ok(accepted) ==> spec_looked(
            job,
            action,
            location,
            count,
            PollOutcome::Ready(accepted),
        ),
        seen matches Err(e) ==> e == ErrorKind::TimedOut && spec_looked(
            job,
            action,
            location,
            count,
            PollOutcome::NotYetReady,
        ),
        (forall|out: PollOutcome<bool>| #[trigger]
            spec_looked(job, action, location, count, out) ==> out is Ready) ==> seen is Ok,
{
    let (trace, readings, report) = choose|
        trace: Seq<Tick<bool>>,
        readings: Seq<u64>,
        report: RunReport<bool>,
    | #[trigger]
        spec_accounts(spec_watch_policy(interval, deadline), trace, readings, report) && {
            &&& report.result == seen
            &&& forall|i: int|
                0 <= i < trace.len() ==> spec_looked(
                    job,
                    action,
                    location,
                    count,
                    (#[trigger] trace[i]).outcome,
                )
            &&& forall|i: int|
                0 <= i < readings.len() ==> call_ensures(clock, (), #[trigger] readings[i])
        };
    lemma_result_of_run(spec_watch_policy(interval, deadline), trace, seen);
    let last = trace[trace.len() - 1];
    assert(spec_looked(job, action, location, count, last.outcome));
    assert(!(last.outcome is Failed)) by {
        let at = choose|at: String| #[trigger]
            call_ensures(location, (), at) && exists|errors: usize| #[trigger]
                call_ensures(count, (spec_error_marker_of(action),), errors) && job.spec_verdict(
                    action,
                    at@,
                    errors,
                ) == last.outcome;
    }
}

/// Watches the page until the step that `action` waits for is accepted or
/// refused, looking every `interval` milliseconds until the deadline's
/// budget is spent.
pub fn watch<U, M, C, S>(
    job: &Submission,
    action: SessionAction,
    interval: u64,
    deadline: Deadline,
    location: &U,
    count: &M,
    clock: &C,
    sleep: &S,
) -> (seen: Result<bool, ErrorKind>) where
    U: Fn() -> String,
    M: Fn(&str) -> usize,
    C: Fn() -> u64,
    S: Fn(u64),

    requires
        call_requires(*location, ()),
        forall|marker: &str| call_requires(*count, (marker,)),
        call_requires(*clock, ()),
        forall|d: u64| call_requires(*sleep, (d,)),
    ensures
        spec_watched(*job, action, interval, deadline, *location, *count, *clock, seen),
{
    let policy = RetryPolicy::new(interval, deadline, true);
    let probe = || -> (out: PollOutcome<bool>)
        ensures
            spec_looked(*job, action, *location, *count, out),
        { look(job, action, location, count) };
    let report = run_reporting(probe, &policy, clock, sleep);
    proof {
        let (trace, readings) = choose|trace: Seq<Tick<bool>>, readings: Seq<u64>| #[trigger]
            spec_explains(policy, probe, clock, trace, readings, report);
        assert forall|i: int| 0 <= i < trace.len() implies spec_looked(
            *job,
            action,
            *location,
            *count,
            (#[trigger] trace[i]).outcome,
        ) by {
            assert(call_ensures(probe, (), trace[i].outcome));
        }
        assert(spec_accounts(spec_watch_policy(interval, deadline), trace, readings, report));
    }
    report.result
}

/// `event` is what the work of `phase` came to: how carrying out its orders
/// ended, or how watching for its outcome ended.
pub open spec fn spec_worked<D: Fn(&Command) -> Result<(), String>, U: Fn() -> String, M: Fn(&str) -> usize, C: Fn() -> u64>(
    job: Submission,
    interval: u64,
    deadline: Deadline,
    browser: D,
    location: U,
    count: M,
    clock: C,
    phase: SessionPhase,
    event: SessionEvent,
) -> bool {
    &&& !phase.spec_is_terminal()
    &&& match phase.spec_action() {
        SessionAction::WatchLogin | SessionAction::WatchResult => {
            &&& event matches SessionEvent::Observed(seen)
            &&& spec_watched(
                job,
                phase.spec_action(),
                interval,
                deadline,
                location,
                count,
                clock,
                seen,
            )
        },
        _ => {
            &&& event matches SessionEvent::Interacted(done)
            &&& spec_performed(job, phase.spec_action(), browser, done)
        },
    }
}

/// `events` is what one session for `job` went through, each event what the
/// work of the phase reached before it came to, and `result` is what the
/// session came to on them. Both waits went by `deadline`.
pub open spec fn spec_submitted<D: Fn(&Command) -> Result<(), String>, U: Fn() -> String, M: Fn(&str) -> usize, C: Fn() -> u64>(
    job: Submission,
    interval: u64,
    deadline: Deadline,
    browser: D,
    location: U,
    count: M,
    clock: C,
    events: Seq<SessionEvent>,
    result: Result<(), Failure>,
) -> bool {
    &&& forall|i: int|
        0 <= i < events.len() ==> spec_worked(
            job,
            interval,
            deadline,
            browser,
            location,
            count,
            clock,
            spec_replay(SessionPhase::NotStarted, #[trigger] events.take(i)),
            events[i],
        )
    &&& spec_replay(SessionPhase::NotStarted, events).spec_outcome() == Some(result)
    &&& events.len() <= 5
}

/// Logs in and submits one solution.
///
/// The session goes through its phases once, in order: it does the work of
/// each phase that has any, watches where a phase waits, and stops at the
/// first step that fails. Both waits look every `interval` milliseconds and
/// share one budget of `timeout` milliseconds, counted from a reading of the
/// clock taken first of all. Nothing is tried twice: after a time-out the
/// submission may still have gone through.
pub fn submit<D, U, M, C, S>(
    job: &Submission,
    interval: u64,
    timeout: u64,
    browser: &D,
    location: &U,
    count: &M,
    clock: &C,
    sleep: &S,
) -> (result: Result<(), Failure>) where
    D: Fn(&Command) -> Result<(), String>,
    U: Fn() -> String,
    M: Fn(&str) -> usize,
    C: Fn() -> u64,
    S: Fn(u64),

    requires
        forall|c: &Command| call_requires(*browser, (c,)),
        call_requires(*location, ()),
        forall|marker: &str| call_requires(*count, (marker,)),
        call_requires(*clock, ()),
        forall|d: u64| call_requires(*sleep, (d,)),
    ensures
        exists|events: Seq<SessionEvent>, start: u64| #[trigger]
            spec_submitted(
                *job,
                interval,
                Deadline { start, budget: timeout },
                *browser,
                *location,
                *count,
                *clock,
                events,
                result,
            ) && call_ensures(*clock, (), start),
{
    let start: u64 = clock();
    let deadline = Deadline::new(start, timeout);
    let work = |action: SessionAction| -> (done: Result<(), String>)
        ensures
            spec_performed(*job, action, *browser, done),
        { interact(job, action, browser) };
    let wait = |action: SessionAction| -> (seen: Result<bool, ErrorKind>)
        ensures
            spec_watched(*job, action, interval, deadline, *location, *count, *clock, seen),
        { watch(job, action, interval, deadline, location, count, clock, sleep) };
    let result = drive(work, wait);
    proof {
        let events = choose|events: Seq<SessionEvent>| #[trigger]
            spec_drives(work, wait, events, result);
        assert forall|i: int| 0 <= i < events.len() implies spec_worked(
            *job,
            interval,
            deadline,
            *browser,
            *location,
            *count,
            *clock,
            spec_replay(SessionPhase::NotStarted, #[trigger] events.take(i)),
            events[i],
        ) by {
            assert(spec_answers(
                work,
                wait,
                spec_replay(SessionPhase::NotStarted, events.take(i)),
                events[i],
            ));
        }
        assert(spec_submitted(
            *job,
            interval,
            Deadline { start, budget: timeout },
            *browser,
            *location,
            *count,
            *clock,
            events,
            result,
        ));
    }
    result
}

/// A submission is reported as gone through only if the wait for the result
/// saw the browser stand at the list of own submissions: a session that
/// came to `Ok` holds a look at the page, made while awaiting the result,
/// whose address was that list's.
pub proof fn lemma_submitted_saw_landing<D: Fn(&Command) -> Result<(), String>, U: Fn() -> String, M: Fn(&str) -> usize, C: Fn() -> u64>(
    job: Submission,
    interval: u64,
    deadline: Deadline,
    browser: D,
    location: U,
    count: M,
    clock: C,
    events: Seq<SessionEvent>,
    result: Result<(), Failure>,
)
    requires
        spec_submitted(job, interval, deadline, browser, location, count, clock, events, result),
        result is Ok,
    ensures
        exists|at: String| #[trigger]
            call_ensures(location, (), at) && at@ == spec_my_submissions_url(
                job.mirror,
                job.contest_id,
            ),
{
    let n = lemma_succeeded_saw_marker(events);
    let at_phase = spec_replay(SessionPhase::NotStarted, events.take(n));
    assert(spec_worked(
        job,
        interval,
        deadline,
        browser,
        location,
        count,
        clock,
        at_phase,
        events[n],
    ));
    lemma_watched_ends_on_look(
        job,
        SessionAction::WatchResult,
        interval,
        deadline,
        location,
        count,
        clock,
        Ok(true),
    );
    let at = choose|at: String| #[trigger]
        call_ensures(location, (), at) && exists|errors: usize| #[trigger]
            call_ensures(count, (spec_error_marker_of(SessionAction::WatchResult),), errors)
                && job.spec_verdict(SessionAction::WatchResult, at@, errors) == PollOutcome::Ready(
                true,
            );
    assert(call_ensures(location, (), at));
}

/// A session whose login form went out and whose login wait then ran out
/// comes to an error with the reason "timed out waiting for login": nothing
/// of the submission is told to the browser.
pub proof fn lemma_login_time_out<D: Fn(&Command) -> Result<(), String>, U: Fn() -> String, M: Fn(&str) -> usize, C: Fn() -> u64>(
    job: Submission,
    interval: u64,
    deadline: Deadline,
    browser: D,
    location: U,
    count: M,
    clock: C,
    events: Seq<SessionEvent>,
    result: Result<(), Failure>,
)
    requires
        spec_submitted(job, interval, deadline, browser, location, count, clock, events, result),
        events.len() >= 2,
        events[0] is Interacted && events[0]->Interacted_0 is Ok,
        events[1] == SessionEvent::Observed(Err(ErrorKind::TimedOut)),
    ensures
        events.len() == 2,
        result matches Err(failure) && failure.error == ErrorKind::TimedOut
            && failure.spec_reason() == "timed out waiting for login"@,
{
    let none = events.take(0);
    let one = events.take(1);
    let two = events.take(2);
    assert(one.drop_last() =~= none);
    assert(two.drop_last() =~= one);
    assert(one.last() == events[0]);
    assert(two.last() == events[1]);
    assert(spec_replay(SessionPhase::NotStarted, none) == SessionPhase::NotStarted);
    assert(spec_replay(SessionPhase::NotStarted, one) == SessionPhase::LoggingIn);
    assert(spec_replay(SessionPhase::NotStarted, two).spec_is_terminal());
    if events.len() > 2 {
        assert(spec_worked(
            job,
            interval,
            deadline,
            browser,
            location,
            count,
            clock,
            spec_replay(SessionPhase::NotStarted, events.take(2)),
            events[2],
        ));
    }
    assert(events.take(2) =~= events);
}

} // verus!
