//! The state machine of one submission session: log in, send the solution,
//! and wait for the judge to accept or refuse it.
//!
//! The machine decides; the caller acts. For each phase `action` names the
//! work to be done, and `after` gives the phase that follows once the caller
//! reports how that work ended.

use vstd::prelude::*;
use vstd::string::StringExecFns;
use crate::outcome::ErrorKind;

verus! {

/// Where a session stands. A session only ever moves forward through these
/// phases, and ends in `Succeeded` or `Failed`.
#[derive(Debug, PartialEq, Eq)]
pub enum SessionPhase {
    NotStarted,
    LoggingIn,
    LoggedIn,
    Submitting,
    AwaitingResult,
    Succeeded,
    Failed(Failure),
}

/// Why a session failed: the error, and the work during which it came.
#[derive(Debug, PartialEq, Eq)]
pub struct Failure {
    pub during: SessionAction,
    pub error: ErrorKind,
}

/// The work that a phase asks of the caller.
#[derive(Clone, Copy, Debug, PartialEq, Eq, Structural)]
pub enum SessionAction {
    /// Open the login surface and supply the credentials.
    SendCredentials,
    /// Watch the session until the login is accepted or refused.
    WatchLogin,
    /// Open the submission surface, select problem and language, fill in
    /// the source and trigger the submission.
    SendSubmission,
    /// Nothing is asked for: the submission is under way, and the session
    /// goes on to await its result at once.
    Proceed,
    /// Watch the session until the submission is accepted or refused.
    WatchResult,
    /// Nothing is left to do.
    Stop,
}

/// How a piece of work ended.
#[derive(Debug, PartialEq, Eq)]
pub enum SessionEvent {
    /// A scripted interaction went through, or the automation layer failed
    /// with the given message.
    Interacted(Result<(), String>),
    /// A wait ended: with the positive marker (`true`), with the negative
    /// one (`false`), or without a verdict.
    Observed(Result<bool, ErrorKind>),
}

impl Clone for SessionPhase {
    fn clone(&self) -> (copy: SessionPhase)
        ensures
            copy == *self,
    {
        match self {
            SessionPhase::NotStarted => SessionPhase::NotStarted,
            SessionPhase::LoggingIn => SessionPhase::LoggingIn,
            SessionPhase::LoggedIn => SessionPhase::LoggedIn,
            SessionPhase::Submitting => SessionPhase::Submitting,
            SessionPhase::AwaitingResult => SessionPhase::AwaitingResult,
            SessionPhase::Succeeded => SessionPhase::Succeeded,
            SessionPhase::Failed(failure) => SessionPhase::Failed(failure.clone()),
        }
    }
}

impl Clone for Failure {
    fn clone(&self) -> (copy: Failure)
        ensures
            copy == *self,
    {
        Failure { during: self.during, error: self.error.clone() }
    }
}

impl Failure {
    /// The words that give the reason of a failure. A wait that ran out is
    /// named by what it waited for; every other error speaks for itself.
    pub open spec fn spec_reason(self) -> Seq<char> {
        match self.error {
            ErrorKind::TimedOut => match self.during {
                SessionAction::WatchLogin => "timed out waiting for login"@,
                SessionAction::WatchResult => "timed out waiting for the submission result"@,
                _ => self.error.spec_message(),
            },
            _ => self.error.spec_message(),
        }
    }

    pub fn reason(&self) -> (words: String)
        ensures
            words@ == self.spec_reason(),
    {
        match self.error {
            ErrorKind::TimedOut => match self.during {
                SessionAction::WatchLogin => String::from_str("timed out waiting for login"),
                SessionAction::WatchResult => String::from_str(
                    "timed out waiting for the submission result",
                ),
                _ => self.error.message(),
            },
            _ => self.error.message(),
        }
    }
}

impl SessionPhase {
    /// How far a session has come; both ways of ending lie furthest.
    pub open spec fn spec_rank(self) -> nat {
        match self {
            SessionPhase::NotStarted => 0,
            SessionPhase::LoggingIn => 1,
            SessionPhase::LoggedIn => 2,
            SessionPhase::Submitting => 3,
            SessionPhase::AwaitingResult => 4,
            SessionPhase::Succeeded => 5,
            SessionPhase::Failed(_) => 5,
        }
    }

    pub open spec fn spec_is_terminal(self) -> bool {
        self is Succeeded || self is Failed
    }

    /// The work that this phase asks for.
    pub open spec fn spec_action(self) -> SessionAction {
        match self {
            SessionPhase::NotStarted => SessionAction::SendCredentials,
            SessionPhase::LoggingIn => SessionAction::WatchLogin,
            SessionPhase::LoggedIn => SessionAction::SendSubmission,
            SessionPhase::Submitting => SessionAction::Proceed,
            SessionPhase::AwaitingResult => SessionAction::WatchResult,
            SessionPhase::Succeeded => SessionAction::Stop,
            SessionPhase::Failed(_) => SessionAction::Stop,
        }
    }

    /// The phase that follows this one on `event`.
    ///
    /// A session that has ended stays as it is. In every other phase a failed
    /// interaction ends the session with `DriverFailure`, and a wait that
    /// ended without a verdict ends it with the wait's error; the failure
    /// names the work during which it came. An interaction that went through
    /// moves a phase that asked for one to the next phase: the credentials
    /// sent, `NotStarted` becomes `LoggingIn`; the submission triggered,
    /// `LoggedIn` becomes `Submitting`; and `Submitting`, which asks for
    /// nothing, becomes `AwaitingResult` at once. A verdict moves `LoggingIn`
    /// to `LoggedIn` or to `LoginRejected`, and `AwaitingResult` to
    /// `Succeeded` or to `SubmissionRejected`. An event that the phase did
    /// not ask for changes nothing.
    pub open spec fn spec_after(self, event: SessionEvent) -> SessionPhase {
        if self.spec_is_terminal() {
            self
        } else {
            match event {
                SessionEvent::Interacted(Err(message)) => SessionPhase::Failed(
                    Failure { during: self.spec_action(), error: ErrorKind::DriverFailure(message) },
                ),
                SessionEvent::Observed(Err(error)) => SessionPhase::Failed(
                    Failure { during: self.spec_action(), error },
                ),
                SessionEvent::Interacted(Ok(_)) => match self {
                    SessionPhase::NotStarted => SessionPhase::LoggingIn,
                    SessionPhase::LoggedIn => SessionPhase::Submitting,
                    SessionPhase::Submitting => SessionPhase::AwaitingResult,
                    _ => self,
                },
                SessionEvent::Observed(Ok(accepted)) => match self {
                    SessionPhase::LoggingIn => if accepted {
                        SessionPhase::LoggedIn
                    } else {
                        SessionPhase::Failed(
                            Failure {
                                during: SessionAction::WatchLogin,
                                error: ErrorKind::LoginRejected,
                            },
                        )
                    },
                    SessionPhase::AwaitingResult => if accepted {
                        SessionPhase::Succeeded
                    } else {
                        SessionPhase::Failed(
                            Failure {
                                during: SessionAction::WatchResult,
                                error: ErrorKind::SubmissionRejected,
                            },
                        )
                    },
                    _ => self,
                },
            }
        }
    }

    /// What the session came to, once it has ended.
    pub open spec fn spec_outcome(self) -> Option<Result<(), Failure>> {
        match self {
            SessionPhase::Succeeded => Some(Ok(())),
            SessionPhase::Failed(failure) => Some(Err(failure)),
            _ => None,
        }
    }

    pub fn is_terminal(&self) -> (b: bool)
        ensures
            b == self.spec_is_terminal(),
    {
        match self {
            SessionPhase::Succeeded => true,
            SessionPhase::Failed(_) => true,
            _ => false,
        }
    }

    pub fn action(&self) -> (a: SessionAction)
        ensures
            a == self.spec_action(),
    {
        match self {
            SessionPhase::NotStarted => SessionAction::SendCredentials,
            SessionPhase::LoggingIn => SessionAction::WatchLogin,
            SessionPhase::LoggedIn => SessionAction::SendSubmission,
            SessionPhase::Submitting => SessionAction::Proceed,
            SessionPhase::AwaitingResult => SessionAction::WatchResult,
            SessionPhase::Succeeded => SessionAction::Stop,
            SessionPhase::Failed(_) => SessionAction::Stop,
        }
    }

    pub fn after(self, event: SessionEvent) -> (next: SessionPhase)
        ensures
            next == self.spec_after(event),
    {
        match self {
            SessionPhase::Succeeded => SessionPhase::Succeeded,
            SessionPhase::Failed(failure) => SessionPhase::Failed(failure),
            phase => match event {
                SessionEvent::Interacted(Err(message)) => SessionPhase::Failed(
                    Failure { during: phase.action(), error: ErrorKind::DriverFailure(message) },
                ),
                SessionEvent::Observed(Err(error)) => SessionPhase::Failed(
                    Failure { during: phase.action(), error },
                ),
                SessionEvent::Interacted(Ok(_)) => match phase {
                    SessionPhase::NotStarted => SessionPhase::LoggingIn,
                    SessionPhase::LoggedIn => SessionPhase::Submitting,
                    SessionPhase::Submitting => SessionPhase::AwaitingResult,
                    other => other,
                },
                SessionEvent::Observed(Ok(accepted)) => match phase {
                    SessionPhase::LoggingIn => if accepted {
                        SessionPhase::LoggedIn
                    } else {
                        SessionPhase::Failed(
                            Failure {
                                during: SessionAction::WatchLogin,
                                error: ErrorKind::LoginRejected,
                            },
                        )
                    },
                    SessionPhase::AwaitingResult => if accepted {
                        SessionPhase::Succeeded
                    } else {
                        SessionPhase::Failed(
                            Failure {
                                during: SessionAction::WatchResult,
                                error: ErrorKind::SubmissionRejected,
                            },
                        )
                    },
                    other => other,
                },
            },
        }
    }

    pub fn outcome(self) -> (o: Option<Result<(), Failure>>)
        ensures
            o == self.spec_outcome(),
            o is Some <==> self.spec_is_terminal(),
    {
        match self {
            SessionPhase::Succeeded => Some(Ok(())),
            SessionPhase::Failed(failure) => Some(Err(failure)),
            _ => None,
        }
    }
}

/// The phase that a session reaches from `start` on a sequence of events.
pub open spec fn spec_replay(start: SessionPhase, events: Seq<SessionEvent>) -> SessionPhase
    decreases events.len(),
{
    if events.len() == 0 {
        start
    } else {
        spec_replay(start, events.drop_last()).spec_after(events.last())
    }
}

/// A session never moves backward and never enters a phase twice: an event
/// either leaves the phase as it is or moves it to one of higher rank, and a
/// session that has ended stays as it is.
pub proof fn lemma_forward_only(phase: SessionPhase, event: SessionEvent)
    ensures
        phase.spec_after(event) == phase || phase.spec_after(event).spec_rank() > phase.spec_rank(),
        phase.spec_is_terminal() ==> phase.spec_after(event) == phase,
{
}

/// The event that the phase asks for always moves the session on: a phase
/// that has not ended is left behind by the result of its own action.
pub proof fn lemma_answer_moves_on(phase: SessionPhase, event: SessionEvent)
    requires
        !phase.spec_is_terminal(),
        match phase.spec_action() {
            SessionAction::WatchLogin | SessionAction::WatchResult => event is Observed,
            _ => event is Interacted,
        },
    ensures
        phase.spec_after(event).spec_rank() > phase.spec_rank(),
{
}

/// A session becomes `Succeeded` in one way only: in `AwaitingResult`, on a
/// wait that ended with the positive marker.
pub proof fn lemma_success_needs_marker(phase: SessionPhase, event: SessionEvent)
    requires
        phase.spec_after(event) is Succeeded,
        !(phase is Succeeded),
    ensures
        phase is AwaitingResult,
        event == SessionEvent::Observed(Ok(true)),
{
}

/// A wait that ends without a verdict ends the session with the wait's
/// error, never with `Succeeded`. A login wait that runs out gives the reason
/// "timed out waiting for login"; a wait for the result that runs out gives
/// "timed out waiting for the submission result".
pub proof fn lemma_lost_wait_fails(phase: SessionPhase, error: ErrorKind)
    requires
        !phase.spec_is_terminal(),
    ensures
        phase.spec_after(SessionEvent::Observed(Err(error))) == SessionPhase::Failed(
            Failure { during: phase.spec_action(), error },
        ),
        SessionPhase::LoggingIn.spec_after(SessionEvent::Observed(Err(ErrorKind::TimedOut)))
            matches SessionPhase::Failed(failure) && failure.spec_reason()
            == "timed out waiting for login"@,
        SessionPhase::AwaitingResult.spec_after(SessionEvent::Observed(Err(ErrorKind::TimedOut)))
            matches SessionPhase::Failed(failure) && failure.spec_reason()
            == "timed out waiting for the submission result"@,
{
}

/// Along any sequence of events the rank of the phase never falls.
pub proof fn lemma_replay_rank_monotone(start: SessionPhase, events: Seq<SessionEvent>, n: int)
    requires
        0 <= n <= events.len(),
    ensures
        spec_replay(start, events.take(n)).spec_rank() <= spec_replay(start, events).spec_rank(),
    decreases events.len(),
{
    if n < events.len() {
        let front = events.drop_last();
        assert(front.take(n) =~= events.take(n));
        lemma_replay_rank_monotone(start, front, n);
        lemma_forward_only(spec_replay(start, front), events.last());
    } else {
        assert(events.take(n) =~= events);
    }
}

/// A session that started at the beginning and ended in `Succeeded` has, at
/// some point, stood in `AwaitingResult` and there seen a wait end with the
/// positive marker. The proof returns that point.
pub proof fn lemma_succeeded_saw_marker(events: Seq<SessionEvent>) -> (n: int)
    requires
        spec_replay(SessionPhase::NotStarted, events) is Succeeded,
    ensures
        0 <= n < events.len(),
        spec_replay(SessionPhase::NotStarted, events.take(n)) is AwaitingResult,
        events[n] == SessionEvent::Observed(Ok(true)),
    decreases events.len(),
{
    let front = events.drop_last();
    let before = spec_replay(SessionPhase::NotStarted, front);
    if before is Succeeded {
        let n = lemma_succeeded_saw_marker(front);
        assert(front.take(n) =~= events.take(n));
        n
    } else {
        lemma_success_needs_marker(before, events.last());
        assert(events.take(events.len() - 1) =~= front);
        events.len() - 1
    }
}

/// `event` is the caller's answer to what `phase` asks for: the result that
/// `observe` gave for a phase that watches, the result that `interact` gave
/// for any other phase that has not ended.
pub open spec fn spec_answers<I: Fn(SessionAction) -> Result<(), String>, O: Fn(SessionAction) -> Result<bool, ErrorKind>>(
    interact: I,
    observe: O,
    phase: SessionPhase,
    event: SessionEvent,
) -> bool {
    &&& !phase.spec_is_terminal()
    &&& match phase.spec_action() {
        SessionAction::WatchLogin | SessionAction::WatchResult => {
            &&& event matches SessionEvent::Observed(seen)
            &&& call_ensures(observe, (phase.spec_action(),), seen)
        },
        _ => {
            &&& event matches SessionEvent::Interacted(done)
            &&& call_ensures(interact, (phase.spec_action(),), done)
        },
    }
}

/// `events` is what a session driven from the beginning got from `interact`
/// and `observe`, each event the answer to the phase reached before it, and
/// `result` is what the session came to on them.
pub open spec fn spec_drives<I: Fn(SessionAction) -> Result<(), String>, O: Fn(SessionAction) -> Result<bool, ErrorKind>>(
    interact: I,
    observe: O,
    events: Seq<SessionEvent>,
    result: Result<(), Failure>,
) -> bool {
    &&& forall|i: int|
        0 <= i < events.len() ==> spec_answers(
            interact,
            observe,
            spec_replay(SessionPhase::NotStarted, #[trigger] events.take(i)),
            events[i],
        )
    &&& spec_replay(SessionPhase::NotStarted, events).spec_outcome() == Some(result)
    &&& events.len() <= 5
}

/// Drives one session from the beginning to its end and returns what it came
/// to. Each phase's action is handed to `interact` or to `observe` exactly
/// once, in order, and nothing is ever tried again.
pub fn drive<I, O>(interact: I, observe: O) -> (result: Result<(), Failure>) where
    I: Fn(SessionAction) -> Result<(), String>,
    O: Fn(SessionAction) -> Result<bool, ErrorKind>,

    requires
        forall|a: SessionAction| call_requires(interact, (a,)),
        forall|a: SessionAction| call_requires(observe, (a,)),
    ensures
        exists|events: Seq<SessionEvent>| #[trigger] spec_drives(interact, observe, events, result),
{
    let mut phase = SessionPhase::NotStarted;
    let ghost mut events: Seq<SessionEvent> = Seq::empty();
    while !phase.is_terminal()
        invariant
            forall|a: SessionAction| call_requires(interact, (a,)),
            forall|a: SessionAction| call_requires(observe, (a,)),
            phase == spec_replay(SessionPhase::NotStarted, events),
            forall|i: int|
                0 <= i < events.len() ==> spec_answers(
                    interact,
                    observe,
                    spec_replay(SessionPhase::NotStarted, #[trigger] events.take(i)),
                    events[i],
                ),
            events.len() <= phase.spec_rank(),
        decreases 5 - phase.spec_rank(),
    {
        let action = phase.action();
        let event = match action {
            SessionAction::WatchLogin | SessionAction::WatchResult => SessionEvent::Observed(
                observe(action),
            ),
            _ => SessionEvent::Interacted(interact(action)),
        };
        proof {
            let before = events;
            events = events.push(event);
            assert(events.drop_last() =~= before);
            lemma_answer_moves_on(phase, event);
            assert forall|i: int| 0 <= i < events.len() implies spec_answers(
                interact,
                observe,
                spec_replay(SessionPhase::NotStarted, #[trigger] events.take(i)),
                events[i],
            ) by {
                if i < before.len() {
                    assert(events.take(i) =~= before.take(i));
                } else {
                    assert(events.take(i) =~= before);
                }
            }
        }
        phase = phase.after(event);
    }
    let outcome = phase.outcome();
    proof {
        assert(spec_drives(interact, observe, events, outcome->Some_0));
    }
    outcome.unwrap()
}

/// A driven session that came to `Ok` has watched for the result and seen
/// the wait end with the positive marker: `observe` gave `Ok(true)` for
/// `WatchResult`.
pub proof fn lemma_driven_success_saw_marker<I: Fn(SessionAction) -> Result<(), String>, O: Fn(SessionAction) -> Result<bool, ErrorKind>>(
    interact: I,
    observe: O,
    events: Seq<SessionEvent>,
)
    requires
        spec_drives(interact, observe, events, Ok(())),
    ensures
        call_ensures(observe, (SessionAction::WatchResult,), Ok(true)),
{
    let n = lemma_succeeded_saw_marker(events);
    let at = spec_replay(SessionPhase::NotStarted, events.take(n));
    assert(spec_answers(interact, observe, at, events[n]));
}

} // verus!
