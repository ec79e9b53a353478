//! What one probe of the remote side can report, the errors an operation can
//! end with, and the classifier that turns a raw observation of the session
//! into a probe outcome.

use vstd::prelude::*;
use vstd::string::StringExecFns;

verus! {

/// How an operation can fail.
#[derive(Debug, PartialEq, Eq)]
pub enum ErrorKind {
    /// The network or the read interface could not be reached.
    TransportFailure,
    /// The remote side answered with an explicit error.
    RemoteRejected(String),
    /// The deadline passed with no definitive outcome.
    TimedOut,
    /// The automation layer itself malfunctioned.
    DriverFailure(String),
    /// The judge refused the credentials.
    LoginRejected,
    /// The judge refused the submission.
    SubmissionRejected,
}

impl Clone for ErrorKind {
    fn clone(&self) -> (copy: ErrorKind)
        ensures
            copy == *self,
    {
        match self {
            ErrorKind::TransportFailure => ErrorKind::TransportFailure,
            ErrorKind::RemoteRejected(said) => ErrorKind::RemoteRejected(said.clone()),
            ErrorKind::TimedOut => ErrorKind::TimedOut,
            ErrorKind::DriverFailure(said) => ErrorKind::DriverFailure(said.clone()),
            ErrorKind::LoginRejected => ErrorKind::LoginRejected,
            ErrorKind::SubmissionRejected => ErrorKind::SubmissionRejected,
        }
    }
}

impl ErrorKind {
    /// The words in which an error is put to the user. What the remote side
    /// or the automation layer said is handed on as it came.
    pub open spec fn spec_message(self) -> Seq<char> {
        match self {
            ErrorKind::TransportFailure => "could not reach the judge"@,
            ErrorKind::RemoteRejected(said) => said@,
            ErrorKind::TimedOut => "timed out waiting for the judge"@,
            ErrorKind::DriverFailure(said) => said@,
            ErrorKind::LoginRejected => "login unsuccessful, incorrect username or password"@,
            ErrorKind::SubmissionRejected => "failed to submit problem, error on submissions page"@,
        }
    }

    pub fn message(&self) -> (m: String)
        ensures
            m@ == self.spec_message(),
    {
        match self {
            ErrorKind::TransportFailure => String::from_str("could not reach the judge"),
            ErrorKind::RemoteRejected(said) => said.clone(),
            ErrorKind::TimedOut => String::from_str("timed out waiting for the judge"),
            ErrorKind::DriverFailure(said) => said.clone(),
            ErrorKind::LoginRejected => String::from_str(
                "login unsuccessful, incorrect username or password",
            ),
            ErrorKind::SubmissionRejected => String::from_str(
                "failed to submit problem, error on submissions page",
            ),
        }
    }
}

/// The result of one probe.
#[derive(Debug, PartialEq, Eq)]
pub enum PollOutcome<T> {
    Ready(T),
    NotYetReady,
    Failed(ErrorKind),
}

/// Which endpoint of the judge a session talks to: the main site or one of
/// its numbered mirrors.
#[derive(Clone, Copy, Debug, PartialEq, Eq, Structural)]
pub enum Mirror {
    Main,
    M1,
    M2,
    M3,
}

impl Mirror {
    /// The endpoint that an optional mirror number selects: 1, 2 and 3 name
    /// the mirrors, anything else the main site.
    pub open spec fn spec_from_number(n: Option<u8>) -> Mirror {
        match n {
            Some(1) => Mirror::M1,
            Some(2) => Mirror::M2,
            Some(3) => Mirror::M3,
            _ => Mirror::Main,
        }
    }

    pub fn from_number(n: Option<u8>) -> (m: Mirror)
        ensures
            m == Mirror::spec_from_number(n),
    {
        match n {
            Some(1) => Mirror::M1,
            Some(2) => Mirror::M2,
            Some(3) => Mirror::M3,
            _ => Mirror::Main,
        }
    }

    /// The main site always renders one error element invisibly; the mirrors
    /// render none.
    pub open spec fn spec_hidden_error_elements(self) -> nat {
        match self {
            Mirror::Main => 1,
            _ => 0,
        }
    }

    pub fn hidden_error_elements(self) -> (n: usize)
        ensures
            n == self.spec_hidden_error_elements(),
    {
        match self {
            Mirror::Main => 1,
            _ => 0,
        }
    }
}

/// What the session shows while the login is pending.
#[derive(Clone, Copy, Debug, PartialEq, Eq, Structural)]
pub struct LoginObservation {
    /// The session has been redirected to the authenticated home.
    pub at_home: bool,
    /// An error marker is present on the page.
    pub error_marker: bool,
}

/// What the session shows while the verdict on a submission is pending.
#[derive(Clone, Copy, Debug, PartialEq, Eq, Structural)]
pub struct SubmissionObservation {
    /// The session has moved on to the list of own submissions.
    pub at_my_submissions: bool,
    /// How many error elements the page holds.
    pub error_elements: usize,
}

/// The outcome of a login observation: accepted once the session is at the
/// authenticated home, refused once an error marker shows, open otherwise.
pub open spec fn spec_classify_login(obs: LoginObservation) -> PollOutcome<bool> {
    if obs.at_home {
        PollOutcome::Ready(true)
    } else if obs.error_marker {
        PollOutcome::Ready(false)
    } else {
        PollOutcome::NotYetReady
    }
}

pub fn classify_login(obs: LoginObservation) -> (out: PollOutcome<bool>)
    ensures
        out == spec_classify_login(obs),
{
    if obs.at_home {
        PollOutcome::Ready(true)
    } else if obs.error_marker {
        PollOutcome::Ready(false)
    } else {
        PollOutcome::NotYetReady
    }
}

/// The outcome of a submission observation on a given endpoint: accepted once
/// the session is at the list of own submissions, refused once the page holds
/// more error elements than the endpoint renders invisibly, open otherwise.
pub open spec fn spec_classify_submission(
    obs: SubmissionObservation,
    mirror: Mirror,
) -> PollOutcome<bool> {
    if obs.at_my_submissions {
        PollOutcome::Ready(true)
    } else if obs.error_elements > mirror.spec_hidden_error_elements() {
        PollOutcome::Ready(false)
    } else {
        PollOutcome::NotYetReady
    }
}

pub fn classify_submission(obs: SubmissionObservation, mirror: Mirror) -> (out: PollOutcome<bool>)
    ensures
        out == spec_classify_submission(obs, mirror),
{
    if obs.at_my_submissions {
        PollOutcome::Ready(true)
    } else if obs.error_elements > mirror.hidden_error_elements() {
        PollOutcome::Ready(false)
    } else {
        PollOutcome::NotYetReady
    }
}

/// One visible error element is a refusal on every mirror and no verdict on
/// the main site.
pub proof fn lemma_single_error_depends_on_mirror(obs: SubmissionObservation)
    requires
        !obs.at_my_submissions,
        obs.error_elements == 1,
    ensures
        spec_classify_submission(obs, Mirror::Main) == PollOutcome::<bool>::NotYetReady,
        spec_classify_submission(obs, Mirror::M1) == PollOutcome::Ready(false),
        spec_classify_submission(obs, Mirror::M2) == PollOutcome::Ready(false),
        spec_classify_submission(obs, Mirror::M3) == PollOutcome::Ready(false),
{
}

} // verus!
