use caffeine_cf::outcome::ErrorKind;

#[test]
fn every_error_has_its_words() {
    assert_eq!(ErrorKind::TimedOut.message(), "timed out waiting for the judge");
    assert!(ErrorKind::TimedOut.message().starts_with("timed out"));
    assert_eq!(ErrorKind::TransportFailure.message(), "could not reach the judge");
    assert_eq!(
        ErrorKind::LoginRejected.message(),
        "login unsuccessful, incorrect username or password"
    );
    assert_eq!(
        ErrorKind::SubmissionRejected.message(),
        "failed to submit problem, error on submissions page"
    );
}

#[test]
fn what_the_other_side_said_is_handed_on_verbatim() {
    assert_eq!(
        ErrorKind::RemoteRejected("contestId: Contest with id 9 not found".to_string()).message(),
        "contestId: Contest with id 9 not found"
    );
    assert_eq!(
        ErrorKind::DriverFailure("headless_chrome: The event waited for never came".to_string())
            .message(),
        "headless_chrome: The event waited for never came"
    );
}
