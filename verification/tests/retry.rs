//! Tests of the coordinator client's retry policy.

use transporter::retry::{
    classify_status, run_with_responses, RetryDecision, RetryState, SendOutcome, StatusClass,
    DEFAULT_MAX_ATTEMPTS, RETRY_INTERVAL_SECONDS,
};

#[test]
fn status_classification() {
    assert_eq!(classify_status(200), StatusClass::Success);
    assert_eq!(classify_status(502), StatusClass::Transient);
    assert_eq!(classify_status(504), StatusClass::Transient);
    assert_eq!(classify_status(404), StatusClass::Rejected);
    assert_eq!(classify_status(500), StatusClass::Rejected);
    assert_eq!(classify_status(503), StatusClass::Rejected);
    assert_eq!(classify_status(201), StatusClass::Rejected);
}

#[test]
fn delivered_after_transient_prefix() {
    // 502 on the first three attempts, 200 on the fourth: delivered, and
    // the caller sees no failure.
    let responses = vec![502, 502, 502, 200, 0, 0, 0, 0, 0, 0, 0, 0];
    let outcome = run_with_responses(&responses, DEFAULT_MAX_ATTEMPTS);
    assert_eq!(outcome, SendOutcome::Delivered { attempts: 4 });
}

#[test]
fn gives_up_after_exactly_max_attempts() {
    // Always 502: the sender fails after exactly the configured maximum
    // and never attempts once more.
    let responses = vec![502; 20];
    let outcome = run_with_responses(&responses, DEFAULT_MAX_ATTEMPTS);
    assert_eq!(outcome, SendOutcome::GaveUp { attempts: DEFAULT_MAX_ATTEMPTS });
}

#[test]
fn rejection_is_immediate() {
    let responses = vec![502, 403, 200, 0, 0, 0, 0, 0, 0, 0, 0, 0];
    let outcome = run_with_responses(&responses, DEFAULT_MAX_ATTEMPTS);
    assert_eq!(outcome, SendOutcome::Rejected { attempts: 2, status: 403 });
}

#[test]
fn success_on_first_attempt() {
    let responses = vec![200, 0];
    let outcome = run_with_responses(&responses, 2);
    assert_eq!(outcome, SendOutcome::Delivered { attempts: 1 });
}

#[test]
fn state_machine_decisions() {
    let mut state = RetryState::new(3);
    assert_eq!(state.on_response(502), RetryDecision::SleepAndRetry);
    assert_eq!(state.on_response(504), RetryDecision::SleepAndRetry);
    assert_eq!(state.on_response(502), RetryDecision::GiveUp);

    let mut state = RetryState::new(3);
    assert_eq!(state.on_response(200), RetryDecision::Accept);

    let mut state = RetryState::new(3);
    assert_eq!(state.on_response(410), RetryDecision::RejectNow);
}

#[test]
fn chosen_policy_pair() {
    // The documented concrete policy: a 5 second interval, 12 attempts.
    assert_eq!(RETRY_INTERVAL_SECONDS, 5);
    assert_eq!(DEFAULT_MAX_ATTEMPTS, 12);
}
