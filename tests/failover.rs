use duck_transcriber::failover::{Attempt, FailoverAction, FailoverRun};
use duck_transcriber::types::TranscriptionError;

fn rate_limited() -> Attempt {
    Attempt::Failed(TranscriptionError::RateLimitReached)
}

#[test]
fn failover_takes_second_key_after_rate_limit() {
    let (mut run, first) = FailoverRun::begin(3);
    assert!(matches!(first, FailoverAction::CallKey(0)));
    let next = run.record(rate_limited());
    assert!(matches!(next, FailoverAction::CallKey(1)));
    let done = run.record(Attempt::Success);
    assert!(matches!(done, FailoverAction::Succeeded(1)));
}

#[test]
fn failover_stops_on_auth_error() {
    let (mut run, first) = FailoverRun::begin(3);
    assert!(matches!(first, FailoverAction::CallKey(0)));
    let done = run.record(Attempt::Failed(TranscriptionError::ApiError("Groq error: invalid_api_key".to_string())));
    match done {
        FailoverAction::Failed(TranscriptionError::ApiError(d)) => assert_eq!(d, "Groq error: invalid_api_key"),
        other => panic!("unexpected {:?}", other),
    }
}

#[test]
fn failover_reports_rate_limit_when_all_keys_are_limited() {
    let (mut run, _) = FailoverRun::begin(2);
    assert!(matches!(run.record(rate_limited()), FailoverAction::CallKey(1)));
    assert!(matches!(run.record(rate_limited()), FailoverAction::Failed(TranscriptionError::RateLimitReached)));
}

#[test]
fn failover_with_empty_pool_fails_at_once() {
    let (_, first) = FailoverRun::begin(0);
    match first {
        FailoverAction::Failed(TranscriptionError::ApiError(d)) => assert_eq!(d, "All API keys failed"),
        other => panic!("unexpected {:?}", other),
    }
}

#[test]
fn failover_network_error_stops() {
    let (mut run, _) = FailoverRun::begin(3);
    assert!(matches!(run.record(rate_limited()), FailoverAction::CallKey(1)));
    let done = run.record(Attempt::Failed(TranscriptionError::NetworkError("timeout".to_string())));
    assert!(matches!(done, FailoverAction::Failed(TranscriptionError::NetworkError(_))));
}
