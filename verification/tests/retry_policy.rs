use lets_start::dispatch::DispatchAction;
use lets_start::dispatch::RetryState;
use lets_start::dispatch::dispatch_with_outcomes;
use lets_start::dispatch::dispatch_outcome;
use lets_start::errors::ApiErrorOutcome;

#[test]
fn test_exhaustion_makes_retry_count_plus_one_attempts() {
    for retry_count in 1..=10u64 {
        let outcomes = vec![false; 11];
        let result = dispatch_with_outcomes(&outcomes, retry_count, 10);
        assert!(!result.delivered);
        assert_eq!(result.attempts, retry_count + 1);
    }
}

#[test]
fn test_first_success_stops_the_dispatch() {
    // success on attempt k + 1: exactly k + 1 attempts, none after it
    for k in 0..=3usize {
        let mut outcomes = vec![false; 4];
        outcomes[k] = true;
        let result = dispatch_with_outcomes(&outcomes, 3, 10);
        assert!(result.delivered);
        assert_eq!(result.attempts as usize, k + 1);
    }
}

#[test]
fn test_success_on_last_allowed_attempt() {
    let outcomes = vec![false, false, false, true];
    let result = dispatch_with_outcomes(&outcomes, 3, 10);
    assert!(result.delivered);
    assert_eq!(result.attempts, 4);
}

#[test]
fn test_record_attempt_actions() {
    let mut state = RetryState::new(2, 50);
    assert_eq!(state.attempt, 0);
    assert_eq!(state.max_attempts, 3);
    // failure with budget left: wait the fixed delay, then retry
    assert!(matches!(state.record_attempt(false), DispatchAction::RetryAfterDelay(50)));
    assert!(matches!(state.record_attempt(false), DispatchAction::RetryAfterDelay(50)));
    // the last allowed attempt fails: give up
    assert!(matches!(state.record_attempt(false), DispatchAction::GiveUp));

    let mut state = RetryState::new(2, 50);
    assert!(matches!(state.record_attempt(true), DispatchAction::Done));
}

#[test]
fn test_dispatch_outcome_maps_to_delivery_failed() {
    let outcomes = vec![false, false];
    let result = dispatch_with_outcomes(&outcomes, 1, 10);
    assert!(matches!(
        dispatch_outcome(&result),
        Err(ApiErrorOutcome::DeliveryFailed)
    ));

    let outcomes = vec![true, true];
    let result = dispatch_with_outcomes(&outcomes, 1, 10);
    assert!(matches!(dispatch_outcome(&result), Ok(())));
}
