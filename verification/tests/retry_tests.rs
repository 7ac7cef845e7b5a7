use newspoll::config::TaskArgs;
use newspoll::errors::ApiError;
use newspoll::operation::ScriptedOperation;
use newspoll::retry::{backoff_delay_ms, delay_after_failure, retry, RetryDecision};

fn policy(base: u32, max_delay: u32, max_retries: u32) -> TaskArgs {
    TaskArgs { base_delay_ms: base, max_delay_ms: max_delay, max_retries }
}

fn parse_err(msg: &str) -> ApiError {
    ApiError::JsonParseError { message: msg.to_string() }
}

#[test]
fn exhaustion_invokes_exactly_max_attempts_and_returns_final_error() {
    // An operation that always fails runs exactly max_retries times and the
    // error of the final attempt comes back unchanged.
    let p = policy(100, 800, 4);
    let mut op: ScriptedOperation<String, ApiError> = ScriptedOperation::new(vec![
        Err(parse_err("e1")),
        Err(parse_err("e2")),
        Err(parse_err("e3")),
        Err(parse_err("e4")),
    ]);
    let r = retry(&p, &mut op);
    assert_eq!(op.calls_made(), 4);
    match r {
        Err(ApiError::JsonParseError { message }) => assert_eq!(message, "e4"),
        other => panic!("expected the final parse error, got {:?}", other),
    }
}

#[test]
fn backoff_delays_follow_capped_doubling() {
    // With base 100 ms and cap 800 ms the schedule is 100, 200, 400, 800,
    // 800, ...
    let p = policy(100, 800, 8);
    assert_eq!(backoff_delay_ms(&p, 1), 100);
    assert_eq!(backoff_delay_ms(&p, 2), 200);
    assert_eq!(backoff_delay_ms(&p, 3), 400);
    assert_eq!(backoff_delay_ms(&p, 4), 800);
    assert_eq!(backoff_delay_ms(&p, 5), 800);
    assert_eq!(backoff_delay_ms(&p, 40), 800);
}

#[test]
fn success_after_failures_returns_value_and_counts_attempts() {
    // Failing k = 2 times below the bound and then succeeding returns the
    // success value after k + 1 invocations.
    let p = policy(100, 800, 5);
    let mut op = ScriptedOperation::new(vec![
        Err(parse_err("e1")),
        Err(parse_err("e2")),
        Ok("value".to_string()),
    ]);
    let r = retry(&p, &mut op);
    assert_eq!(r, Ok("value".to_string()));
    assert_eq!(op.calls_made(), 3);
}

#[test]
fn immediate_success_runs_once() {
    let p = policy(100, 800, 5);
    let mut op: ScriptedOperation<u32, ApiError> = ScriptedOperation::new(vec![Ok(7)]);
    let r = retry(&p, &mut op);
    assert_eq!(r, Ok(7));
    assert_eq!(op.calls_made(), 1);
}

#[test]
fn zero_retry_bound_still_attempts_once() {
    let p = policy(100, 800, 0);
    let mut op: ScriptedOperation<u32, ApiError> =
        ScriptedOperation::new(vec![Err(parse_err("only"))]);
    let r = retry(&p, &mut op);
    assert!(r.is_err());
    assert_eq!(op.calls_made(), 1);
}

#[test]
fn example_schedule_three_failures_then_success() {
    // base 100 ms, cap 800 ms, four attempts: the observed delays are 100,
    // 200 and 400 ms and the fourth attempt succeeds.
    let p = policy(100, 800, 4);
    assert_eq!(delay_after_failure(&p, 1), RetryDecision::SleepThenRetry(100));
    assert_eq!(delay_after_failure(&p, 2), RetryDecision::SleepThenRetry(200));
    assert_eq!(delay_after_failure(&p, 3), RetryDecision::SleepThenRetry(400));
    assert_eq!(delay_after_failure(&p, 4), RetryDecision::Stop);

    let mut op = ScriptedOperation::new(vec![
        Err(parse_err("e1")),
        Err(parse_err("e2")),
        Err(parse_err("e3")),
        Ok("done".to_string()),
    ]);
    let r = retry(&p, &mut op);
    assert_eq!(r, Ok("done".to_string()));
    assert_eq!(op.calls_made(), 4);
}

#[test]
fn zero_base_delay_never_waits() {
    let p = policy(0, 800, 4);
    assert_eq!(backoff_delay_ms(&p, 1), 0);
    assert_eq!(backoff_delay_ms(&p, 3), 0);
}
