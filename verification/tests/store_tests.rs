use threads_cli::error::{CliError, ErrorCategory};
use threads_cli::store::{retry_step, RetryOperation, RetryPolicy, RetryState, RetryStep, Store};

/// Runs `call` until it succeeds or the retry decision gives up; returns the
/// outcome and the waits asked for.
fn run_with_retries<T>(
    policy: &RetryPolicy,
    operation: RetryOperation,
    mut call: impl FnMut() -> Result<T, CliError>,
) -> (Result<T, CliError>, Vec<u64>) {
    let mut state = RetryState { attempt: 0 };
    let mut waits = Vec::new();
    loop {
        match call() {
            Ok(v) => return (Ok(v), waits),
            Err(err) => match retry_step(policy, operation, &state, &err) {
                RetryStep::GiveUp => return (Err(err), waits),
                RetryStep::RetryAfter { delay_ms, next } => {
                    waits.push(delay_ms);
                    state = next;
                }
            },
        }
    }
}

#[test]
fn retries_transient_errors_then_succeeds() {
    let mut attempts = 0;
    let policy = RetryPolicy { max_retries: 3, base_delay_ms: 1 };
    let (result, waits) = run_with_retries(&policy, RetryOperation::SafeRead, || {
        let n = attempts;
        attempts += 1;
        if n < 2 {
            Err(CliError::new(ErrorCategory::Network, "transient"))
        } else {
            Ok("ok")
        }
    });
    assert_eq!(result.expect("retry should succeed"), "ok");
    assert_eq!(attempts, 3);
    assert_eq!(waits, vec![1, 2]);
}

#[test]
fn does_not_retry_validation_errors() {
    let mut attempts = 0;
    let policy = RetryPolicy { max_retries: 3, base_delay_ms: 1 };
    let (result, _) = run_with_retries(&policy, RetryOperation::SafeRead, || {
        attempts += 1;
        Err::<(), _>(CliError::new(ErrorCategory::Validation, "invalid input"))
    });
    let err = result.expect_err("validation should fail immediately");
    assert_eq!(err.category.as_code(), "VALIDATION_ERROR");
    assert_eq!(attempts, 1);
}

#[test]
fn retries_token_refresh_transient_errors_then_succeeds() {
    let mut attempts = 0;
    let policy = RetryPolicy { max_retries: 3, base_delay_ms: 1 };
    let (result, _) = run_with_retries(&policy, RetryOperation::TokenRefresh, || {
        let n = attempts;
        attempts += 1;
        if n == 0 {
            Err(CliError::new(ErrorCategory::RateLimit, "retryable"))
        } else {
            Ok("ok")
        }
    });
    assert_eq!(result.expect("retry should succeed"), "ok");
    assert_eq!(attempts, 2);
}

#[test]
fn does_not_retry_unsafe_publish_operations() {
    let mut attempts = 0;
    let policy = RetryPolicy { max_retries: 3, base_delay_ms: 1 };
    let (result, _) = run_with_retries(&policy, RetryOperation::UnsafePublish, || {
        attempts += 1;
        Err::<(), _>(CliError::new(ErrorCategory::Network, "publish timed out"))
    });
    let err = result.expect_err("unsafe publish must fail without retry");
    assert_eq!(err.category.as_code(), "NETWORK_ERROR");
    assert_eq!(attempts, 1);
}

#[test]
fn retries_stop_after_the_budget_with_doubling_waits() {
    let mut attempts = 0;
    let policy = RetryPolicy { max_retries: 3, base_delay_ms: 100 };
    let (result, waits) = run_with_retries(&policy, RetryOperation::SafeRead, || {
        attempts += 1;
        Err::<(), _>(CliError::new(ErrorCategory::Api, "op failed: HTTP 503: busy"))
    });
    assert!(result.is_err());
    assert_eq!(attempts, 4);
    assert_eq!(waits, vec![100, 200, 400]);
}

#[test]
fn api_errors_without_server_status_are_not_retried() {
    let policy = RetryPolicy { max_retries: 3, base_delay_ms: 1 };
    let err = CliError::new(ErrorCategory::Api, "op failed: HTTP 404: missing");
    assert!(matches!(retry_step(&policy, RetryOperation::SafeRead, &RetryState { attempt: 0 }, &err), RetryStep::GiveUp));
}

#[test]
fn backoff_saturates_instead_of_overflowing() {
    let policy = RetryPolicy { max_retries: u32::MAX, base_delay_ms: u64::MAX / 2 };
    let err = CliError::new(ErrorCategory::Network, "down");
    match retry_step(&policy, RetryOperation::SafeRead, &RetryState { attempt: 70 }, &err) {
        RetryStep::RetryAfter { delay_ms, next } => {
            assert_eq!(delay_ms, u64::MAX);
            assert_eq!(next.attempt, 71);
        }
        RetryStep::GiveUp => panic!("should retry"),
    }
}

#[test]
fn store_keeps_its_path() {
    let store = Store::new("/tmp/threads.db".to_string());
    assert_eq!(store.db_path(), "/tmp/threads.db");
}
