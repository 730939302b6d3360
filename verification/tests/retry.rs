use rig_extra::error::PromptError;
use rig_extra::error::RandAgentError;
use rig_extra::retry::RetryPolicy;

/// Drive the retry decision loop over a scripted call, recording what a
/// notify hook would see.
fn run_with_policy(
    policy: RetryPolicy,
    mut call: impl FnMut() -> Result<String, String>,
) -> (Result<String, String>, Vec<u64>) {
    let mut notified: Vec<u64> = Vec::new();
    let mut retries_done: usize = 0;
    loop {
        match call() {
            Ok(value) => return (Ok(value), notified),
            Err(error) => match policy.next_delay(retries_done) {
                Some(delay) => {
                    notified.push(delay);
                    retries_done += 1;
                }
                None => return (Err(error), notified),
            },
        }
    }
}

#[test]
fn s5_two_failures_then_success_with_growing_delays() {
    let policy = RetryPolicy {
        min_delay_ms: 1,
        factor: 2,
        max_delay_ms: None,
        max_times: Some(3),
    };
    let mut failures_left = 2;
    let (result, notified) = run_with_policy(policy, move || {
        if failures_left > 0 {
            failures_left -= 1;
            Err("not yet".to_string())
        } else {
            Ok("hello".to_string())
        }
    });
    assert_eq!(result, Ok("hello".to_string()));
    // The hook fired once per failure, with doubling delays.
    assert_eq!(notified, vec![1, 2]);
    assert!(notified[0] < notified[1]);
}

#[test]
fn retry_budget_exhaustion_surfaces_the_last_error() {
    let policy = RetryPolicy {
        min_delay_ms: 1,
        factor: 2,
        max_delay_ms: None,
        max_times: Some(2),
    };
    let mut calls = 0;
    let (result, notified) = run_with_policy(policy, move || {
        calls += 1;
        Err(format!("failure {}", calls))
    });
    // Two retries allowed: three calls in all, the third error surfaces.
    assert_eq!(result, Err("failure 3".to_string()));
    assert_eq!(notified, vec![1, 2]);
}

#[test]
fn delays_double_then_hold_at_the_cap() {
    let policy = RetryPolicy {
        min_delay_ms: 1000,
        factor: 2,
        max_delay_ms: Some(60000),
        max_times: None,
    };
    assert_eq!(policy.delay_before_retry(0), 1000);
    assert_eq!(policy.delay_before_retry(1), 2000);
    assert_eq!(policy.delay_before_retry(5), 32000);
    assert_eq!(policy.delay_before_retry(6), 60000);
    assert_eq!(policy.delay_before_retry(7), 60000);
}

#[test]
fn unlimited_policy_always_offers_a_delay() {
    let policy = RetryPolicy {
        min_delay_ms: 5,
        factor: 3,
        max_delay_ms: Some(100),
        max_times: None,
    };
    assert_eq!(policy.next_delay(0), Some(5));
    assert_eq!(policy.next_delay(1), Some(15));
    assert_eq!(policy.next_delay(2), Some(45));
    assert_eq!(policy.next_delay(3), Some(100));
    assert_eq!(policy.next_delay(1000), Some(100));
}

#[test]
fn a_spent_budget_wraps_the_last_error_unchanged() {
    let policy = RetryPolicy {
        min_delay_ms: 1,
        factor: 2,
        max_delay_ms: None,
        max_times: Some(1),
    };
    let first = policy.resolve_failure(0, PromptError::Provider { message: "one".to_string() });
    assert_eq!(first, Ok(1));
    let second = policy.resolve_failure(1, PromptError::Provider { message: "two".to_string() });
    assert_eq!(
        second,
        Err(RandAgentError::AgentError(PromptError::Provider { message: "two".to_string() }))
    );
}

#[test]
fn default_policy_matches_the_documented_schedule() {
    let policy = RetryPolicy::new();
    assert_eq!(policy.min_delay_ms, 1000);
    assert_eq!(policy.factor, 2);
    assert_eq!(policy.max_delay_ms, Some(60000));
    assert_eq!(policy.max_times, Some(3));
    assert_eq!(policy.next_delay(3), None);
    let widened = policy.with_max_times(5);
    assert_eq!(widened.next_delay(3), Some(8000));
}
