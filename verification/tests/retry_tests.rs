use module_pull::retry::{
    AttemptOutcome, RetryExecutor, RetryPolicy, RetryRunResult, execute,
};
use module_pull::errors::PullError;

fn test_policy() -> RetryPolicy {
    // The standard schedule scaled to milliseconds for test speed:
    // initial 1, multiplier 2, cap 16, budget 300.
    RetryPolicy { initial_interval_ms: 1, max_interval_ms: 16, multiplier: 2, max_elapsed_ms: 300 }
}

#[test]
fn standard_policy_matches_the_documented_schedule() {
    let p = RetryPolicy::standard();
    assert_eq!(p.initial_interval_ms, 1000);
    assert_eq!(p.max_interval_ms, 16000);
    assert_eq!(p.multiplier, 2);
    assert_eq!(p.max_elapsed_ms, 300000);
}

#[test]
fn three_transients_then_success_waits_one_plus_two_plus_four() {
    let outcomes = vec![
        AttemptOutcome::TransientFailure,
        AttemptOutcome::TransientFailure,
        AttemptOutcome::TransientFailure,
        AttemptOutcome::Success,
    ];
    let r = execute(&test_policy(), &outcomes);
    assert_eq!(r, RetryRunResult::Succeeded { attempts: 4, total_wait_ms: 1 + 2 + 4 });
}

#[test]
fn terminal_error_fails_immediately_with_zero_wait() {
    let outcomes = vec![AttemptOutcome::TerminalFailure, AttemptOutcome::Success];
    let r = execute(&test_policy(), &outcomes);
    assert_eq!(r, RetryRunResult::FailedTerminal { attempts: 1, total_wait_ms: 0 });
}

#[test]
fn immediate_success_waits_nothing() {
    let outcomes = vec![AttemptOutcome::Success];
    let r = execute(&test_policy(), &outcomes);
    assert_eq!(r, RetryRunResult::Succeeded { attempts: 1, total_wait_ms: 0 });
}

#[test]
fn transient_after_transients_terminal_short_circuits() {
    let outcomes = vec![
        AttemptOutcome::TransientFailure,
        AttemptOutcome::TerminalFailure,
        AttemptOutcome::Success,
    ];
    let r = execute(&test_policy(), &outcomes);
    assert_eq!(r, RetryRunResult::FailedTerminal { attempts: 2, total_wait_ms: 1 });
}

#[test]
fn unending_transients_exhaust_the_budget() {
    // Budget 10 with intervals 1, 2, 4 (sum 7): the fourth step (8) does
    // not fit, so the run ends after 4 attempts having waited 7.
    let policy = RetryPolicy {
        initial_interval_ms: 1,
        max_interval_ms: 16,
        multiplier: 2,
        max_elapsed_ms: 10,
    };
    let outcomes = vec![AttemptOutcome::TransientFailure];
    let r = execute(&policy, &outcomes);
    assert_eq!(r, RetryRunResult::Exhausted { attempts: 4, total_wait_ms: 7 });
}

#[test]
fn backoff_doubles_and_caps_at_the_maximum_interval() {
    let mut exec = RetryExecutor::new(&test_policy());
    let mut waits = Vec::new();
    for _ in 0..6 {
        waits.push(exec.next_backoff().expect("within budget"));
    }
    assert_eq!(waits, vec![1, 2, 4, 8, 16, 16]);
}

#[test]
fn backoff_stops_when_the_budget_has_no_further_step() {
    let policy = RetryPolicy {
        initial_interval_ms: 4,
        max_interval_ms: 16,
        multiplier: 2,
        max_elapsed_ms: 10,
    };
    let mut exec = RetryExecutor::new(&policy);
    assert_eq!(exec.next_backoff(), Some(4));
    // 4 already elapsed; the next interval 8 would exceed the budget 10.
    assert_eq!(exec.next_backoff(), None);
    assert_eq!(exec.next_backoff(), None);
}

#[test]
fn only_transient_network_errors_are_retryable() {
    let transient = PullError::TransientNetwork { message: "timed out".to_string() };
    let terminal = PullError::TerminalProtocol { message: "rejected".to_string() };
    let integrity = PullError::Integrity { message: "bad hash".to_string() };
    let decode = PullError::Decode { message: "bad section".to_string() };
    let fs = PullError::Filesystem { message: "io".to_string() };
    assert!(transient.is_retryable());
    assert!(!terminal.is_retryable());
    assert!(!integrity.is_retryable());
    assert!(!decode.is_retryable());
    assert!(!fs.is_retryable());
    assert_eq!(transient.message(), "timed out");
}
