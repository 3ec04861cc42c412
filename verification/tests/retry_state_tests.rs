use polyrev::config::RetryConfig;
use polyrev::retry::{run_retry_schedule, RetryDirective, RetryState};
use polyrev::state::{State, DAY_MS};

#[test]
fn test_retry_success_first_attempt() {
    let config = RetryConfig { max_attempts: 3, backoff_base_ms: 10 };
    let outcomes = vec![true, true, true];
    let (invocations, ok) = run_retry_schedule(&outcomes, &config);
    assert!(ok);
    assert_eq!(invocations, 1);
}

#[test]
fn test_retry_success_after_failures() {
    let config = RetryConfig { max_attempts: 3, backoff_base_ms: 10 };
    let outcomes = vec![false, false, true];
    let (invocations, ok) = run_retry_schedule(&outcomes, &config);
    assert!(ok);
    assert_eq!(invocations, 3);
}

#[test]
fn test_retry_all_failures() {
    let config = RetryConfig { max_attempts: 3, backoff_base_ms: 10 };
    let outcomes = vec![false, false, false];
    let (invocations, ok) = run_retry_schedule(&outcomes, &config);
    assert!(!ok);
    assert_eq!(invocations, 3);
}

#[test]
fn test_retry_never_exceeds_max_attempts() {
    let config = RetryConfig { max_attempts: 2, backoff_base_ms: 5 };
    let outcomes = vec![false, false, true];
    let (invocations, ok) = run_retry_schedule(&outcomes, &config);
    assert!(!ok);
    assert_eq!(invocations, 2);
}

#[test]
fn test_retry_backoff_doubles_and_jitter_is_bounded() {
    let config = RetryConfig { max_attempts: 4, backoff_base_ms: 100 };
    let mut state = RetryState::new(&config);
    assert_eq!(state.backoff_ms, 100);
    match state.on_failure() {
        RetryDirective::Retry { delay_ms } => {
            assert!((100..200).contains(&delay_ms));
        }
        RetryDirective::GiveUp => panic!("should retry after the first failure"),
    }
    assert_eq!(state.backoff_ms, 200);
    match state.on_failure() {
        RetryDirective::Retry { delay_ms } => {
            assert!((200..300).contains(&delay_ms));
        }
        RetryDirective::GiveUp => panic!("should retry after the second failure"),
    }
    state.on_failure();
    match state.on_failure() {
        RetryDirective::GiveUp => {}
        RetryDirective::Retry { .. } => panic!("attempts should be exhausted"),
    }
}

#[test]
fn test_state_lookup_and_overwrite() {
    let mut state = State::new();
    assert!(state.get("alpha").is_none());
    state.record_run_at("alpha", 3, 1_000);
    state.record_run_at("beta", 5, 2_000);
    assert_eq!(state.get("alpha").unwrap().findings_count, 3);
    assert_eq!(state.get("beta").unwrap().last_run_ms, 2_000);
    state.record_run_at("alpha", 9, 4_000);
    assert_eq!(state.get("alpha").unwrap().findings_count, 9);
    assert_eq!(state.get("alpha").unwrap().last_run_ms, 4_000);
    assert_eq!(state.reviewers.len(), 2);
}

#[test]
fn test_skip_logic_freshness_window() {
    let mut state = State::new();
    let now: i64 = 100 * DAY_MS;
    let two_hours_ago = now - 2 * 3_600_000;
    let twenty_five_hours_ago = now - 25 * 3_600_000;
    state.record_run_at("fresh", 1, two_hours_ago);
    state.record_run_at("stale", 1, twenty_five_hours_ago);
    assert!(state.ran_within("fresh", now));
    assert!(!state.ran_within("stale", now));
    assert!(!state.ran_within("unknown", now));

    // skipped when force is off and the unit is fresh; otherwise executed
    assert!(polyrev::runner::should_skip_fresh(false, state.ran_within("fresh", now)));
    assert!(!polyrev::runner::should_skip_fresh(true, state.ran_within("fresh", now)));
    assert!(!polyrev::runner::should_skip_fresh(false, state.ran_within("stale", now)));
    assert!(!polyrev::runner::should_skip_fresh(true, state.ran_within("stale", now)));
}

#[test]
fn test_record_run_uses_clock() {
    let mut state = State::new();
    state.record_run("live", 7);
    let rec = state.get("live").unwrap();
    assert_eq!(rec.findings_count, 7);
    assert!(rec.last_run_ms > 0);
    assert!(state.ran_today("live"));
}
