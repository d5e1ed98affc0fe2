use coupon_api_server::error::{ApiError, ErrorCode};
use coupon_api_server::jobs::retry::{
    backoff_for_attempt, backoff_with_jitter, base_delay, classify_api_error, classify_db_failure, max_delay, DbFailure,
    RetryClass, RetryDecision,
};
use coupon_api_server::jobs::RetryBudget;
use coupon_api_server::time::Duration;

fn secs(d: Duration) -> f64 {
    d.as_micros() as f64 / 1_000_000.0
}

#[test]
fn the_backoff_doubles_from_five_seconds() {
    assert_eq!(backoff_with_jitter(1, 0), Duration::from_secs(5));
    assert_eq!(backoff_with_jitter(2, 0), Duration::from_secs(10));
    assert_eq!(backoff_with_jitter(3, 0), Duration::from_secs(20));
    assert_eq!(backoff_with_jitter(4, 0), Duration::from_secs(40));
}

#[test]
fn the_backoff_stops_at_thirty_minutes() {
    for attempt in 10..40 {
        assert!(backoff_with_jitter(attempt, 0) <= max_delay(), "attempt {attempt} exceeded the ceiling");
    }
    assert_eq!(backoff_with_jitter(30, 0), max_delay());
}

#[test]
fn jitter_stays_within_twenty_percent() {
    let base = secs(backoff_with_jitter(3, 0));
    assert!((secs(backoff_with_jitter(3, 1_000)) - base * 1.2).abs() < 0.001);
    assert!((secs(backoff_with_jitter(3, -1_000)) - base * 0.8).abs() < 0.001);
    for _ in 0..200 {
        let sampled = secs(backoff_for_attempt(3));
        assert!(
            sampled >= base * 0.8 - 0.001 && sampled <= base * 1.2 + 0.001,
            "{sampled} is outside ±20% of {base}"
        );
    }
}

#[test]
fn the_jittered_ceiling_is_still_a_ceiling() {
    assert!(backoff_with_jitter(30, 1_000) <= max_delay());
}

#[test]
fn a_zeroth_attempt_is_treated_as_the_first() {
    assert_eq!(backoff_with_jitter(0, 0), backoff_with_jitter(1, 0));
    assert_eq!(backoff_with_jitter(-5, 0), backoff_with_jitter(1, 0));
}

#[test]
fn validation_authorization_and_not_found_are_never_retried() {
    for code in [
        ErrorCode::ValidationFailed,
        ErrorCode::InvalidRequest,
        ErrorCode::Forbidden,
        ErrorCode::RoleRequired,
        ErrorCode::NotFound,
        ErrorCode::CouponNotFound,
        ErrorCode::CampaignNotFound,
    ] {
        assert_eq!(classify_api_error(&ApiError::new(code)), RetryClass::Permanent, "{} must not be retried", code.as_str());
    }
}

#[test]
fn contention_and_infrastructure_are_retried() {
    for code in [ErrorCode::VersionConflict, ErrorCode::Conflict, ErrorCode::ServiceUnavailable, ErrorCode::DependencyUnavailable] {
        assert_eq!(classify_api_error(&ApiError::new(code)), RetryClass::Transient, "{} should be retried", code.as_str());
    }
}

#[test]
fn a_cancelled_campaign_is_a_permanent_failure() {
    assert_eq!(classify_api_error(&ApiError::new(ErrorCode::CampaignNotIssuing)), RetryClass::Permanent);
}

#[test]
fn rate_limiting_defers_to_the_provider() {
    assert_eq!(
        classify_api_error(&ApiError::new(ErrorCode::RateLimited)),
        RetryClass::ProviderThrottled { retry_after_secs: 60 }
    );
    let decision = RetryClass::ProviderThrottled { retry_after_secs: 90 }.decide(1, RetryBudget::Limited(5));
    assert_eq!(
        decision,
        RetryDecision::Retry { after: Duration::from_secs(90) },
        "the provider's own delay wins over our exponential schedule"
    );
}

#[test]
fn a_provider_delay_is_still_capped() {
    let decision = RetryClass::ProviderThrottled { retry_after_secs: 86_400 }.decide(1, RetryBudget::Limited(5));
    assert_eq!(decision, RetryDecision::Retry { after: max_delay() });
}

#[test]
fn a_permanent_failure_dead_letters_on_the_first_attempt() {
    assert_eq!(RetryClass::Permanent.decide(1, RetryBudget::Limited(10)), RetryDecision::DeadLetter);
}

#[test]
fn a_transient_failure_dead_letters_only_once_the_budget_is_spent() {
    let budget = RetryBudget::Limited(3);
    assert!(matches!(RetryClass::Transient.decide(1, budget), RetryDecision::Retry { .. }));
    assert!(matches!(RetryClass::Transient.decide(2, budget), RetryDecision::Retry { .. }));
    assert_eq!(RetryClass::Transient.decide(3, budget), RetryDecision::DeadLetter);
}

#[test]
fn an_unlimited_budget_keeps_retrying() {
    let budget = RetryBudget::UnlimitedDelayed { alert_after: 20 };
    assert!(matches!(RetryClass::Transient.decide(500, budget), RetryDecision::Retry { .. }));
    assert_eq!(RetryClass::Permanent.decide(1, budget), RetryDecision::DeadLetter);
}

#[test]
fn database_contention_is_retried_and_integrity_violations_are_not() {
    assert_eq!(classify_db_failure(&DbFailure::RowNotFound), RetryClass::Permanent);
    assert_eq!(classify_db_failure(&DbFailure::PoolTimedOut), RetryClass::Transient);
    assert_eq!(classify_db_failure(&DbFailure::Database { code: Some("40001".to_owned()) }), RetryClass::Transient);
    assert_eq!(classify_db_failure(&DbFailure::Database { code: Some("23505".to_owned()) }), RetryClass::Permanent);
    assert_eq!(classify_db_failure(&DbFailure::Database { code: None }), RetryClass::Permanent);
}

#[test]
fn a_throttled_provider_still_respects_the_budget() {
    let decision = RetryClass::ProviderThrottled { retry_after_secs: 30 }.decide(5, RetryBudget::Limited(5));
    assert_eq!(decision, RetryDecision::DeadLetter);
}

#[test]
fn a_sampled_transient_retry_stays_inside_the_jitter_band() {
    for _ in 0..50 {
        match RetryClass::Transient.decide(2, RetryBudget::Limited(5)) {
            RetryDecision::Retry { after } => {
                assert!(after >= Duration::from_secs(8) && after <= Duration::from_secs(12), "{after:?}");
            },
            RetryDecision::DeadLetter => panic!("the budget is not spent"),
        }
    }
}

#[test]
fn the_shortest_delay_is_never_below_a_second() {
    assert_eq!(backoff_with_jitter(1, -1_000), Duration::from_secs(4));
    assert_eq!(backoff_with_jitter(1, 5_000), Duration::from_secs(6));
}

#[test]
fn the_first_retry_waits_five_seconds() {
    assert_eq!(base_delay(), Duration::from_secs(5));
}
