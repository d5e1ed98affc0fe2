use coupon_api_server::http::metrics::{percentile_bucket, MetricsRegistry};
use coupon_api_server::time::Duration;

fn error_rate(registry: &MetricsRegistry) -> f64 {
    let total = registry.requests() as f64;
    if total == 0.0 {
        return 0.0;
    }
    registry.server_errors() as f64 / total
}

#[test]
fn the_error_rate_counts_only_our_own_failures() {
    let mut registry = MetricsRegistry::new();
    registry.observe_request(200, Duration::from_millis(10));
    registry.observe_request(422, Duration::from_millis(10));
    registry.observe_request(500, Duration::from_millis(10));
    registry.observe_request(200, Duration::from_millis(10));

    assert_eq!(registry.requests(), 4);
    assert!((error_rate(&registry) - 0.25).abs() < f64::EPSILON);
    assert_eq!(registry.client_errors(), 1);
    assert_eq!(registry.server_errors(), 1);
}

#[test]
fn the_p95_lands_in_the_bucket_the_slo_is_written_against() {
    let mut registry = MetricsRegistry::new();
    for _ in 0..99 {
        registry.observe_request(200, Duration::from_millis(30));
    }
    assert_eq!(registry.latency_p95_ms(), Some(50));

    let mut registry = MetricsRegistry::new();
    for _ in 0..19 {
        registry.observe_request(200, Duration::from_millis(30));
    }
    registry.observe_request(200, Duration::from_millis(1_200));
    assert_eq!(registry.latency_p95_ms(), Some(50));

    let mut registry = MetricsRegistry::new();
    for _ in 0..18 {
        registry.observe_request(200, Duration::from_millis(30));
    }
    for _ in 0..2 {
        registry.observe_request(200, Duration::from_millis(1_200));
    }
    assert_eq!(registry.latency_p95_ms(), Some(1_500));
}

#[test]
fn a_process_that_has_served_nothing_reports_no_percentile() {
    let registry = MetricsRegistry::new();
    assert_eq!(registry.latency_p95_ms(), None);
    assert_eq!(error_rate(&registry), 0.0);
}

#[test]
fn the_percentile_bucket_arithmetic_rounds_up() {
    assert_eq!(percentile_bucket(&[19, 0, 0, 0, 0, 0, 1, 0], 95), Some(50));
    assert_eq!(percentile_bucket(&[18, 0, 0, 0, 0, 0, 2, 0], 95), Some(5_000));
    assert_eq!(percentile_bucket(&[20, 0, 0, 0, 0, 0, 0, 0], 95), Some(50));
    assert_eq!(percentile_bucket(&[0; 8], 95), None);
    assert_eq!(percentile_bucket(&[20, 0, 0, 0, 0, 0, 1, 0], 95), Some(50));
}

#[test]
fn invariant_violations_are_counted_separately_from_errors() {
    let mut registry = MetricsRegistry::new();
    registry.record_invariant_violation();
    registry.record_invariant_violation();
    assert_eq!(registry.invariant_violations(), 2);
    assert_eq!(registry.server_errors(), 0);
    assert_eq!(registry.requests(), 0);
}

#[test]
fn latency_is_summed_in_whole_milliseconds() {
    let mut registry = MetricsRegistry::new();
    registry.observe_request(200, Duration::from_millis(10));
    registry.observe_request(204, Duration::from_micros(2_999));
    assert_eq!(registry.latency_total_ms(), 12);
}

#[test]
fn a_slow_tail_beyond_every_bound_reports_the_catch_all() {
    let mut registry = MetricsRegistry::new();
    registry.observe_request(200, Duration::from_secs(60));
    assert_eq!(registry.latency_p95_ms(), Some(u64::MAX));
    assert_eq!(percentile_bucket(&[0, 0, 0, 0, 0, 0, 0, 3], 95), Some(u64::MAX));
}

#[test]
fn a_bucket_bound_itself_falls_in_that_bucket() {
    let mut registry = MetricsRegistry::new();
    registry.observe_request(200, Duration::from_millis(500));
    assert_eq!(registry.latency_p95_ms(), Some(500));
    let mut registry = MetricsRegistry::new();
    registry.observe_request(200, Duration::from_millis(501));
    assert_eq!(registry.latency_p95_ms(), Some(800));
}
