use coupon_api_server::error::ErrorCode;
use coupon_api_server::http::rate_limit::{
    counter_key, verdict, window_end, window_index, within_limit, Bucket, LocalCounters, RateLimiter,
};

#[test]
fn the_limit_is_inclusive() {
    assert!(within_limit(20, 20), "the twentieth request still fits");
    assert!(!within_limit(21, 20));
    assert!(within_limit(1, 1));
    assert!(!within_limit(2, 1));
}

#[test]
fn a_blank_limit_fails_open_rather_than_closing_the_endpoint() {
    assert!(within_limit(1_000_000, 0));
}

#[test]
fn requests_are_refused_once_the_window_is_full() {
    let mut limiter = RateLimiter::new();
    let now = 1_000_000;
    for attempt in 1..=3 {
        limiter
            .check(Bucket::QrIssue, "user-1", 3, now, None)
            .unwrap_or_else(|_| panic!("request {attempt} is within the limit"));
    }
    let error = limiter.check(Bucket::QrIssue, "user-1", 3, now, None).expect_err("the fourth request is over the limit");
    assert_eq!(error.code, ErrorCode::RateLimited);
    assert_eq!(error.status().as_u16(), 429);
    assert!(error.code.retryable(), "the client should back off and retry");
}

#[test]
fn a_new_window_starts_fresh() {
    let mut limiter = RateLimiter::new();
    let window_start = 1_000_020;
    limiter.check(Bucket::QrIssue, "user-1", 1, window_start, None).expect("first request");
    limiter.check(Bucket::QrIssue, "user-1", 1, window_start + 30, None).expect_err("same window, over the limit");
    limiter.check(Bucket::QrIssue, "user-1", 1, window_start + 60, None).expect("the next minute is a new window");
}

#[test]
fn a_ten_minute_window_is_not_reset_by_the_minute_buckets_rolling_over() {
    let mut limiter = RateLimiter::new();
    let start = 1_200_000;
    limiter.check(Bucket::KakaoCallbackFailure, "1.2.3.4:abcd", 2, start, None).expect("first failure");
    let later = start + 90;
    limiter.check(Bucket::QrIssue, "user-1", 100, later, None).expect("unrelated traffic");
    limiter
        .check(Bucket::KakaoCallbackFailure, "1.2.3.4:abcd", 2, later, None)
        .expect("second failure still inside the ten minutes");
    limiter
        .check(Bucket::KakaoCallbackFailure, "1.2.3.4:abcd", 2, later, None)
        .expect_err("the third is over the ten-minute limit");
    limiter
        .check(Bucket::KakaoCallbackFailure, "1.2.3.4:abcd", 2, start + 600, None)
        .expect("the next ten-minute window is fresh");
}

#[test]
fn each_bucket_declares_the_window_length_the_spec_gives_it() {
    assert_eq!(Bucket::QrIssue.window_seconds(), 60);
    assert_eq!(Bucket::CampaignClaim.window_seconds(), 60);
    assert_eq!(Bucket::LoginStart.window_seconds(), 600);
    assert_eq!(Bucket::KakaoCallbackFailure.window_seconds(), 600);
}

#[test]
fn expired_local_counters_do_not_accumulate() {
    let mut limiter = RateLimiter::new();
    for minute in 0..5i64 {
        limiter
            .check(Bucket::QrIssue, &format!("user-{minute}"), 10, 1_000_000 + minute * 60, None)
            .expect("within the limit");
    }
    assert_eq!(limiter.local_counters(), 1, "only the live window's counter is kept");
}

#[test]
fn subjects_and_buckets_are_counted_separately() {
    let mut limiter = RateLimiter::new();
    let now = 1_000_000;
    limiter.check(Bucket::QrIssue, "user-1", 1, now, None).expect("first subject");
    limiter.check(Bucket::QrIssue, "user-2", 1, now, None).expect("a different subject has its own budget");
    limiter.check(Bucket::StampApproval, "user-1", 1, now, None).expect("a different bucket has its own budget");
}

#[test]
fn a_shared_count_decides_without_touching_the_local_counters() {
    let mut limiter = RateLimiter::new();
    limiter.check(Bucket::CampaignClaim, "user-1", 5, 1_000_000, Some(5)).expect("the fifth fits");
    let error = limiter.check(Bucket::CampaignClaim, "user-1", 5, 1_000_000, Some(6)).expect_err("the sixth does not");
    assert_eq!(error.code, ErrorCode::RateLimited);
    assert_eq!(limiter.local_counters(), 0);
}

#[test]
fn a_zero_limit_never_counts_or_refuses() {
    let mut limiter = RateLimiter::new();
    for _ in 0..5 {
        limiter.check(Bucket::LoginStart, "ip", 0, 1_000_000, None).expect("fails open");
    }
    assert_eq!(limiter.local_counters(), 0);
}

#[test]
fn windows_are_floored_and_end_one_length_later() {
    assert_eq!(window_index(1_000_020, 60), 16_667);
    assert_eq!(window_end(16_667, 60), 1_000_080);
    assert_eq!(window_index(-1, 60), -1);
    assert_eq!(window_index(0, 600), 0);
}

#[test]
fn counter_keys_name_the_bucket_the_subject_and_the_window() {
    assert_eq!(counter_key(Bucket::QrIssue, "user-1", 16_667), "coupon:rl:qr_issue:user-1:16667");
    assert_eq!(Bucket::KakaoCallbackFailure.as_str(), "kakao_callback_failure");
}

#[test]
fn the_verdict_admits_up_to_the_limit() {
    assert!(verdict(Bucket::QrIssue, 3, 3).is_ok());
    assert_eq!(verdict(Bucket::QrIssue, 4, 3).expect_err("over").code, ErrorCode::RateLimited);
    assert!(verdict(Bucket::QrIssue, 400, 0).is_ok());
}

#[test]
fn local_counters_count_per_key_and_forget_expired_windows() {
    let mut counters = LocalCounters::new();
    assert_eq!(counters.count("a", 100, 10), 1);
    assert_eq!(counters.count("a", 100, 20), 2);
    assert_eq!(counters.count("b", 100, 20), 1);
    assert_eq!(counters.len(), 2);
    assert_eq!(counters.count("a", 200, 100), 1);
    assert_eq!(counters.len(), 1);
}
