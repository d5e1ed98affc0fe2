use coupon_api_server::error::ErrorCode;
use coupon_api_server::notifications::routes::{
    callback_channel, callback_secret, signature_header, verify_callback, NotificationListQuery, CALLBACK_MAX_SKEW_SECS,
};
use coupon_api_server::notifications::NotificationChannel;
use coupon_api_server::text::hex_decode;
use hmac::{Hmac, Mac};
use sha2::Sha256;

fn sign(secret: &str, timestamp: &str, body: &[u8]) -> String {
    let mut mac = Hmac::<Sha256>::new_from_slice(secret.as_bytes()).expect("hmac");
    mac.update(timestamp.as_bytes());
    mac.update(b".");
    mac.update(body);
    hex::encode(mac.finalize().into_bytes())
}

fn at(rfc3339: &str) -> i64 {
    chrono::DateTime::parse_from_rfc3339(rfc3339).expect("valid timestamp").timestamp_micros()
}

#[test]
fn a_correctly_signed_fresh_callback_verifies() {
    let body = br#"{"event_id":"e-1"}"#;
    let timestamp = "2026-08-12T00:00:00Z";
    let signature = sign("s3cret", timestamp, body);
    assert!(verify_callback("s3cret", timestamp, body, &signature, at("2026-08-12T00:00:10Z"), at(timestamp)));
}

#[test]
fn a_tampered_body_fails_even_with_a_valid_looking_signature() {
    let timestamp = "2026-08-12T00:00:00Z";
    let signature = sign("s3cret", timestamp, br#"{"status":"FAILED"}"#);
    assert!(!verify_callback(
        "s3cret",
        timestamp,
        br#"{"status":"DELIVERED"}"#,
        &signature,
        at("2026-08-12T00:00:10Z"),
        at(timestamp),
    ));
}

#[test]
fn a_replayed_callback_falls_outside_the_window() {
    let body = br#"{"event_id":"e-1"}"#;
    let timestamp = "2026-08-12T00:00:00Z";
    let signature = sign("s3cret", timestamp, body);
    assert!(!verify_callback("s3cret", timestamp, body, &signature, at("2026-08-12T00:10:00Z"), at(timestamp)));
}

#[test]
fn a_future_timestamp_is_rejected_too() {
    let body = br#"{"event_id":"e-1"}"#;
    let timestamp = "2026-08-12T01:00:00Z";
    let signature = sign("s3cret", timestamp, body);
    assert!(!verify_callback("s3cret", timestamp, body, &signature, at("2026-08-12T00:00:00Z"), at(timestamp)));
}

#[test]
fn the_wrong_secret_fails() {
    let body = br#"{"event_id":"e-1"}"#;
    let timestamp = "2026-08-12T00:00:00Z";
    let signature = sign("other", timestamp, body);
    assert!(!verify_callback("s3cret", timestamp, body, &signature, at("2026-08-12T00:00:01Z"), at(timestamp)));
}

#[test]
fn a_non_hex_signature_is_rejected_rather_than_panicking() {
    assert!(!verify_callback(
        "s3cret",
        "2026-08-12T00:00:00Z",
        b"{}",
        "not-hex!!",
        at("2026-08-12T00:00:01Z"),
        at("2026-08-12T00:00:00Z"),
    ));
}

#[test]
fn the_timestamp_is_part_of_the_signed_material() {
    let body = br#"{"event_id":"e-1"}"#;
    let signature = sign("s3cret", "2026-08-12T00:00:00Z", body);
    assert!(!verify_callback(
        "s3cret",
        "2026-08-12T00:00:30Z",
        body,
        &signature,
        at("2026-08-12T00:00:31Z"),
        at("2026-08-12T00:00:30Z"),
    ));
}

#[test]
fn the_window_is_whole_seconds_either_way() {
    let body = b"{}";
    let timestamp = "2026-08-12T00:00:00Z";
    let signature = sign("s3cret", timestamp, body);
    let signed = at(timestamp);
    let edge = signed + CALLBACK_MAX_SKEW_SECS * 1_000_000 + 999_999;
    assert!(verify_callback("s3cret", timestamp, body, &signature, edge, signed));
    assert!(!verify_callback("s3cret", timestamp, body, &signature, edge + 1, signed));
    assert!(verify_callback("s3cret", timestamp, body, &signature, signed - 300_999_999, signed));
    assert!(!verify_callback("s3cret", timestamp, body, &signature, signed - 301_000_000, signed));
}

#[test]
fn an_uppercase_or_padded_signature_still_verifies() {
    let body = b"{}";
    let timestamp = "2026-08-12T00:00:00Z";
    let signature = format!("  {}\n", sign("s3cret", timestamp, body).to_uppercase());
    assert!(verify_callback("s3cret", timestamp, body, &signature, at(timestamp), at(timestamp)));
    let truncated = sign("s3cret", timestamp, body)[..62].to_owned();
    assert!(!verify_callback("s3cret", timestamp, body, &truncated, at(timestamp), at(timestamp)));
}

#[test]
fn hex_decoding_reads_pairs_in_either_case() {
    let text: Vec<char> = "00aBff".chars().collect();
    assert_eq!(hex_decode(&text), Some(vec![0x00, 0xab, 0xff]));
    let odd: Vec<char> = "abc".chars().collect();
    assert_eq!(hex_decode(&odd), None);
    let bad: Vec<char> = "zz".chars().collect();
    assert_eq!(hex_decode(&bad), None);
    assert_eq!(hex_decode(&[]), Some(vec![]));
}

#[test]
fn a_callback_path_names_one_of_our_channels() {
    assert_eq!(callback_channel("fcm").expect("known"), NotificationChannel::FcmWebPush);
    assert_eq!(callback_channel("fcm-web-push").expect("known"), NotificationChannel::FcmWebPush);
    assert_eq!(callback_channel("alimtalk").expect("known"), NotificationChannel::KakaoAlimtalk);
    assert_eq!(callback_channel("kakao-alimtalk").expect("known"), NotificationChannel::KakaoAlimtalk);
    assert_eq!(callback_channel("sms").expect_err("unknown").code, ErrorCode::NotFound);
}

#[test]
fn without_a_secret_every_callback_is_refused() {
    assert_eq!(callback_secret(Some("s3cret")).expect("configured"), "s3cret");
    let error = callback_secret(None).expect_err("refused");
    assert_eq!(error.code, ErrorCode::DependencyUnavailable);
    assert_eq!(error.message, "알림 콜백을 처리할 수 없습니다.");
}

#[test]
fn the_inbox_query_asks_for_its_page() {
    let query = NotificationListQuery { unread_only: true, limit: Some(5), cursor: Some("abc".to_string()) };
    let page = query.page();
    assert_eq!(page.limit, Some(5));
    assert_eq!(page.cursor.as_deref(), Some("abc"));
    assert_eq!(page.limit(), 5);
}

#[test]
fn a_missing_or_unreadable_signature_header_is_a_signature_failure() {
    assert_eq!(signature_header(Some(b"abc123")).expect("readable"), "abc123");
    assert_eq!(signature_header(None).expect_err("missing").code, ErrorCode::WebhookSignatureInvalid);
    assert_eq!(signature_header(Some(&[0xff, 0x41])).expect_err("not text").code, ErrorCode::WebhookSignatureInvalid);
}
