use coupon_api_server::error::{ApiError, ErrorCode, FieldError};
use coupon_api_server::text::{chars_of, hex_decode, hex_encode, i64_string, is_blank_str, trim_chars, u64_string};
use coupon_api_server::time::Duration;

#[test]
fn numbers_render_in_decimal() {
    assert_eq!(i64_string(0), "0");
    assert_eq!(i64_string(-45), "-45");
    assert_eq!(i64_string(i64::MIN), "-9223372036854775808");
    assert_eq!(u64_string(u64::MAX), "18446744073709551615");
}

#[test]
fn bytes_render_as_lowercase_hex() {
    assert_eq!(hex_encode(&[0x00, 0xab, 0x0f, 0xff]), "00ab0fff");
    assert_eq!(hex_encode(&[]), "");
}

#[test]
fn trimming_follows_unicode_whitespace() {
    assert_eq!(trim_chars("  가 나\t\n").into_iter().collect::<String>(), "가 나");
    assert!(is_blank_str(" \u{3000}\t"));
    assert!(!is_blank_str(" x "));
}

#[test]
fn durations_convert_between_units() {
    assert_eq!(Duration::from_secs(90).num_seconds(), 90);
    assert_eq!(Duration::from_millis(1_500).as_micros(), 1_500_000);
    assert_eq!(Duration::minutes(5).num_seconds(), 300);
    assert_eq!(Duration::days(2).num_days(), 2);
    assert_eq!(Duration::from_micros(-1_500).as_millis(), -1);
    assert_eq!(Duration::from_secs(5).min(Duration::from_secs(3)), Duration::from_secs(3));
}

#[test]
fn every_error_code_keeps_its_spelling_and_class() {
    assert_eq!(ErrorCode::InvalidVersion.as_str(), "INVALID_VERSION");
    assert_eq!(ErrorCode::NotFound.status().as_u16(), 404);
    assert_eq!(ErrorCode::RateLimited.status().as_u16(), 429);
    assert!(ErrorCode::RateLimited.retryable());
    assert!(!ErrorCode::ValidationFailed.retryable());
}

#[test]
fn an_error_carries_its_message_fields_and_note() {
    let plain = ApiError::new(ErrorCode::Forbidden);
    assert_eq!(plain.message, "FORBIDDEN");
    let worded = ApiError::with_message(ErrorCode::Conflict, "충돌").internal("row 7");
    assert_eq!(worded.message, "충돌");
    assert_eq!(worded.internal.as_deref(), Some("row 7"));
    let fields = ApiError::with_fields(ErrorCode::ValidationFailed, vec![FieldError::new("a", "REQUIRED", "필수")]);
    assert_eq!(fields.field_errors.len(), 1);
    assert_eq!(fields.field_errors[0].field, "a");
    assert_eq!(ApiError::not_found().code, ErrorCode::NotFound);
}

#[test]
fn hex_decoding_reads_back_hex_encoding() {
    for bytes in [&b""[..], &[0x00][..], &[0xde, 0xad, 0xbe, 0xef][..], &[0x0f, 0xf0, 0x7a][..]] {
        let text = hex_encode(bytes);
        assert_eq!(hex_decode(&chars_of(&text)), Some(bytes.to_vec()), "{text}");
    }
    assert_eq!(hex_decode(&chars_of("DEADbeef")), Some(vec![0xde, 0xad, 0xbe, 0xef]));
    assert_eq!(hex_decode(&chars_of("abc")), None);
    assert_eq!(hex_decode(&chars_of("zz")), None);
}
