use coupon_api_server::error::ErrorCode;
use coupon_api_server::http::concurrency::{ensure_updated, etag, expected_version, parse_i64, parse_if_match};

fn header(value: &str) -> Option<&[u8]> {
    Some(value.as_bytes())
}

#[test]
fn quoted_weak_and_bare_versions_all_parse() {
    assert_eq!(expected_version(header("\"7\""), None).expect("parses"), Some(7));
    assert_eq!(expected_version(header("W/\"7\""), None).expect("parses"), Some(7));
    assert_eq!(expected_version(header("7"), None).expect("parses"), Some(7));
}

#[test]
fn no_version_anywhere_means_no_check() {
    assert_eq!(expected_version(None, None).expect("parses"), None);
    assert_eq!(expected_version(header("*"), None).expect("parses"), None, "If-Match: * opts out");
}

#[test]
fn a_body_version_is_used_when_the_header_is_absent() {
    assert_eq!(expected_version(None, Some(3)).expect("parses"), Some(3));
}

#[test]
fn contradictory_versions_are_rejected_rather_than_guessed() {
    let error = expected_version(header("\"7\""), Some(3)).expect_err("must reject");
    assert_eq!(error.code, ErrorCode::InvalidVersion);
    assert_eq!(error.status().as_u16(), 400);
}

#[test]
fn a_non_numeric_if_match_is_a_client_error() {
    let error = expected_version(header("\"abc\""), None).expect_err("must reject");
    assert_eq!(error.code, ErrorCode::InvalidVersion);
}

#[test]
fn zero_rows_distinguishes_a_lost_race_from_a_missing_row() {
    ensure_updated(1, true).expect("one row is success");
    assert_eq!(ensure_updated(0, true).expect_err("lost race").code, ErrorCode::VersionConflict);
    assert_eq!(ensure_updated(0, false).expect_err("gone").code, ErrorCode::NotFound);
}

#[test]
fn etags_are_quoted() {
    assert_eq!(etag(7), "\"7\"");
}

#[test]
fn matching_header_and_body_versions_agree() {
    assert_eq!(expected_version(header("\"7\""), Some(7)).expect("agrees"), Some(7));
}

#[test]
fn negative_and_large_versions_render_and_parse() {
    assert_eq!(etag(-12), "\"-12\"");
    assert_eq!(etag(i64::MAX), "\"9223372036854775807\"");
    assert_eq!(etag(i64::MIN), "\"-9223372036854775808\"");
    assert_eq!(parse_if_match(header("\"-12\"")).expect("parses"), Some(-12));
}

#[test]
fn an_empty_or_overflowing_if_match_is_rejected() {
    assert_eq!(parse_if_match(header("\"\"")).expect_err("empty").code, ErrorCode::InvalidVersion);
    assert_eq!(
        parse_if_match(header("99999999999999999999")).expect_err("overflow").code,
        ErrorCode::InvalidVersion
    );
}

#[test]
fn a_header_that_is_not_visible_ascii_is_rejected() {
    let raw: &[u8] = &[0xff, b'7'];
    assert_eq!(parse_if_match(Some(raw)).expect_err("opaque bytes").code, ErrorCode::InvalidVersion);
}

#[test]
fn integers_parse_with_their_sign() {
    let chars: Vec<char> = "-42".chars().collect();
    assert_eq!(parse_i64(&chars), Some(-42));
    let chars: Vec<char> = "+5".chars().collect();
    assert_eq!(parse_i64(&chars), Some(5));
    let chars: Vec<char> = "4a".chars().collect();
    assert_eq!(parse_i64(&chars), None);
    let chars: Vec<char> = "9223372036854775808".chars().collect();
    assert_eq!(parse_i64(&chars), None);
}

#[test]
fn an_issued_etag_reads_back_as_its_version() {
    for version in [0i64, 7, 1234567890, -3, i64::MAX, i64::MIN] {
        let tag = coupon_api_server::http::concurrency::etag(version);
        assert_eq!(
            coupon_api_server::http::concurrency::expected_version(Some(tag.as_bytes()), None).expect("reads"),
            Some(version),
            "{tag}"
        );
    }
}

#[test]
fn a_non_integer_if_match_says_so() {
    let error = expected_version(Some(b"\"abc\""), None).expect_err("not a version");
    assert_eq!(error.code, ErrorCode::InvalidVersion);
    assert_eq!(error.message, "If-Match 는 정수 버전이어야 합니다.");
}
