use coupon_api_server::error::ErrorCode;
use coupon_api_server::http::pagination::{
    decode_cursor_token, encode_cursor_token, Cursor, Page, PageQuery, DEFAULT_PAGE_SIZE, MAX_PAGE_SIZE,
};
use coupon_api_server::http::query::offending_parameter;

fn row_cursor(row: &u32) -> String {
    format!("row-{row}")
}

#[test]
fn limit_defaults_to_twenty_and_clamps_to_one_hundred() {
    assert_eq!(PageQuery::default().limit(), DEFAULT_PAGE_SIZE);
    assert_eq!(PageQuery { limit: Some(0), cursor: None }.limit(), 1, "zero is clamped up, not treated as unbounded");
    assert_eq!(PageQuery { limit: Some(50), cursor: None }.limit(), 50);
    assert_eq!(PageQuery { limit: Some(1000), cursor: None }.limit(), MAX_PAGE_SIZE);
    assert_eq!(PageQuery { limit: Some(20), cursor: None }.fetch_limit(), 21);
}

#[test]
fn a_full_over_fetch_reports_more_and_emits_a_cursor() {
    let rows: Vec<u32> = (0..4).collect();
    let page = Page::from_rows(rows, 3, row_cursor);
    assert_eq!(page.items, vec![0, 1, 2]);
    assert!(page.has_more);
    assert_eq!(page.next_cursor.as_deref().expect("cursor"), "row-2", "cursor points at the last returned row");
}

#[test]
fn a_short_page_is_the_last_page() {
    let page = Page::from_rows(vec![0u32, 1], 3, row_cursor);
    assert!(!page.has_more);
    assert_eq!(page.next_cursor, None);
    assert_eq!(page.items, vec![0, 1]);
}

#[test]
fn an_exactly_full_page_is_still_the_last_page() {
    let page = Page::from_rows(vec![0u32, 1, 2], 3, row_cursor);
    assert!(!page.has_more);
    assert_eq!(page.next_cursor, None);
}

#[test]
fn the_empty_page_has_nothing_and_no_cursor() {
    let page: Page<u32> = Page::empty();
    assert!(page.items.is_empty());
    assert!(!page.has_more);
    assert_eq!(page.next_cursor, None);
    assert_eq!(PageQuery { limit: Some(100), cursor: None }.fetch_limit(), 101);
}

#[test]
fn the_offending_parameter_is_named_when_axum_names_it() {
    assert_eq!(offending_parameter("Failed to deserialize query string: limit: invalid digit found in string"), "limit");
    assert_eq!(
        offending_parameter(
            "Failed to deserialize query string: store_id: UUID parsing failed: \
             invalid character: found `n` at 0"
        ),
        "store_id"
    );
}

#[test]
fn an_unattributable_failure_falls_back_to_the_query_string() {
    assert_eq!(offending_parameter("Failed to deserialize query string: duplicate field `limit`"), "query");
    assert_eq!(offending_parameter("something else entirely"), "query");
}

#[test]
fn an_empty_field_name_falls_back_to_the_query_string() {
    assert_eq!(offending_parameter("Failed to deserialize query string: : oops"), "query");
    assert_eq!(offending_parameter("Failed to deserialize query string: "), "query");
}

#[test]
fn cursor_tokens_are_url_safe_and_unpadded() {
    let serialised = br#"{"t":"2026-08-10T06:00:00Z","i":"11111111-2222-3333-4444-555555555555"}"#;
    let token = encode_cursor_token(serialised);
    assert!(!token.contains('='), "{token} must not be padded");
    assert!(!token.contains('+') && !token.contains('/'), "{token} must be url-safe");
    assert_eq!(encode_cursor_token(&[0xfb, 0xff]), "-_8");
}

#[test]
fn a_cursor_token_reads_back_as_what_it_was_made_from() {
    for bytes in [&b""[..], &b"a"[..], &b"{\"t\":1}"[..], &[0xfb, 0xff, 0x00][..]] {
        let token = encode_cursor_token(bytes);
        assert_eq!(decode_cursor_token(&token).expect("decodes"), bytes.to_vec());
    }
}

#[test]
fn a_token_that_is_not_base64url_is_a_client_error() {
    for raw in ["not-base64!!", "a", "YQ==", "+/8"] {
        let error = decode_cursor_token(raw).expect_err("must reject");
        assert_eq!(error.code, ErrorCode::InvalidCursor);
        assert_eq!(error.status().as_u16(), 400);
    }
}

#[test]
fn a_cursor_holds_its_position() {
    let cursor = Cursor::new(1_786_341_600_000_000, 7);
    assert_eq!(cursor.created_at, 1_786_341_600_000_000);
    assert_eq!(cursor.id, 7);
}

/// The cursor's serialised form, as the server writes it inside a token.
fn serialised(cursor: &Cursor) -> Vec<u8> {
    let created_at = chrono::DateTime::from_timestamp_micros(cursor.created_at).expect("calendar time");
    format!(
        r#"{{"created_at":"{}","id":"{}"}}"#,
        created_at.to_rfc3339_opts(chrono::SecondsFormat::AutoSi, true),
        uuid::Uuid::from_u128(cursor.id)
    )
    .into_bytes()
}

fn parsed(bytes: &[u8]) -> Cursor {
    let value: serde_json::Value = serde_json::from_slice(bytes).expect("json");
    let created_at = chrono::DateTime::parse_from_rfc3339(value["created_at"].as_str().expect("text")).expect("time");
    let id = uuid::Uuid::parse_str(value["id"].as_str().expect("text")).expect("uuid");
    Cursor::new(created_at.timestamp_micros(), id.as_u128())
}

fn cursor() -> Cursor {
    Cursor::new(
        chrono::DateTime::parse_from_rfc3339("2026-08-10T06:00:00Z").expect("valid timestamp").timestamp_micros(),
        uuid::Uuid::parse_str("11111111-2222-3333-4444-555555555555").expect("valid uuid").as_u128(),
    )
}

#[test]
fn cursor_round_trips_through_its_encoding() {
    let original = cursor();
    let token = encode_cursor_token(&serialised(&original));
    let decoded = parsed(&decode_cursor_token(&token).expect("decodes"));
    assert_eq!(decoded, original);
}

#[test]
fn cursor_encoding_is_url_safe_and_unpadded() {
    let encoded = encode_cursor_token(&serialised(&cursor()));
    assert!(!encoded.contains('='), "{encoded} must not be padded");
    assert!(!encoded.contains('+') && !encoded.contains('/'), "{encoded} must be url-safe");
}
