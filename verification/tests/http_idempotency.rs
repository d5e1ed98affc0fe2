use coupon_api_server::error::{ApiError, ErrorCode};
use coupon_api_server::http::idempotency::{
    decide, hash_body, idempotency_key, is_state_changing, refusal, Decision, RecordStatus, StoredRequest,
};

fn stored(status: RecordStatus, hash: &str) -> StoredRequest {
    StoredRequest {
        request_hash: hash.to_owned(),
        status,
        response_status: Some(201),
        response_body: Some(r#"{"data":{"id":"u1"}}"#.to_owned()),
    }
}

#[test]
fn an_unseen_key_proceeds() {
    assert_eq!(decide(None, "abc"), Decision::Proceed);
}

#[test]
fn the_same_key_and_body_replays_the_stored_response() {
    let decision = decide(Some(&stored(RecordStatus::Completed, "abc")), "abc");
    assert_eq!(decision, Decision::Replay { status: 201, body: r#"{"data":{"id":"u1"}}"#.to_owned() });
}

#[test]
fn the_same_key_with_a_different_body_is_a_conflict() {
    let decision = decide(Some(&stored(RecordStatus::Completed, "abc")), "different");
    assert_eq!(decision, Decision::KeyReused);
    assert_eq!(ApiError::new(ErrorCode::IdempotencyKeyReused).status().as_u16(), 409);
}

#[test]
fn a_mismatched_body_outranks_the_record_state() {
    for status in [RecordStatus::Processing, RecordStatus::Failed, RecordStatus::Completed] {
        assert_eq!(decide(Some(&stored(status, "abc")), "different"), Decision::KeyReused);
    }
}

#[test]
fn an_in_flight_duplicate_is_told_to_wait() {
    assert_eq!(decide(Some(&stored(RecordStatus::Processing, "abc")), "abc"), Decision::InProgress);
    assert!(
        ErrorCode::IdempotencyRequestInProgress.retryable(),
        "the client should be told this one is worth retrying"
    );
}

#[test]
fn a_failed_attempt_frees_the_key_for_an_identical_retry() {
    assert_eq!(decide(Some(&stored(RecordStatus::Failed, "abc")), "abc"), Decision::Proceed);
}

#[test]
fn a_completed_record_without_a_response_reruns_rather_than_inventing_one() {
    let partial = StoredRequest { response_status: None, response_body: None, ..stored(RecordStatus::Completed, "abc") };
    assert_eq!(decide(Some(&partial), "abc"), Decision::Proceed);
}

#[test]
fn body_hashes_are_hex_sha256_and_content_sensitive() {
    let hash = hash_body(r#"{"name":"가게"}"#.as_bytes());
    assert_eq!(hash.len(), 64, "must fit the char(64) column");
    assert!(hash.chars().all(|c| c.is_ascii_hexdigit()));
    assert_eq!(hash, hash_body(r#"{"name":"가게"}"#.as_bytes()));
    assert_ne!(hash, hash_body(r#"{"name":"다른가게"}"#.as_bytes()));
    assert_eq!(hash_body(b"").len(), 64, "an empty body still hashes");
}

#[test]
fn body_hashes_are_the_lowercase_sha256_digest() {
    assert_eq!(hash_body(b""), "e3b0c44298fc1c149afbf4c8996fb92427ae41e4649b934ca495991b7852b855");
    assert_eq!(hash_body(b"abc"), "ba7816bf8f01cfea414140de5dae2223b00361a396177a9cb410ff61f20015ad");
}

#[test]
fn refused_decisions_carry_their_error_and_the_rest_carry_none() {
    assert_eq!(refusal(&Decision::InProgress).expect("refused").code, ErrorCode::IdempotencyRequestInProgress);
    assert_eq!(refusal(&Decision::KeyReused).expect("refused").code, ErrorCode::IdempotencyKeyReused);
    assert!(refusal(&Decision::Proceed).is_none());
    assert!(refusal(&Decision::Replay { status: 200, body: String::new() }).is_none());
}

#[test]
fn only_state_changing_methods_need_a_key() {
    for method in ["POST", "PUT", "PATCH", "DELETE"] {
        assert!(is_state_changing(method), "{method}");
    }
    for method in ["GET", "HEAD", "OPTIONS", "post"] {
        assert!(!is_state_changing(method), "{method}");
    }
}

#[test]
fn the_key_is_a_trimmed_uuid() {
    let raw = "  67e55044-10b1-426f-9247-bb680e5fe0c8 ";
    assert_eq!(idempotency_key(Some(raw.as_bytes())).expect("valid"), 0x67e5504410b1426f9247bb680e5fe0c8u128);
}

#[test]
fn a_missing_or_malformed_key_is_refused() {
    assert_eq!(idempotency_key(None).expect_err("missing").code, ErrorCode::IdempotencyKeyRequired);
    assert_eq!(idempotency_key(Some(b"not-a-uuid")).expect_err("malformed").code, ErrorCode::IdempotencyKeyInvalid);
    let opaque: &[u8] = &[0xc3, 0x28];
    assert_eq!(idempotency_key(Some(opaque)).expect_err("unreadable").code, ErrorCode::IdempotencyKeyRequired);
}

#[test]
fn stored_statuses_read_from_their_database_spelling() {
    assert_eq!(RecordStatus::from_db("COMPLETED"), RecordStatus::Completed);
    assert_eq!(RecordStatus::from_db("FAILED"), RecordStatus::Failed);
    assert_eq!(RecordStatus::from_db("PROCESSING"), RecordStatus::Processing);
    assert_eq!(RecordStatus::from_db("anything"), RecordStatus::Processing);
}

#[test]
fn the_accrual_reads_the_same_key_the_middleware_recorded() {
    let key = uuid::Uuid::new_v4();
    let header = key.to_string();
    assert_eq!(idempotency_key(Some(header.as_bytes())).expect("parses"), key.as_u128());
}

#[test]
fn a_missing_or_malformed_key_is_a_client_error() {
    assert_eq!(idempotency_key(None).expect_err("missing").code, ErrorCode::IdempotencyKeyRequired);
    assert_eq!(idempotency_key(Some(b"not-a-uuid")).expect_err("malformed").code, ErrorCode::IdempotencyKeyInvalid);
}
