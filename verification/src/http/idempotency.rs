//! Idempotency for state-changing requests.
//!
//! Every state-changing request carries an `Idempotency-Key`. The key and a hash of the
//! body are recorded before the handler runs:
//!
//! * same key, same body, completed: the stored response is replayed verbatim;
//! * same key, same body, still running: a retryable conflict;
//! * same key, different body: a conflict that retrying will not fix.
//!
//! A failed attempt releases its key so the caller can correct the request and retry.

use vstd::prelude::*;

use crate::error::{ApiError, ErrorCode};
use crate::http::concurrency::header_text;
use crate::ident::{parse_uuid, sha256, sha256_digest, uuid_parsed};
use crate::text::{hex_encode, hex_text, str_eq, string_of, trim_bounds, trimmed};

verus! {

pub const IDEMPOTENCY_KEY_HEADER: &'static str = "idempotency-key";
/// Set on a replayed response so a client can tell it did not cause a new change.
pub const REPLAY_HEADER: &'static str = "idempotent-replay";

/// How a recorded attempt stands.
#[derive(Debug, Clone, Copy, PartialEq, Eq, Structural)]
pub enum RecordStatus {
    Processing,
    Completed,
    Failed,
}

impl RecordStatus {
    /// Anything unrecognised reads as still processing.
    pub fn from_db(raw: &str) -> (st: RecordStatus)
        ensures
            st == (if raw@ == "COMPLETED"@ {
                RecordStatus::Completed
            } else if raw@ == "FAILED"@ {
                RecordStatus::Failed
            } else {
                RecordStatus::Processing
            }),
    {
        if str_eq(raw, "COMPLETED") {
            RecordStatus::Completed
        } else if str_eq(raw, "FAILED") {
            RecordStatus::Failed
        } else {
            RecordStatus::Processing
        }
    }
}

/// A previously recorded attempt under one key.
#[derive(Debug, Clone, PartialEq, Eq)]
pub struct StoredRequest {
    pub request_hash: String,
    pub status: RecordStatus,
    pub response_status: Option<i32>,
    pub response_body: Option<String>,
}

/// What to do about an incoming request, given whatever is already recorded.
#[derive(Debug, Clone, PartialEq, Eq)]
pub enum Decision {
    /// No usable record: run the handler.
    Proceed,
    /// The identical request already succeeded: return the stored response.
    Replay { status: u16, body: String },
    /// The identical request is still in flight.
    InProgress,
    /// Same key, different body: the client reused a key it must not have.
    KeyReused,
}

/// What the idempotency rule decides for a request with body hash `hash`, given the
/// record already held under its key.
pub open spec fn decided(existing: Option<StoredRequest>, hash: Seq<char>, d: Decision) -> bool {
    match existing {
        None => d == Decision::Proceed,
        Some(e) => if e.request_hash@ != hash {
            d == Decision::KeyReused
        } else {
            match e.status {
                RecordStatus::Processing => d == Decision::InProgress,
                RecordStatus::Failed => d == Decision::Proceed,
                RecordStatus::Completed => match (e.response_status, e.response_body) {
                    (Some(st), Some(body)) => d matches Decision::Replay { status, body: b }
                        && status == st as u16 && b@ == body@,
                    _ => d == Decision::Proceed,
                },
            }
        },
    }
}

/// The idempotency rule. The body hash is checked before anything else: a request must
/// never be served a response that belongs to a different one.
pub fn decide(existing: Option<&StoredRequest>, request_hash: &str) -> (d: Decision)
    ensures
        decided(match existing { Some(e) => Some(*e), None => None }, request_hash@, d),
{
    let existing = match existing {
        None => {
            return Decision::Proceed;
        },
        Some(e) => e,
    };
    if !str_eq(existing.request_hash.as_str(), request_hash) {
        return Decision::KeyReused;
    }
    match existing.status {
        RecordStatus::Processing => Decision::InProgress,
        RecordStatus::Failed => Decision::Proceed,
        RecordStatus::Completed => match (existing.response_status, &existing.response_body) {
            (Some(status), Some(body)) => Decision::Replay {
                status: status as u16,
                body: body.as_str().to_string(),
            },
            _ => Decision::Proceed,
        },
    }
}

/// The error a refused request is answered with, if the decision refuses it.
pub fn refusal(decision: &Decision) -> (e: Option<ApiError>)
    ensures
        match *decision {
            Decision::InProgress => e matches Some(err) && err.code == ErrorCode::IdempotencyRequestInProgress,
            Decision::KeyReused => e matches Some(err) && err.code == ErrorCode::IdempotencyKeyReused,
            _ => e is None,
        },
{
    match decision {
        Decision::InProgress => Some(ApiError::new(ErrorCode::IdempotencyRequestInProgress)),
        Decision::KeyReused => Some(ApiError::new(ErrorCode::IdempotencyKeyReused)),
        _ => None,
    }
}

/// Whether a method changes state and so needs a key.
pub fn is_state_changing(method: &str) -> (r: bool)
    ensures
        r == (method@ == "POST"@ || method@ == "PUT"@ || method@ == "PATCH"@ || method@ == "DELETE"@),
{
    str_eq(method, "POST") || str_eq(method, "PUT") || str_eq(method, "PATCH") || str_eq(method, "DELETE")
}

/// The request's idempotency key: required, and a UUID once trimmed.
pub fn idempotency_key(raw: Option<&[u8]>) -> (r: Result<u128, ApiError>)
    ensures
        match match raw { Some(b) => header_text(b@), None => None } {
            None => r matches Err(e) && e.code == ErrorCode::IdempotencyKeyRequired,
            Some(text) => match uuid_parsed(trimmed(text)) {
                Some(id) => r == Ok::<u128, ApiError>(id),
                None => r matches Err(e) && e.code == ErrorCode::IdempotencyKeyInvalid,
            },
        },
{
    let bytes = match raw {
        None => {
            return Err(ApiError::new(ErrorCode::IdempotencyKeyRequired));
        },
        Some(b) => b,
    };
    let text = match crate::http::concurrency::header_chars(bytes) {
        None => {
            return Err(ApiError::new(ErrorCode::IdempotencyKeyRequired));
        },
        Some(t) => t,
    };
    let (a, b) = trim_bounds(text.as_slice());
    let trimmed_text = string_of(crate::http::concurrency::copy_range(&text, a, b).as_slice());
    match parse_uuid(trimmed_text.as_str()) {
        Some(id) => Ok(id),
        None => Err(ApiError::new(ErrorCode::IdempotencyKeyInvalid).internal("invalid idempotency key")),
    }
}

/// Hex SHA-256 of a request body, sized to fit a `char(64)` column.
pub fn hash_body(body: &[u8]) -> (h: String)
    ensures
        h@ == hex_text(sha256_digest(body@)),
{
    let digest = sha256(body);
    hex_encode(digest.as_slice())
}

/// A key reused with a different body is refused whatever state its record is in: a
/// request is never served another request's response, nor allowed to run under its key.
pub proof fn law_a_mismatched_body_outranks_the_record_state(e: StoredRequest, hash: Seq<char>, d: Decision)
    requires
        decided(Some(e), hash, d),
        e.request_hash@ != hash,
    ensures
        d == Decision::KeyReused,
{
}

/// Repeating a request that completed replays the stored response verbatim, and a
/// repeat after a failure runs again.
pub proof fn law_an_identical_repeat_replays_or_reruns(e: StoredRequest, d: Decision)
    requires
        decided(Some(e), e.request_hash@, d),
    ensures
        e.status == RecordStatus::Completed && e.response_status is Some && e.response_body is Some ==>
            (d matches Decision::Replay { status, body } && status == e.response_status->0 as u16
                && body@ == e.response_body->0@),
        e.status == RecordStatus::Failed ==> d == Decision::Proceed,
        e.status == RecordStatus::Processing ==> d == Decision::InProgress,
{
}

} // verus!
