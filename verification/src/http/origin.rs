//! The origin check on state-changing requests: defence in depth, since bearer tokens are
//! not sent by browsers on their own.

use vstd::prelude::*;

use crate::error::{ApiError, ErrorCode};
use crate::http::concurrency::{header_chars, header_text};
use crate::http::idempotency::is_state_changing;
use crate::privacy::texts;
use crate::text::{chars_eq, chars_of, push_str, string_of};

verus! {

/// Whether a request may proceed past the origin check: reads always may; a change may
/// when it carries no readable `Origin` (same-origin browsers and non-browser clients send
/// none), when no allowlist is configured, or when its origin is on the allowlist.
pub open spec fn origin_allowed(method: Seq<char>, origin: Option<Seq<u8>>, allowlist: Seq<Seq<char>>) -> bool {
    let changes = method == "POST"@ || method == "PUT"@ || method == "PATCH"@ || method == "DELETE"@;
    if !changes {
        true
    } else {
        match origin {
            None => true,
            Some(bytes) => match header_text(bytes) {
                None => true,
                Some(o) => allowlist.len() == 0 || allowlist.contains(o),
            },
        }
    }
}

fn listed(allowlist: &Vec<String>, origin: &Vec<char>) -> (r: bool)
    ensures
        r == texts(allowlist@).contains(origin@),
{
    let mut i: usize = 0;
    while i < allowlist.len()
        invariant
            0 <= i <= allowlist@.len(),
            forall|k: int| 0 <= k < i ==> #[trigger] texts(allowlist@)[k] != origin@,
        decreases allowlist@.len() - i,
    {
        let entry = chars_of(allowlist[i].as_str());
        if chars_eq(entry.as_slice(), origin.as_slice()) {
            assert(texts(allowlist@)[i as int] == origin@);
            return true;
        }
        i += 1;
    }
    false
}

/// Refuse a change whose `Origin` is not on the allowlist.
pub fn check_origin(method: &str, origin: Option<&[u8]>, allowlist: &Vec<String>) -> (r: Result<(), ApiError>)
    ensures
        origin_allowed(method@, match origin { Some(b) => Some(b@), None => None }, texts(allowlist@)) ==> r is Ok,
        !origin_allowed(method@, match origin { Some(b) => Some(b@), None => None }, texts(allowlist@))
            ==> (r matches Err(e) && e.code == ErrorCode::OriginNotAllowed),
{
    if !is_state_changing(method) {
        return Ok(());
    }
    let bytes = match origin {
        Some(b) => b,
        None => {
            return Ok(());
        },
    };
    let text = match header_chars(bytes) {
        Some(t) => t,
        None => {
            return Ok(());
        },
    };
    if allowlist.len() == 0 || listed(allowlist, &text) {
        return Ok(());
    }
    let mut note = "rejected origin ".to_string();
    push_str(&mut note, string_of(text.as_slice()).as_str());
    Err(ApiError::new(ErrorCode::OriginNotAllowed).internal(note.as_str()))
}

} // verus!
