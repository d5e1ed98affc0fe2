//! Request and transaction identifiers.
//!
//! Every response carries the request's id, and every successful change also carries a
//! transaction id, so a client's retry story and the logs share one identifier.

use vstd::prelude::*;

use crate::http::concurrency::{header_chars, header_text};
use crate::ident::{is_v4, random_uuid, uuid_nibble, uuid_simple_string, uuid_simple_text, uuid_string, uuid_text};
use crate::text::hex_char;
use crate::text::{push_str, string_of};

verus! {

pub const REQUEST_ID_HEADER: &'static str = "x-request-id";

/// A freshly generated request id: `req_` and the simple form of some version-4 UUID.
pub open spec fn generated_id(s: Seq<char>) -> bool {
    exists|id: u128| is_v4(id) && s == "req_"@ + #[trigger] uuid_simple_text(id)
}

/// Human-scannable, greppable, and plainly not a UUID a client should reuse.
pub fn generate() -> (s: String)
    ensures
        generated_id(s@),
        s@.len() == 36,
        s@[16] == '4',
        s@[20] == '8' || s@[20] == '9' || s@[20] == 'a' || s@[20] == 'b',
{
    let id = random_uuid();
    let mut s = "req_".to_string();
    let simple = uuid_simple_string(id);
    push_str(&mut s, simple.as_str());
    proof {
        reveal_strlit("req_");
        assert(s@ == "req_"@ + uuid_simple_text(id));
        assert(s@[16] == hex_char(uuid_nibble(id, 12)));
        assert(s@[20] == hex_char(uuid_nibble(id, 16)));
    }
    s
}

/// A character a caller-supplied request id may hold.
pub open spec fn id_char(c: char) -> bool {
    ('a' <= c && c <= 'z') || ('A' <= c && c <= 'Z') || ('0' <= c && c <= '9') || c == '-' || c == '_'
}

/// A caller's id is honoured only when it is readable, 1 to 64 characters long, and made
/// of letters, digits, `-` and `_`; anything else could inject into the logs.
pub open spec fn honoured_id(raw: Option<Seq<u8>>) -> Option<Seq<char>> {
    match raw {
        Some(bytes) => match header_text(bytes) {
            Some(t) => if 1 <= t.len() <= 64 && (forall|i: int| 0 <= i < t.len() ==> id_char(#[trigger] t[i])) {
                Some(t)
            } else {
                None
            },
            None => None,
        },
        None => None,
    }
}

/// The caller's `X-Request-Id`, when it may be honoured.
pub fn supplied_request_id(raw: Option<&[u8]>) -> (r: Option<String>)
    ensures
        match honoured_id(match raw { Some(b) => Some(b@), None => None }) {
            Some(t) => r matches Some(s) && s@ == t,
            None => r is None,
        },
{
    let bytes = match raw {
        Some(b) => b,
        None => {
            return None;
        },
    };
    let text = match header_chars(bytes) {
        Some(t) => t,
        None => {
            return None;
        },
    };
    if text.len() < 1 || text.len() > 64 {
        return None;
    }
    let mut i: usize = 0;
    while i < text.len()
        invariant
            0 <= i <= text@.len(),
            1 <= text@.len() <= 64,
            raw == Some(bytes),
            header_text(bytes@) == Some(text@),
            forall|k: int| 0 <= k < i ==> id_char(#[trigger] text@[k]),
        decreases text@.len() - i,
    {
        let c = text[i];
        if !(('a' <= c && c <= 'z') || ('A' <= c && c <= 'Z') || ('0' <= c && c <= '9') || c == '-' || c == '_') {
            assert(!id_char(text@[i as int]));
            return None;
        }
        i += 1;
    }
    Some(string_of(text.as_slice()))
}

/// The id a request runs under: the caller's when it may be honoured, otherwise a new one.
pub fn request_id_for(raw: Option<&[u8]>) -> (s: String)
    ensures
        match honoured_id(match raw { Some(b) => Some(b@), None => None }) {
            Some(t) => s@ == t,
            None => generated_id(s@),
        },
{
    match supplied_request_id(raw) {
        Some(s) => s,
        None => generate(),
    }
}

/// The identifier of one logical change, written to the domain tables and echoed to the
/// client.
#[derive(Debug, Clone, Copy, PartialEq, Eq, Structural)]
pub struct TransactionId(pub u128);

impl TransactionId {
    /// A fresh, random identifier: a version-4 UUID.
    pub fn new() -> (t: TransactionId)
        ensures
            is_v4(t.0),
    {
        TransactionId(random_uuid())
    }

    pub fn as_uuid(self) -> (id: u128)
        ensures
            id == self.0,
    {
        self.0
    }

    /// The hyphenated form echoed to clients.
    pub fn to_string(self) -> (s: String)
        ensures
            s@ == uuid_text(self.0),
    {
        uuid_string(self.0)
    }
}

} // verus!
