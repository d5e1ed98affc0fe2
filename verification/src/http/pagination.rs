//! Cursor pagination shared by every list endpoint: twenty rows by default, a hundred
//! at most. One row more than the page is fetched, and its presence says whether there
//! is a next page.

use base64::Engine;
use vstd::prelude::*;

use crate::error::{ApiError, ErrorCode};

verus! {

pub const DEFAULT_PAGE_SIZE: u32 = 20;
pub const MAX_PAGE_SIZE: u32 = 100;

/// `?limit=&cursor=` on any list endpoint.
#[derive(Debug, Clone, Default, PartialEq, Eq)]
pub struct PageQuery {
    /// 1 to 100, default 20.
    pub limit: Option<u32>,
    /// The previous page's `next_cursor`.
    pub cursor: Option<String>,
}

/// The page size a requested limit comes to: the default when absent, then clamped into
/// `1..=100` rather than rejected.
pub open spec fn page_size(limit: Option<u32>) -> u32 {
    let l = match limit {
        Some(l) => l,
        None => DEFAULT_PAGE_SIZE,
    };
    if l < 1 { 1 } else if l > MAX_PAGE_SIZE { MAX_PAGE_SIZE } else { l }
}

impl PageQuery {
    pub fn limit(&self) -> (n: u32)
        ensures
            n == page_size(self.limit),
    {
        let l = match self.limit {
            Some(l) => l,
            None => DEFAULT_PAGE_SIZE,
        };
        if l < 1 {
            1
        } else if l > MAX_PAGE_SIZE {
            MAX_PAGE_SIZE
        } else {
            l
        }
    }

    /// Rows to ask the database for: one extra reveals whether more exist.
    pub fn fetch_limit(&self) -> (n: i64)
        ensures
            n == page_size(self.limit) + 1,
    {
        self.limit() as i64 + 1
    }
}

/// One page of results.
#[derive(Debug, Clone, PartialEq, Eq)]
pub struct Page<T> {
    pub items: Vec<T>,
    /// Pass back as `?cursor=` for the next page; `None` on the last page.
    pub next_cursor: Option<String>,
    pub has_more: bool,
}

impl<T> Page<T> {
    /// A page from an over-fetched row set of up to `limit + 1` rows: the extra row is
    /// dropped and only decides `has_more`, and `cursor_of` reads the next position off
    /// the last row kept.
    pub fn from_rows<F: Fn(&T) -> String>(rows: Vec<T>, limit: u32, cursor_of: F) -> (p: Page<T>)
        requires
            forall|t: &T| #[trigger] cursor_of.requires((t,)),
        ensures
            p.has_more == (rows@.len() > limit),
            p.items@ == if rows@.len() > limit { rows@.subrange(0, limit as int) } else { rows@ },
            match p.next_cursor {
                Some(c) => p.has_more && p.items@.len() > 0 && cursor_of.ensures((&p.items@.last(),), c),
                None => !p.has_more || p.items@.len() == 0,
            },
    {
        let mut rows = rows;
        let has_more = rows.len() > limit as usize;
        rows.truncate(limit as usize);
        let next_cursor = if has_more && rows.len() > 0 {
            let last = &rows[rows.len() - 1];
            Some(cursor_of(last))
        } else {
            None
        };
        Page { items: rows, next_cursor, has_more }
    }

    pub fn empty() -> (p: Page<T>)
        ensures
            p.items@.len() == 0,
            p.next_cursor is None,
            !p.has_more,
    {
        Page { items: Vec::new(), next_cursor: None, has_more: false }
    }
}

/// A keyset position: the row's creation time (microseconds since the epoch) and its id,
/// which breaks ties between rows sharing a timestamp.
#[derive(Debug, Clone, Copy, PartialEq, Eq, Structural)]
pub struct Cursor {
    pub created_at: i64,
    pub id: u128,
}

impl Cursor {
    pub fn new(created_at: i64, id: u128) -> (c: Cursor)
        ensures
            c.created_at == created_at,
            c.id == id,
    {
        Cursor { created_at, id }
    }
}

/// The URL-safe base64 spelling, without padding, of `bytes`.
pub uninterp spec fn base64url_text(bytes: Seq<u8>) -> Seq<char>;

/// The bytes an unpadded URL-safe base64 text decodes to, when it is one.
pub uninterp spec fn base64url_bytes(text: Seq<char>) -> Option<Seq<u8>>;

/// A character of the URL-safe base64 alphabet.
pub open spec fn url_safe(c: char) -> bool {
    ('A' <= c && c <= 'Z') || ('a' <= c && c <= 'z') || ('0' <= c && c <= '9') || c == '-' || c == '_'
}

/// `base64::engine::general_purpose::URL_SAFE_NO_PAD.encode(bytes)`: the crate documents
/// this engine as the URL-safe alphabet (`A`-`Z`, `a`-`z`, `0`-`9`, `-`, `_`) with no
/// padding, which is all that is stated of the text beyond naming it.
#[verifier::external_body]
fn base64url_encode(bytes: &[u8]) -> (t: String)
    ensures
        t@ == base64url_text(bytes@),
        forall|i: int| 0 <= i < t@.len() ==> url_safe(#[trigger] t@[i]),
{
    base64::engine::general_purpose::URL_SAFE_NO_PAD.encode(bytes)
}

/// `base64::engine::general_purpose::URL_SAFE_NO_PAD.decode(text)`, with the crate's
/// error as its display text. Decoding what the same engine encoded gives the bytes back.
#[verifier::external_body]
fn base64url_decode(text: &str) -> (r: Result<Vec<u8>, String>)
    ensures
        match r {
            Ok(v) => base64url_bytes(text@) == Some(v@),
            Err(_) => base64url_bytes(text@) is None,
        },
        match r {
            Ok(v) => forall|b: Seq<u8>| #[trigger] base64url_text(b) == text@ ==> v@ == b,
            Err(_) => forall|b: Seq<u8>| #[trigger] base64url_text(b) != text@,
        },
{
    match base64::engine::general_purpose::URL_SAFE_NO_PAD.decode(text.as_bytes()) {
        Ok(v) => Ok(v),
        Err(e) => Err(e.to_string()),
    }
}

/// The opaque token handed to clients for a cursor's serialised form: URL-safe, with no
/// padding to escape.
pub fn encode_cursor_token(serialised: &[u8]) -> (t: String)
    ensures
        t@ == base64url_text(serialised@),
        forall|i: int| 0 <= i < t@.len() ==> url_safe(#[trigger] t@[i]),
{
    base64url_encode(serialised)
}

/// The serialised cursor a client's token carries. A token that is not unpadded URL-safe
/// base64 is the client's error, never a panic, and carries the decoder's own account of
/// the fault for the logs; a token this library issued always reads back as what it was
/// made from.
pub fn decode_cursor_token(raw: &str) -> (r: Result<Vec<u8>, ApiError>)
    ensures
        match base64url_bytes(raw@) {
            Some(b) => r matches Ok(v) && v@ == b,
            None => r matches Err(e) && e.code == ErrorCode::InvalidCursor && e.internal is Some,
        },
        forall|b: Seq<u8>| #[trigger] base64url_text(b) == raw@ ==> (r matches Ok(v) && v@ == b),
{
    match base64url_decode(raw) {
        Ok(v) => Ok(v),
        Err(detail) => Err(ApiError::new(ErrorCode::InvalidCursor).internal(detail.as_str())),
    }
}

} // verus!
