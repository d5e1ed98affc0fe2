//! Optimistic concurrency.
//!
//! Mutable aggregates carry a version that every update bumps. A client that read
//! version 7 sends it back, as `If-Match: "7"` or as `version` in the body, and the
//! update only applies to version 7. Zero rows changed means someone else got there
//! first, which is a conflict, not a silent overwrite.

use vstd::prelude::*;

use crate::error::{code_text, ApiError, ErrorCode};
use crate::text::{digit_char, i64_chars, int_text, nat_text, push_char, trim_back, trim_bounds, trim_front, trimmed};

verus! {

broadcast use vstd::seq_lib::group_seq_properties;

/// A byte a header value may hold and still read as text: visible ASCII or a tab.
pub open spec fn visible_ascii(b: u8) -> bool {
    (32 <= b && b < 127) || b == 9
}

/// The header value as text, when every byte is visible ASCII.
pub open spec fn header_text(bytes: Seq<u8>) -> Option<Seq<char>> {
    if forall|i: int| 0 <= i < bytes.len() ==> visible_ascii(#[trigger] bytes[i]) {
        Some(bytes.map_values(|b: u8| b as char))
    } else {
        None
    }
}

/// Every leading `W/` removed.
pub open spec fn strip_weak(s: Seq<char>) -> Seq<char>
    decreases s.len(),
{
    if s.len() >= 2 && s[0] == 'W' && s[1] == '/' {
        strip_weak(s.subrange(2, s.len() as int))
    } else {
        s
    }
}

/// Every leading and trailing `"` removed.
pub open spec fn strip_quotes_front(s: Seq<char>) -> Seq<char>
    decreases s.len(),
{
    if s.len() > 0 && s[0] == '"' {
        strip_quotes_front(s.drop_first())
    } else {
        s
    }
}

pub open spec fn strip_quotes_back(s: Seq<char>) -> Seq<char>
    decreases s.len(),
{
    if s.len() > 0 && s.last() == '"' {
        strip_quotes_back(s.drop_last())
    } else {
        s
    }
}

pub open spec fn is_digit(c: char) -> bool {
    '0' <= c && c <= '9'
}

/// The value of a run of decimal digits.
pub open spec fn digits_value(s: Seq<char>) -> int
    decreases s.len(),
{
    if s.len() == 0 {
        0
    } else {
        digits_value(s.drop_last()) * 10 + (s.last() as int - '0' as int)
    }
}

pub open spec fn all_digits(s: Seq<char>) -> bool {
    s.len() > 0 && forall|i: int| 0 <= i < s.len() ==> is_digit(#[trigger] s[i])
}

/// `str::parse::<i64>`: an optional sign, then one or more decimal digits, in range.
pub open spec fn parsed_i64(s: Seq<char>) -> Option<i64> {
    let signed = s.len() > 0 && (s[0] == '-' || s[0] == '+');
    let body = if signed { s.drop_first() } else { s };
    let v = if s.len() > 0 && s[0] == '-' { -digits_value(body) } else { digits_value(body) };
    if all_digits(body) && i64::MIN <= v <= i64::MAX {
        Some(v as i64)
    } else {
        None
    }
}

/// How an `If-Match` header reads.
#[derive(Debug, Clone, Copy, PartialEq, Eq, Structural)]
pub enum IfMatch {
    /// No header.
    Absent,
    /// `*`: any current version.
    Any,
    Version(i64),
    /// Not readable as text.
    Unreadable,
    /// Text, but not an integer version.
    NotInteger,
}

/// `If-Match` read as `"7"`, `W/"7"` or a bare `7`.
pub open spec fn if_match_of(raw: Option<Seq<u8>>) -> IfMatch {
    match raw {
        None => IfMatch::Absent,
        Some(bytes) => match header_text(bytes) {
            None => IfMatch::Unreadable,
            Some(text) => {
                let value = trimmed(text);
                if value == seq!['*'] {
                    IfMatch::Any
                } else {
                    match parsed_i64(strip_quotes_back(strip_quotes_front(strip_weak(value)))) {
                        Some(v) => IfMatch::Version(v),
                        None => IfMatch::NotInteger,
                    }
                }
            },
        },
    }
}

/// `str::parse::<i64>` on characters.
pub fn parse_i64(s: &[char]) -> (r: Option<i64>)
    ensures
        r == parsed_i64(s@),
{
    let n = s.len();
    let signed = n > 0 && (s[0] == '-' || s[0] == '+');
    let neg = n > 0 && s[0] == '-';
    let start: usize = if signed { 1 } else { 0 };
    let ghost body = if signed { s@.drop_first() } else { s@ };
    assert(body == s@.subrange(start as int, n as int));
    assert(signed == (s@.len() > 0 && (s@[0] == '-' || s@[0] == '+')));
    if start >= n {
        return None;
    }
    let limit: i128 = 9_223_372_036_854_775_808;
    let mut acc: i128 = 0;
    let mut over = false;
    let mut i = start;
    while i < n
        invariant
            start <= i <= n == s@.len(),
            body == s@.subrange(start as int, n as int),
            body == (if s@.len() > 0 && (s@[0] == '-' || s@[0] == '+') { s@.drop_first() } else { s@ }),
            limit == 9_223_372_036_854_775_808,
            forall|k: int| start <= k < i ==> is_digit(#[trigger] s@[k]),
            !over ==> acc == digits_value(body.take(i - start)) && 0 <= acc <= limit,
            over ==> digits_value(body.take(i - start)) > limit,
        decreases n - i,
    {
        let c = s[i];
        if !('0' <= c && c <= '9') {
            proof {
                assert(body[i - start] == s@[i as int]);
                assert(!is_digit(body[i - start]));
                assert(!all_digits(body));
                assert(parsed_i64(s@) is None);
            }
            return None;
        }
        proof {
            let t = body.take(i + 1 - start);
            assert(t.drop_last() == body.take(i - start));
            assert(t.last() == c);
        }
        let d = (c as u32 - '0' as u32) as i128;
        if !over {
            let next = acc * 10 + d;
            if next > limit {
                over = true;
            } else {
                acc = next;
            }
        }
        i += 1;
    }
    proof {
        assert(body.take(n - start) == body);
        assert forall|k: int| 0 <= k < body.len() implies is_digit(#[trigger] body[k]) by {
            assert(body[k] == s@[k + start]);
        }
    }
    if over {
        return None;
    }
    if neg {
        Some((-acc) as i64)
    } else if acc <= 9_223_372_036_854_775_807 {
        Some(acc as i64)
    } else {
        None
    }
}

pub(crate) fn header_chars(bytes: &[u8]) -> (r: Option<Vec<char>>)
    ensures
        match (r, header_text(bytes@)) {
            (Some(v), Some(t)) => v@ == t,
            (None, None) => true,
            _ => false,
        },
{
    let mut v: Vec<char> = Vec::new();
    let mut i: usize = 0;
    while i < bytes.len()
        invariant
            0 <= i <= bytes@.len(),
            v@ == bytes@.take(i as int).map_values(|b: u8| b as char),
            forall|k: int| 0 <= k < i ==> visible_ascii(#[trigger] bytes@[k]),
        decreases bytes@.len() - i,
    {
        let b = bytes[i];
        if !((32 <= b && b < 127) || b == 9) {
            return None;
        }
        v.push(b as char);
        assert(bytes@.take(i + 1).map_values(|b: u8| b as char) == bytes@.take(i as int).map_values(|b: u8| b as char).push(b as char));
        i += 1;
    }
    assert(bytes@.take(bytes@.len() as int) == bytes@);
    Some(v)
}

fn weak_end(value: &Vec<char>) -> (lo: usize)
    ensures
        lo <= value@.len(),
        strip_weak(value@) == value@.subrange(lo as int, value@.len() as int),
{
    let mut lo: usize = 0;
    while value.len() - lo >= 2 && value[lo] == 'W' && value[lo + 1] == '/'
        invariant
            lo <= value@.len(),
            strip_weak(value@) == strip_weak(value@.subrange(lo as int, value@.len() as int)),
        decreases value@.len() - lo,
    {
        assert(value@.subrange(lo as int, value@.len() as int).subrange(2, value@.len() - lo)
            == value@.subrange(lo + 2, value@.len() as int));
        lo += 2;
    }
    lo
}

fn quotes_front_end(value: &Vec<char>, from: usize) -> (lo: usize)
    requires
        from <= value@.len(),
    ensures
        from <= lo <= value@.len(),
        strip_quotes_front(value@.subrange(from as int, value@.len() as int)) == value@.subrange(lo as int, value@.len() as int),
{
    let hi = value.len();
    let mut lo = from;
    while lo < hi && value[lo] == '"'
        invariant
            from <= lo <= hi == value@.len(),
            strip_quotes_front(value@.subrange(from as int, hi as int)) == strip_quotes_front(value@.subrange(lo as int, hi as int)),
        decreases hi - lo,
    {
        assert(value@.subrange(lo as int, hi as int).drop_first() == value@.subrange(lo + 1, hi as int));
        lo += 1;
    }
    lo
}

fn quotes_back_start(value: &Vec<char>, lo: usize) -> (hi: usize)
    requires
        lo <= value@.len(),
    ensures
        lo <= hi <= value@.len(),
        strip_quotes_back(value@.subrange(lo as int, value@.len() as int)) == value@.subrange(lo as int, hi as int),
{
    let mut hi = value.len();
    while lo < hi && value[hi - 1] == '"'
        invariant
            lo <= hi <= value@.len(),
            strip_quotes_back(value@.subrange(lo as int, value@.len() as int)) == strip_quotes_back(value@.subrange(lo as int, hi as int)),
        decreases hi - lo,
    {
        assert(value@.subrange(lo as int, hi as int).drop_last() == value@.subrange(lo as int, hi - 1));
        hi -= 1;
    }
    hi
}

pub(crate) fn copy_range(value: &Vec<char>, lo: usize, hi: usize) -> (r: Vec<char>)
    requires
        lo <= hi <= value@.len(),
    ensures
        r@ == value@.subrange(lo as int, hi as int),
{
    let mut digits: Vec<char> = Vec::new();
    let mut k = lo;
    while k < hi
        invariant
            lo <= k <= hi <= value@.len(),
            digits@ == value@.subrange(lo as int, k as int),
        decreases hi - k,
    {
        digits.push(value[k]);
        assert(value@.subrange(lo as int, k + 1) == value@.subrange(lo as int, k as int).push(value@[k as int]));
        k += 1;
    }
    digits
}

/// `value` with every leading `W/`, then every leading and trailing `"`, removed.
fn version_text(value: &Vec<char>) -> (r: Vec<char>)
    ensures
        r@ == strip_quotes_back(strip_quotes_front(strip_weak(value@))),
{
    let a = weak_end(value);
    let b = quotes_front_end(value, a);
    let c = quotes_back_start(value, b);
    copy_range(value, b, c)
}

/// Read `If-Match`, given the header's raw bytes when it is present.
pub fn parse_if_match(raw: Option<&[u8]>) -> (r: Result<Option<i64>, ApiError>)
    ensures
        match if_match_of(match raw { Some(b) => Some(b@), None => None }) {
            IfMatch::Absent | IfMatch::Any => r == Ok::<Option<i64>, ApiError>(None),
            IfMatch::Version(v) => r == Ok::<Option<i64>, ApiError>(Some(v)),
            IfMatch::Unreadable => r matches Err(e) && e.code == ErrorCode::InvalidVersion
                && e.message@ == code_text(ErrorCode::InvalidVersion),
            IfMatch::NotInteger => r matches Err(e) && e.code == ErrorCode::InvalidVersion
                && e.message@ == "If-Match 는 정수 버전이어야 합니다."@,
        },
{
    let bytes = match raw {
        None => {
            return Ok(None);
        },
        Some(b) => b,
    };
    let text = match header_chars(bytes) {
        None => {
            return Err(ApiError::new(ErrorCode::InvalidVersion));
        },
        Some(t) => t,
    };
    let (a, b) = trim_bounds(text.as_slice());
    let mut value: Vec<char> = Vec::new();
    let mut i = a;
    while i < b
        invariant
            a <= i <= b <= text@.len(),
            value@ == text@.subrange(a as int, i as int),
        decreases b - i,
    {
        value.push(text[i]);
        assert(text@.subrange(a as int, i + 1) == text@.subrange(a as int, i as int).push(text@[i as int]));
        i += 1;
    }
    if value.len() == 1 && value[0] == '*' {
        assert(value@ == seq!['*']);
        return Ok(None);
    }
    assert(value@ != seq!['*']);
    let digits = version_text(&value);
    match parse_i64(digits.as_slice()) {
        Some(v) => Ok(Some(v)),
        None => Err(ApiError::with_message(ErrorCode::InvalidVersion, "If-Match 는 정수 버전이어야 합니다.")),
    }
}

/// The version the request expects, from `If-Match` or the body. The body's wins when
/// both are present and agree; a disagreement is rejected rather than guessed at.
pub fn expected_version(if_match: Option<&[u8]>, body_version: Option<i64>) -> (r: Result<Option<i64>, ApiError>)
    ensures
        match if_match_of(match if_match { Some(b) => Some(b@), None => None }) {
            IfMatch::Unreadable => r matches Err(e) && e.code == ErrorCode::InvalidVersion
                && e.message@ == code_text(ErrorCode::InvalidVersion),
            IfMatch::NotInteger => r matches Err(e) && e.code == ErrorCode::InvalidVersion
                && e.message@ == "If-Match 는 정수 버전이어야 합니다."@,
            IfMatch::Version(h) => match body_version {
                Some(b) => if h != b {
                    r matches Err(e) && e.code == ErrorCode::InvalidVersion
                        && e.message@ == "If-Match 헤더와 본문의 version 이 서로 다릅니다."@
                } else {
                    r == Ok::<Option<i64>, ApiError>(Some(b))
                },
                None => r == Ok::<Option<i64>, ApiError>(Some(h)),
            },
            IfMatch::Absent | IfMatch::Any => r == Ok::<Option<i64>, ApiError>(body_version),
        },
{
    let header = match parse_if_match(if_match) {
        Ok(h) => h,
        Err(e) => {
            return Err(e);
        },
    };
    match (header, body_version) {
        (Some(h), Some(b)) => {
            if h != b {
                Err(ApiError::with_message(
                    ErrorCode::InvalidVersion,
                    "If-Match 헤더와 본문의 version 이 서로 다릅니다.",
                ))
            } else {
                Ok(Some(b))
            }
        },
        (Some(h), None) => Ok(Some(h)),
        (None, b) => Ok(b),
    }
}

/// Turn an update's row count into a result: one row is success; none means the row
/// changed under us when it still exists, or is gone when it does not.
pub fn ensure_updated(rows_affected: u64, exists: bool) -> (r: Result<(), ApiError>)
    ensures
        rows_affected == 1 ==> r is Ok,
        rows_affected != 1 && exists ==> (r matches Err(e) && e.code == ErrorCode::VersionConflict),
        rows_affected != 1 && !exists ==> (r matches Err(e) && e.code == ErrorCode::NotFound),
{
    if rows_affected == 1 {
        return Ok(());
    }
    if exists {
        Err(ApiError::new(ErrorCode::VersionConflict))
    } else {
        Err(ApiError::not_found())
    }
}

/// The `ETag` of a version: the version, in double quotes.
pub open spec fn etag_text(version: int) -> Seq<char> {
    seq!['"'] + int_text(version) + seq!['"']
}

/// The `ETag` of a resource at a version: the version, in double quotes.
pub fn etag(version: i64) -> (s: String)
    ensures
        s@ == etag_text(version as int),
{
    let digits = i64_chars(version);
    let mut s = String::new();
    push_char(&mut s, '"');
    let mut i: usize = 0;
    while i < digits.len()
        invariant
            0 <= i <= digits@.len(),
            s@ == seq!['"'] + digits@.take(i as int),
        decreases digits@.len() - i,
    {
        push_char(&mut s, digits[i]);
        assert(digits@.take(i + 1) == digits@.take(i as int).push(digits@[i as int]));
        i += 1;
    }
    push_char(&mut s, '"');
    assert(digits@.take(digits@.len() as int) == digits@);
    s
}

/// The bytes of a header carrying ASCII text, one per character.
pub open spec fn ascii_bytes(s: Seq<char>) -> Seq<u8> {
    s.map_values(|c: char| c as u8)
}

proof fn lemma_digit_char(d: int)
    requires
        0 <= d < 10,
    ensures
        is_digit(digit_char(d)),
        digit_char(d) as int - '0' as int == d,
{
}

proof fn lemma_nat_text_reads_back(n: nat)
    ensures
        all_digits(nat_text(n)),
        digits_value(nat_text(n)) == n,
    decreases n,
{
    let s = nat_text(n);
    if n < 10 {
        lemma_digit_char(n as int);
        assert(s.drop_last() =~= Seq::<char>::empty());
        assert(digits_value(Seq::<char>::empty()) == 0);
        assert(digits_value(s) == digits_value(s.drop_last()) * 10 + (s.last() as int - '0' as int));
    } else {
        lemma_nat_text_reads_back(n / 10);
        lemma_digit_char((n % 10) as int);
        let t = nat_text(n / 10);
        assert(s == t.push(digit_char((n % 10) as int)));
        assert(s.drop_last() =~= t);
        assert(digits_value(s) == digits_value(t) * 10 + (n % 10));
        assert((n / 10) * 10 + n % 10 == n);
        assert forall|i: int| 0 <= i < s.len() implies is_digit(#[trigger] s[i]) by {
            if i < t.len() {
                assert(s[i] == t[i]);
            }
        }
    }
}

/// `int_text` reads back through `parsed_i64`, and starts and ends with no quote.
proof fn lemma_int_text_reads_back(v: i64)
    ensures
        parsed_i64(int_text(v as int)) == Some(v),
        int_text(v as int).len() > 0,
        int_text(v as int)[0] != '"',
        int_text(v as int).last() != '"',
{
    let s = int_text(v as int);
    if v < 0 {
        let n = (-(v as int)) as nat;
        lemma_nat_text_reads_back(n);
        assert(s.drop_first() =~= nat_text(n));
        assert(s.last() == nat_text(n).last());
        assert(is_digit(nat_text(n)[nat_text(n).len() - 1]));
    } else {
        let n = v as nat;
        lemma_nat_text_reads_back(n);
        assert(is_digit(s[0]));
        assert(is_digit(s[s.len() - 1]));
    }
}

/// An `ETag` this library issued, sent back as `If-Match`, reads as the version it was
/// issued for.
pub proof fn law_an_issued_etag_reads_back_as_its_version(v: i64)
    ensures
        if_match_of(Some(ascii_bytes(etag_text(v as int)))) == IfMatch::Version(v),
{
    let body = int_text(v as int);
    let t = etag_text(v as int);
    lemma_int_text_reads_back(v);
    let bytes = ascii_bytes(t);
    assert forall|i: int| 0 <= i < t.len() implies (#[trigger] t[i] == '"' || t[i] == '-' || is_digit(t[i])) by {
        if 0 < i < t.len() - 1 {
            assert(t[i] == body[i - 1]);
            if v < 0 {
                let n = (-(v as int)) as nat;
                lemma_nat_text_reads_back(n);
                if i > 1 {
                    assert(body[i - 1] == nat_text(n)[i - 2]);
                }
            } else {
                lemma_nat_text_reads_back(v as nat);
            }
        }
    }
    assert forall|i: int| 0 <= i < bytes.len() implies visible_ascii(#[trigger] bytes[i]) by {
        assert(t[i] == '"' || t[i] == '-' || is_digit(t[i]));
    }
    let back = bytes.map_values(|b: u8| b as char);
    assert(back =~= t) by {
        assert forall|i: int| 0 <= i < t.len() implies #[trigger] back[i] == t[i] by {
            assert(t[i] == '"' || t[i] == '-' || is_digit(t[i]));
        }
    }
    assert(header_text(bytes) == Some(t));
    assert(trim_front(t) == t);
    assert(trim_back(t) == t);
    assert(trimmed(t) == t);
    assert(t != seq!['*']) by {
        assert(t[0] == '"');
    }
    assert(strip_weak(t) == t);
    let rest = body + seq!['"'];
    assert(t.drop_first() =~= rest);
    assert(rest[0] == body[0]);
    assert(strip_quotes_front(rest) == rest);
    assert(strip_quotes_front(t) == rest);
    assert(rest.drop_last() =~= body);
    assert(strip_quotes_back(body) == body);
    assert(strip_quotes_back(rest) == body);
}

} // verus!
