//! The HTTP-facing rules: versions and idempotency, pagination, rate limits, request ids,
//! origins, credentials, readiness and the process counters.

use vstd::prelude::*;

use crate::http::concurrency::{header_chars, header_text};
use crate::text::{string_of, trim_bounds, trimmed};

pub mod auth;
pub mod concurrency;
pub mod health;
pub mod idempotency;
pub mod metrics;
pub mod origin;
pub mod pagination;
pub mod query;
pub mod response;
pub mod rate_limit;
pub mod request_id;

verus! {

/// Every endpoint lives under this prefix.
pub const API_BASE_PATH: &'static str = "/api/coupon/v1";

/// The text before the first `,`.
pub open spec fn first_segment(s: Seq<char>) -> Seq<char>
    decreases s.len(),
{
    if s.len() == 0 || s[0] == ',' {
        Seq::empty()
    } else {
        seq![s[0]] + first_segment(s.drop_first())
    }
}

/// The caller's address as the reverse proxy reports it: the first entry of
/// `X-Forwarded-For` when that header can be read, otherwise `X-Real-IP`; trimmed, and
/// `None` when nothing is left.
pub open spec fn client_ip_of(forwarded_for: Option<Seq<u8>>, real_ip: Option<Seq<u8>>) -> Option<Seq<char>> {
    let forwarded = match forwarded_for {
        Some(b) => header_text(b),
        None => None,
    };
    let raw = match forwarded {
        Some(t) => Some(first_segment(t)),
        None => match real_ip {
            Some(b) => header_text(b),
            None => None,
        },
    };
    match raw {
        Some(r) => if trimmed(r).len() > 0 { Some(trimmed(r)) } else { None },
        None => None,
    }
}

fn first_segment_of(text: &Vec<char>) -> (r: Vec<char>)
    ensures
        r@ == first_segment(text@),
{
    let n = text.len();
    let mut i: usize = 0;
    while i < n && text[i] != ','
        invariant
            0 <= i <= n == text@.len(),
            forall|k: int| 0 <= k < i ==> text@[k] != ',',
        decreases n - i,
    {
        i += 1;
    }
    let r = crate::http::concurrency::copy_range(text, 0, i);
    proof {
        lemma_first_segment(text@, i as int);
    }
    r
}

proof fn lemma_first_segment(s: Seq<char>, i: int)
    requires
        0 <= i <= s.len(),
        forall|k: int| 0 <= k < i ==> s[k] != ',',
        i == s.len() || s[i] == ',',
    ensures
        first_segment(s) == s.subrange(0, i),
    decreases i,
{
    if i > 0 {
        lemma_first_segment(s.drop_first(), i - 1);
        assert(s.subrange(0, i) =~= seq![s[0]] + s.drop_first().subrange(0, i - 1));
    } else {
        assert(s.subrange(0, 0) =~= Seq::<char>::empty());
    }
}

/// The caller's address, given the raw `X-Forwarded-For` and `X-Real-IP` headers. The
/// forwarded header is trusted because the API sits behind its own proxy.
pub fn client_ip(forwarded_for: Option<&[u8]>, real_ip: Option<&[u8]>) -> (r: Option<String>)
    ensures
        match client_ip_of(
            match forwarded_for { Some(b) => Some(b@), None => None },
            match real_ip { Some(b) => Some(b@), None => None },
        ) {
            Some(t) => r matches Some(s) && s@ == t,
            None => r is None,
        },
{
    let forwarded = match forwarded_for {
        Some(b) => header_chars(b),
        None => None,
    };
    let raw = match forwarded {
        Some(t) => Some(first_segment_of(&t)),
        None => match real_ip {
            Some(b) => header_chars(b),
            None => None,
        },
    };
    match raw {
        Some(r) => {
            let (a, b) = trim_bounds(r.as_slice());
            if a < b {
                Some(string_of(crate::http::concurrency::copy_range(&r, a, b).as_slice()))
            } else {
                None
            }
        },
        None => None,
    }
}

} // verus!
