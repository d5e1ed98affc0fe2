//! Naming the query parameter a request got wrong.

use vstd::prelude::*;

use crate::text::chars_of;

verus! {

/// How the query extractor's complaints begin when it can name the field.
pub const QUERY_PREFIX: &'static str = "Failed to deserialize query string: ";

/// The first position `j >= from` where `s` holds `": "`, or `None`.
pub open spec fn separator_at(s: Seq<char>, from: int) -> Option<int>
    decreases s.len() - from,
{
    if from + 1 >= s.len() {
        None
    } else if s[from] == ':' && s[from + 1] == ' ' {
        Some(from)
    } else {
        separator_at(s, from + 1)
    }
}

/// The parameter a rejection text names, or `query` when it names none: the text after
/// the prefix up to the first `": "`, unless that is empty or holds a space.
pub open spec fn offending(detail: Seq<char>) -> Seq<char> {
    let p = QUERY_PREFIX@;
    if !(detail.len() >= p.len() && detail.subrange(0, p.len() as int) == p) {
        "query"@
    } else {
        let rest = detail.subrange(p.len() as int, detail.len() as int);
        match separator_at(rest, 0) {
            None => "query"@,
            Some(j) => {
                let field = rest.subrange(0, j);
                if field.len() == 0 || field.contains(' ') {
                    "query"@
                } else {
                    field
                }
            },
        }
    }
}

/// Pull the parameter name out of the query extractor's rejection text, which reads
/// `Failed to deserialize query string: limit: invalid digit found in string`.
pub fn offending_parameter(detail: &str) -> (name: String)
    ensures
        name@ == offending(detail@),
{
    let d = chars_of(detail);
    let p = chars_of(QUERY_PREFIX);
    if d.len() < p.len() {
        return "query".to_string();
    }
    let mut i: usize = 0;
    while i < p.len()
        invariant
            0 <= i <= p@.len() <= d@.len(),
            d@ == detail@,
            p@ == QUERY_PREFIX@,
            d@.subrange(0, i as int) == p@.subrange(0, i as int),
        decreases p@.len() - i,
    {
        if d[i] != p[i] {
            assert(d@.subrange(0, p@.len() as int)[i as int] != p@[i as int]);
            return "query".to_string();
        }
        assert(d@.subrange(0, i + 1) == d@.subrange(0, i as int).push(d@[i as int]));
        assert(p@.subrange(0, i + 1) == p@.subrange(0, i as int).push(p@[i as int]));
        i += 1;
    }
    assert(p@.subrange(0, p@.len() as int) == p@);
    let ghost rest = d@.subrange(p@.len() as int, d@.len() as int);
    let start = p.len();
    let mut j: usize = start;
    while d.len() - j > 1 && !(d[j] == ':' && d[j + 1] == ' ')
        invariant
            start <= j <= d@.len(),
            start == p@.len(),
            rest == d@.subrange(start as int, d@.len() as int),
            separator_at(rest, 0) == separator_at(rest, j - start),
        decreases d@.len() - j,
    {
        j += 1;
    }
    if d.len() - j <= 1 {
        return "query".to_string();
    }
    assert(separator_at(rest, j - start) == Some(j - start));
    let mut field = String::new();
    let mut k = start;
    let mut spaced = false;
    while k < j
        invariant
            start <= k <= j < d@.len(),
            field@ == d@.subrange(start as int, k as int),
            spaced == d@.subrange(start as int, k as int).contains(' '),
        decreases j - k,
    {
        let c = d[k];
        proof {
            let s0 = d@.subrange(start as int, k as int);
            let s1 = d@.subrange(start as int, k + 1);
            assert(s1 == s0.push(c));
            if s1.contains(' ') && !s0.contains(' ') {
                let w = choose|w: int| 0 <= w < s1.len() && s1[w] == ' ';
                assert(w == s0.len());
            }
            if s0.contains(' ') {
                let w = choose|w: int| 0 <= w < s0.len() && s0[w] == ' ';
                assert(s1[w] == ' ');
            }
            if c == ' ' {
                assert(s1[s0.len() as int] == ' ');
            }
        }
        if c == ' ' {
            spaced = true;
        }
        crate::text::push_char(&mut field, c);
        k += 1;
    }
    assert(rest.subrange(0, j - start) == d@.subrange(start as int, j as int));
    if j == start || spaced {
        return "query".to_string();
    }
    field
}

} // verus!
