//! Notification templates: which are sendable, and how one renders.
//!
//! Only the variables a template names are substituted, every value is escaped, and
//! substitution is a single pass, so a value can never smuggle in markup or a second
//! placeholder.

use vstd::prelude::*;

use crate::notifications::policy::NotificationPurpose;
use crate::notifications::NotificationChannel;
use crate::text::{chars_eq, chars_of, find_pair, is_control, is_ctrl, pair_at, push_char, push_str, string_of, trim_bounds, trimmed};

verus! {

broadcast use vstd::seq_lib::group_seq_properties;

/// The locale templates are written in.
pub const DEFAULT_LOCALE: &'static str = "ko-KR";

/// Named values, each name at most once, in the order first given.
#[derive(Debug, PartialEq, Eq)]
pub struct Variables {
    entries: Vec<(String, String)>,
}

pub open spec fn entry_view(e: (String, String)) -> (Seq<char>, Seq<char>) {
    (e.0@, e.1@)
}

pub open spec fn entries_view(es: Seq<(String, String)>) -> Seq<(Seq<char>, Seq<char>)> {
    es.map_values(|e: (String, String)| entry_view(e))
}

/// The value `s` holds for `key`, if any.
pub open spec fn lookup(s: Seq<(Seq<char>, Seq<char>)>, key: Seq<char>) -> Option<Seq<char>>
    decreases s.len(),
{
    if s.len() == 0 {
        None
    } else if s.last().0 == key {
        Some(s.last().1)
    } else {
        lookup(s.drop_last(), key)
    }
}

/// `s` with `key` set to `value`: replaced where it is, or added at the end.
pub open spec fn with_entry(s: Seq<(Seq<char>, Seq<char>)>, key: Seq<char>, value: Seq<char>) -> Seq<(Seq<char>, Seq<char>)> {
    if exists|i: int| 0 <= i < s.len() && s[i].0 == key {
        let i = choose|i: int| 0 <= i < s.len() && s[i].0 == key;
        s.update(i, (key, value))
    } else {
        s.push((key, value))
    }
}

pub open spec fn distinct_names(s: Seq<(Seq<char>, Seq<char>)>) -> bool {
    forall|i: int, j: int| 0 <= i < j < s.len() ==> s[i].0 != s[j].0
}

impl View for Variables {
    type V = Seq<(Seq<char>, Seq<char>)>;

    closed spec fn view(&self) -> Seq<(Seq<char>, Seq<char>)> {
        entries_view(self.entries@)
    }
}

proof fn lemma_lookup_found(s: Seq<(Seq<char>, Seq<char>)>, i: int)
    requires
        distinct_names(s),
        0 <= i < s.len(),
    ensures
        lookup(s, s[i].0) == Some(s[i].1),
    decreases s.len(),
{
    if i < s.len() - 1 {
        assert(s.last().0 != s[i].0);
        assert(s.drop_last()[i] == s[i]);
        lemma_lookup_found(s.drop_last(), i);
    }
}

proof fn lemma_lookup_missing(s: Seq<(Seq<char>, Seq<char>)>, key: Seq<char>)
    requires
        forall|i: int| 0 <= i < s.len() ==> #[trigger] s[i].0 != key,
    ensures
        lookup(s, key) is None,
    decreases s.len(),
{
    if s.len() > 0 {
        assert(s.last().0 != key);
        assert forall|i: int| 0 <= i < s.drop_last().len() implies #[trigger] s.drop_last()[i].0 != key by {
            assert(s.drop_last()[i] == s[i]);
        }
        lemma_lookup_missing(s.drop_last(), key);
    }
}

impl Variables {
    #[verifier::type_invariant]
    spec fn names_are_distinct(&self) -> bool {
        distinct_names(entries_view(self.entries@))
    }

    pub fn new() -> (v: Variables)
        ensures
            v@.len() == 0,
    {
        let entries: Vec<(String, String)> = Vec::new();
        assert(entries_view(entries@).len() == 0);
        assert(distinct_names(entries_view(entries@)));
        Variables { entries }
    }

    pub fn len(&self) -> (n: usize)
        ensures
            n == self@.len(),
    {
        self.entries.len()
    }

    fn position(&self, key: &str) -> (r: Option<usize>)
        ensures
            match r {
                Some(i) => i < self@.len() && self@[i as int].0 == key@,
                None => forall|i: int| 0 <= i < self@.len() ==> #[trigger] self@[i].0 != key@,
            },
    {
        let target = chars_of(key);
        let mut i: usize = 0;
        while i < self.entries.len()
            invariant
                0 <= i <= self@.len(),
                self@.len() == self.entries@.len(),
                target@ == key@,
                forall|k: int| 0 <= k < i ==> #[trigger] self@[k].0 != key@,
            decreases self.entries@.len() - i,
        {
            let here = chars_of(self.entries[i].0.as_str());
            assert(self@[i as int] == entry_view(self.entries@[i as int]));
            if chars_eq(here.as_slice(), target.as_slice()) {
                return Some(i);
            }
            i += 1;
        }
        None
    }

    /// The value named `key`, if any.
    pub fn get(&self, key: &str) -> (r: Option<String>)
        ensures
            match (r, lookup(self@, key@)) {
                (Some(a), Some(b)) => a@ == b,
                (None, None) => true,
                _ => false,
            },
    {
        proof {
            use_type_invariant(self);
        }
        match self.position(key) {
            Some(i) => {
                proof {
                    lemma_lookup_found(self@, i as int);
                }
                assert(self@[i as int] == entry_view(self.entries@[i as int]));
                Some(self.entries[i].1.as_str().to_string())
            },
            None => {
                proof {
                    lemma_lookup_missing(self@, key@);
                }
                None
            },
        }
    }

    pub fn contains_key(&self, key: &str) -> (r: bool)
        ensures
            r == (lookup(self@, key@) is Some),
    {
        self.get(key).is_some()
    }

    /// Set `key` to `value`.
    pub fn insert(&mut self, key: &str, value: &str)
        ensures
            final(self)@ == with_entry(old(self)@, key@, value@),
    {
        proof {
            use_type_invariant(&*self);
        }
        let ghost before = self@;
        match self.position(key) {
            Some(i) => {
                let mut entries: Vec<(String, String)> = Vec::new();
                std::mem::swap(&mut entries, &mut self.entries);
                let ghost pre = entries@;
                entries.set(i, (key.to_string(), value.to_string()));
                proof {
                    assert(entries_view(entries@)
                        == entries_view(pre).update(i as int, (key@, value@)));
                    let c = choose|c: int| 0 <= c < before.len() && before[c].0 == key@;
                    assert(c == i) by {
                        if c != i {
                            assert(distinct_names(before));
                        }
                    }
                    assert forall|a: int, b: int| 0 <= a < b < entries@.len() implies
                        #[trigger] entries_view(entries@)[a].0
                            != #[trigger] entries_view(entries@)[b].0 by {
                        assert(before[a].0 != before[b].0);
                    }
                }
                self.entries = entries;
            },
            None => {
                let mut entries: Vec<(String, String)> = Vec::new();
                std::mem::swap(&mut entries, &mut self.entries);
                let ghost pre = entries@;
                entries.push((key.to_string(), value.to_string()));
                proof {
                    assert(entries_view(entries@)
                        == entries_view(pre).push((key@, value@)));
                    assert forall|a: int, b: int| 0 <= a < b < entries@.len() implies
                        #[trigger] entries_view(entries@)[a].0
                            != #[trigger] entries_view(entries@)[b].0 by {
                        if b == entries@.len() - 1 {
                            assert(before[a].0 != key@);
                        } else {
                            assert(before[a].0 != before[b].0);
                        }
                    }
                }
                self.entries = entries;
            },
        }
    }
}

/// One immutable template version.
#[derive(Debug, Clone, PartialEq, Eq)]
pub struct NotificationTemplate {
    pub id: u128,
    pub code: String,
    pub version_no: i32,
    pub locale: String,
    pub channel: NotificationChannel,
    pub purpose: NotificationPurpose,
    /// The provider's own template id; Alimtalk cannot send without one.
    pub provider_template_id: Option<String>,
    pub provider_approval_status: Option<String>,
    pub subject_template: Option<String>,
    pub body_template: String,
    /// The allow-list: nothing else is substitutable.
    pub variables: Vec<String>,
    pub priority: String,
    pub active: bool,
}

impl NotificationTemplate {
    /// Whether the provider will accept this template today: it must be active, and an
    /// Alimtalk template must also carry the provider's id and be approved.
    pub fn is_sendable(&self) -> (r: bool)
        ensures
            r == (self.active && (self.channel == NotificationChannel::KakaoAlimtalk ==> (
                self.provider_template_id is Some
                && (self.provider_approval_status matches Some(s) && s@ == "APPROVED"@)))),
    {
        if !self.active {
            return false;
        }
        match self.channel {
            NotificationChannel::KakaoAlimtalk => {
                self.provider_template_id.is_some() && match &self.provider_approval_status {
                    Some(s) => crate::text::str_eq(s.as_str(), "APPROVED"),
                    None => false,
                }
            },
            _ => true,
        }
    }
}

/// What one character of a value becomes: markup characters are escaped, braces and
/// control characters dropped, and newlines and tabs turned into spaces.
pub open spec fn escaped_char(c: char) -> Seq<char> {
    if c == '&' {
        "&amp;"@
    } else if c == '<' {
        "&lt;"@
    } else if c == '>' {
        "&gt;"@
    } else if c == '"' {
        "&quot;"@
    } else if c == '\'' {
        "&#x27;"@
    } else if c == '{' || c == '}' {
        Seq::empty()
    } else if c == '\n' || c == '\t' {
        seq![' ']
    } else if is_ctrl(c) {
        Seq::empty()
    } else {
        seq![c]
    }
}

pub open spec fn escaped(s: Seq<char>) -> Seq<char>
    decreases s.len(),
{
    if s.len() == 0 {
        Seq::empty()
    } else {
        escaped(s.drop_last()) + escaped_char(s.last())
    }
}

/// Escape one substituted value.
pub fn escape(raw: &str) -> (out: String)
    ensures
        out@ == escaped(raw@),
{
    let chars = chars_of(raw);
    let mut out = String::new();
    let mut i: usize = 0;
    while i < chars.len()
        invariant
            0 <= i <= chars@.len(),
            chars@ == raw@,
            out@ == escaped(chars@.take(i as int)),
        decreases chars@.len() - i,
    {
        let c = chars[i];
        let ghost before = out@;
        if c == '&' {
            push_str(&mut out, "&amp;");
        } else if c == '<' {
            push_str(&mut out, "&lt;");
        } else if c == '>' {
            push_str(&mut out, "&gt;");
        } else if c == '"' {
            push_str(&mut out, "&quot;");
        } else if c == '\'' {
            push_str(&mut out, "&#x27;");
        } else if c == '{' || c == '}' {
        } else if c == '\n' || c == '\t' {
            push_char(&mut out, ' ');
        } else if is_control(c) {
        } else {
            push_char(&mut out, c);
        }
        proof {
            let t = chars@.take(i + 1);
            assert(t.drop_last() == chars@.take(i as int));
            assert(t.last() == c);
            assert(out@ == before + escaped_char(c));
        }
        i += 1;
    }
    assert(chars@.take(chars@.len() as int) == chars@);
    out
}

/// `source` with each `{{name}}` replaced, in one pass, by the value `values` holds for
/// the trimmed name (nothing when it holds none); an unterminated placeholder drops the
/// rest of the text.
pub open spec fn substituted(source: Seq<char>, values: Seq<(Seq<char>, Seq<char>)>) -> Seq<char>
    decreases source.len(),
{
    match pair_at(source, '{', '{', 0) {
        None => source,
        Some(start) => {
            let after = source.subrange(start + 2, source.len() as int);
            match pair_at(after, '}', '}', 0) {
                None => source.subrange(0, start),
                Some(end) => {
                    let name = trimmed(after.subrange(0, end));
                    let value = match lookup(values, name) {
                        Some(v) => v,
                        None => Seq::empty(),
                    };
                    proof {
                        lemma_pair_at_bounds(source, '{', '{', 0);
                        lemma_pair_at_bounds(after, '}', '}', 0);
                    }
                    source.subrange(0, start) + value + substituted(after.subrange(end + 2, after.len() as int), values)
                },
            }
        },
    }
}

pub proof fn lemma_pair_at_bounds(s: Seq<char>, a: char, b: char, from: int)
    requires
        0 <= from,
    ensures
        pair_at(s, a, b, from) matches Some(j) ==> from <= j && j + 1 < s.len() && s[j] == a && s[j + 1] == b,
    decreases s.len() - from,
{
    if from + 1 < s.len() && !(s[from] == a && s[from + 1] == b) {
        lemma_pair_at_bounds(s, a, b, from + 1);
    }
}

proof fn lemma_substituted_unfold(rest: Seq<char>, values: Seq<(Seq<char>, Seq<char>)>, start: int, end: int)
    requires
        pair_at(rest, '{', '{', 0) == Some(start),
        pair_at(rest.subrange(start + 2, rest.len() as int), '}', '}', 0) == Some(end),
    ensures
        ({
            let after = rest.subrange(start + 2, rest.len() as int);
            let value = match lookup(values, trimmed(after.subrange(0, end))) {
                Some(v) => v,
                None => Seq::empty(),
            };
            substituted(rest, values) == rest.subrange(0, start) + value
                + substituted(after.subrange(end + 2, after.len() as int), values)
        }),
{
}

/// The text before the next placeholder of `chars[i..]` and the placeholder's value,
/// and where the rest starts (`None` when nothing follows).
fn expand_next(chars: &Vec<char>, i: usize, values: &Variables) -> (r: (String, Option<usize>))
    requires
        i <= chars@.len(),
    ensures
        match r.1 {
            Some(j) => i < j <= chars@.len() && r.0@ + substituted(chars@.subrange(j as int, chars@.len() as int), values@)
                == substituted(chars@.subrange(i as int, chars@.len() as int), values@),
            None => r.0@ == substituted(chars@.subrange(i as int, chars@.len() as int), values@),
        },
{
    let n = chars.len();
    let ghost rest = chars@.subrange(i as int, n as int);
    proof {
        lemma_pair_at_bounds(rest, '{', '{', 0);
    }
    match find_pair(chars, i, '{', '{') {
        None => {
            let tail = string_of(crate::http::concurrency::copy_range(chars, i, n).as_slice());
            (tail, None)
        },
        Some(start) => {
            let head = string_of(crate::http::concurrency::copy_range(chars, i, start).as_slice());
            assert(head@ == rest.subrange(0, start - i));
            let ghost after = rest.subrange(start - i + 2, rest.len() as int);
            assert(after == chars@.subrange(start + 2, n as int));
            proof {
                lemma_pair_at_bounds(after, '}', '}', 0);
            }
            match find_pair(chars, start + 2, '}', '}') {
                None => (head, None),
                Some(end) => {
                    let raw_name = crate::http::concurrency::copy_range(chars, start + 2, end);
                    assert(raw_name@ == after.subrange(0, end - start - 2));
                    let (a, b) = trim_bounds(raw_name.as_slice());
                    let name = string_of(crate::http::concurrency::copy_range(&raw_name, a, b).as_slice());
                    let value = match values.get(name.as_str()) {
                        Some(v) => v,
                        None => String::new(),
                    };
                    let mut piece = head;
                    push_str(&mut piece, value.as_str());
                    proof {
                        let next = chars@.subrange(end + 2, n as int);
                        assert(next == after.subrange(end - start - 2 + 2, after.len() as int));
                        lemma_substituted_unfold(rest, values@, start - i, end - start - 2);
                    }
                    (piece, Some(end + 2))
                },
            }
        },
    }
}

/// Replace `{{name}}` with the already-escaped value, and erase any placeholder the
/// values do not cover.
pub fn substitute(source: &str, values: &Variables) -> (out: String)
    ensures
        out@ == substituted(source@, values@),
{
    let chars = chars_of(source);
    let n = chars.len();
    let mut out = String::new();
    let mut i: usize = 0;
    assert(chars@.subrange(0, n as int) == chars@);
    loop
        invariant
            0 <= i <= n == chars@.len(),
            chars@ == source@,
            out@ + substituted(chars@.subrange(i as int, n as int), values@) == substituted(source@, values@),
        decreases n - i,
    {
        let (piece, next) = expand_next(&chars, i, values);
        push_str(&mut out, piece.as_str());
        match next {
            None => {
                return out;
            },
            Some(j) => {
                i = j;
            },
        }
    }
}

/// What actually goes to the provider.
#[derive(Debug, PartialEq, Eq)]
pub struct RenderedMessage {
    pub subject: String,
    pub body: String,
    /// The escaped values that were substituted, kept so the send is reproducible.
    pub variables: Variables,
}

/// The allow-listed values: each name the template lists, with the escaped value supplied
/// for it (empty when none was).
pub open spec fn allowed_values(names: Seq<Seq<char>>, supplied: Seq<(Seq<char>, Seq<char>)>) -> Seq<(Seq<char>, Seq<char>)>
    decreases names.len(),
{
    if names.len() == 0 {
        Seq::empty()
    } else {
        let name = names.last();
        let value = match lookup(supplied, name) {
            Some(v) => escaped(v),
            None => Seq::empty(),
        };
        with_entry(allowed_values(names.drop_last(), supplied), name, value)
    }
}

/// Substitute the allow-listed variables and escape every one of them. `supplied` may
/// hold more than the template asks for; only what the template names is used.
pub fn render(template: &NotificationTemplate, supplied: &Variables) -> (m: RenderedMessage)
    ensures
        m.variables@ == allowed_values(template.variables@.map_values(|s: String| s@), supplied@),
        m.subject@ == substituted(
            match template.subject_template { Some(s) => s@, None => Seq::empty() },
            m.variables@,
        ),
        m.body@ == substituted(template.body_template@, m.variables@),
{
    let ghost names = template.variables@.map_values(|s: String| s@);
    let mut allowed = Variables::new();
    let mut i: usize = 0;
    while i < template.variables.len()
        invariant
            0 <= i <= template.variables@.len(),
            names == template.variables@.map_values(|s: String| s@),
            allowed@ == allowed_values(names.take(i as int), supplied@),
        decreases template.variables@.len() - i,
    {
        let name = template.variables[i].as_str();
        let value = match supplied.get(name) {
            Some(raw) => escape(raw.as_str()),
            None => String::new(),
        };
        allowed.insert(name, value.as_str());
        proof {
            let t = names.take(i + 1);
            assert(t.drop_last() == names.take(i as int));
            assert(t.last() == name@);
        }
        i += 1;
    }
    assert(names.take(names.len() as int) == names);
    let subject = match &template.subject_template {
        Some(s) => substitute(s.as_str(), &allowed),
        None => substitute("", &allowed),
    };
    proof {
        reveal_strlit("");
    }
    let body = substitute(template.body_template.as_str(), &allowed);
    RenderedMessage { subject, body, variables: allowed }
}

/// Reads the templates; its own type so callers cannot reach the table directly.
#[derive(Debug, Clone, Copy, Default, PartialEq, Eq)]
pub struct TemplateRepository;

impl TemplateRepository {
    pub fn new() -> (r: TemplateRepository) {
        TemplateRepository
    }
}

/// No escaped value carries markup or a brace: user-supplied HTML never reaches a
/// payload, and a value can never become a placeholder.
pub proof fn law_escaped_values_carry_no_markup_or_braces(raw: Seq<char>)
    ensures
        forall|i: int| 0 <= i < escaped(raw).len() ==> {
            let c = #[trigger] escaped(raw)[i];
            c != '<' && c != '>' && c != '{' && c != '}' && c != '"' && c != '\''
        },
    decreases raw.len(),
{
    if raw.len() > 0 {
        law_escaped_values_carry_no_markup_or_braces(raw.drop_last());
        let c = raw.last();
        reveal_strlit("&amp;");
        reveal_strlit("&lt;");
        reveal_strlit("&gt;");
        reveal_strlit("&quot;");
        reveal_strlit("&#x27;");
        let head = escaped(raw.drop_last());
        let tail = escaped_char(c);
        assert forall|i: int| 0 <= i < escaped(raw).len() implies {
            let d = #[trigger] escaped(raw)[i];
            d != '<' && d != '>' && d != '{' && d != '}' && d != '"' && d != '\''
        } by {
            if i < head.len() {
                assert(escaped(raw)[i] == head[i]);
            } else {
                assert(escaped(raw)[i] == tail[i - head.len()]);
            }
        }
    }
}

} // verus!
