//! Per-window request limits for the abuse-prone endpoints.
//!
//! Every ceiling is an operational setting, not a constant. Redis holds the shared
//! counter when it is available; when it is not, an in-process counter still slows a
//! single node's attacker down, and a limiter outage never becomes an API outage.

use vstd::prelude::*;

use crate::error::{ApiError, ErrorCode};
use crate::text::{chars_eq, chars_of, i64_chars, int_text, nat_text, push_char, push_str, u64_chars};

verus! {

broadcast use vstd::seq_lib::group_seq_properties;

/// Window length of the per-minute buckets.
pub const WINDOW_SECONDS: i64 = 60;
/// Window length of the two authentication buckets.
pub const TEN_MINUTE_WINDOW_SECONDS: i64 = 600;

/// Instants are whole seconds since the epoch, within this distance of it (the range a
/// calendar time can hold).
pub const INSTANT_RANGE: i64 = 8_000_000_000_000;

/// The rate-limited actions.
#[derive(Debug, Clone, Copy, PartialEq, Eq, Structural)]
pub enum Bucket {
    /// QR issuance, keyed by user.
    QrIssue,
    /// Failed QR resolution, keyed by owner and IP. Successes are not counted.
    QrResolveFailure,
    /// Accrual approval, keyed by store and owner.
    StampApproval,
    /// First-come coupon claims, keyed by user and campaign.
    CampaignClaim,
    /// Starting a login, keyed by IP, per ten minutes.
    LoginStart,
    /// Failed Kakao callbacks, keyed by IP and state prefix, per ten minutes.
    KakaoCallbackFailure,
}

pub open spec fn bucket_text(b: Bucket) -> Seq<char> {
    match b {
        Bucket::QrIssue => "qr_issue"@,
        Bucket::QrResolveFailure => "qr_resolve_failure"@,
        Bucket::StampApproval => "stamp_approval"@,
        Bucket::CampaignClaim => "campaign_claim"@,
        Bucket::LoginStart => "login_start"@,
        Bucket::KakaoCallbackFailure => "kakao_callback_failure"@,
    }
}

pub open spec fn window_of(b: Bucket) -> i64 {
    match b {
        Bucket::LoginStart | Bucket::KakaoCallbackFailure => TEN_MINUTE_WINDOW_SECONDS,
        _ => WINDOW_SECONDS,
    }
}

impl Bucket {
    pub fn as_str(self) -> (s: &'static str)
        ensures
            s@ == bucket_text(self),
    {
        match self {
            Bucket::QrIssue => "qr_issue",
            Bucket::QrResolveFailure => "qr_resolve_failure",
            Bucket::StampApproval => "stamp_approval",
            Bucket::CampaignClaim => "campaign_claim",
            Bucket::LoginStart => "login_start",
            Bucket::KakaoCallbackFailure => "kakao_callback_failure",
        }
    }

    /// How long this bucket's window is.
    pub fn window_seconds(self) -> (n: i64)
        ensures
            n == window_of(self),
    {
        match self {
            Bucket::LoginStart | Bucket::KakaoCallbackFailure => TEN_MINUTE_WINDOW_SECONDS,
            _ => WINDOW_SECONDS,
        }
    }
}

/// Whether a request that brings the window's count to `count` is allowed. A limit of
/// zero means unlimited, so a blank setting fails open rather than closing the endpoint.
pub open spec fn allowed(count: u64, limit: u32) -> bool {
    limit == 0 || count <= limit
}

pub fn within_limit(count: u64, limit: u32) -> (r: bool)
    ensures
        r == allowed(count, limit),
{
    limit == 0 || count <= limit as u64
}

/// The window `now` falls in: `floor(now / window_seconds)`.
pub fn window_index(now: i64, window_seconds: i64) -> (w: i64)
    requires
        window_seconds > 0,
    ensures
        w == now as int / window_seconds as int,
{
    if now >= 0 {
        now / window_seconds
    } else {
        let m = -(now + 1);
        let q = m / window_seconds;
        assert(-(q as int) - 1 == now as int / window_seconds as int) by (nonlinear_arith)
            requires
                m == -(now + 1),
                now < 0,
                q == m / window_seconds,
                window_seconds > 0;
        -q - 1
    }
}

/// When window `window` ends.
pub fn window_end(window: i64, window_seconds: i64) -> (t: i64)
    requires
        window_seconds > 0,
        (window + 1) * window_seconds <= i64::MAX,
        (window + 1) * window_seconds >= i64::MIN,
    ensures
        t == (window + 1) * window_seconds,
{
    let w = window as i128 + 1;
    let t = w * window_seconds as i128;
    t as i64
}

/// `coupon:rl:{bucket}:{key}:{window}`, the counter's name.
pub open spec fn counter_key_text(b: Bucket, key: Seq<char>, window: int) -> Seq<char> {
    "coupon:rl:"@ + bucket_text(b) + ":"@ + key + ":"@ + int_text(window)
}

fn push_chars(s: &mut String, v: &Vec<char>)
    ensures
        final(s)@ == old(s)@ + v@,
{
    let ghost before = s@;
    let mut i: usize = 0;
    while i < v.len()
        invariant
            0 <= i <= v@.len(),
            s@ == before + v@.take(i as int),
        decreases v@.len() - i,
    {
        push_char(s, v[i]);
        assert(v@.take(i + 1) == v@.take(i as int).push(v@[i as int]));
        i += 1;
    }
    assert(v@.take(v@.len() as int) == v@);
}

pub fn counter_key(bucket: Bucket, key: &str, window: i64) -> (s: String)
    ensures
        s@ == counter_key_text(bucket, key@, window as int),
{
    let mut s = "coupon:rl:".to_string();
    push_str(&mut s, bucket.as_str());
    push_str(&mut s, ":");
    push_str(&mut s, key);
    push_str(&mut s, ":");
    push_chars(&mut s, &i64_chars(window));
    s
}

/// One in-process counter: its key, its count and when its window ends.
#[derive(Debug, Clone, PartialEq, Eq)]
pub struct LocalCounter {
    pub key: String,
    pub count: u64,
    pub expires_at: i64,
}

pub open spec fn counter_view(c: LocalCounter) -> (Seq<char>, u64, i64) {
    (c.key@, c.count, c.expires_at)
}

/// The counters whose windows are still open at `now`, in order.
pub open spec fn live(s: Seq<(Seq<char>, u64, i64)>, now: int) -> Seq<(Seq<char>, u64, i64)>
    decreases s.len(),
{
    if s.len() == 0 {
        Seq::empty()
    } else {
        let rest = live(s.drop_last(), now);
        if s.last().2 > now {
            rest.push(s.last())
        } else {
            rest
        }
    }
}

/// The position of `key` among `s`, if it is there.
pub open spec fn position_of(s: Seq<(Seq<char>, u64, i64)>, key: Seq<char>) -> Option<int> {
    if exists|i: int| 0 <= i < s.len() && s[i].0 == key {
        Some(choose|i: int| 0 <= i < s.len() && s[i].0 == key)
    } else {
        None
    }
}

pub open spec fn distinct_keys(s: Seq<(Seq<char>, u64, i64)>) -> bool {
    forall|i: int, j: int| 0 <= i < j < s.len() ==> s[i].0 != s[j].0
}

/// In-process counters, used when the shared counter cannot be reached. Expired
/// counters are dropped on every count, so a long-running process does not keep one per
/// key it has ever seen; each counter keeps its own expiry, so a per-minute rollover
/// never wipes a ten-minute counter.
#[derive(Debug, PartialEq, Eq)]
pub struct LocalCounters {
    counters: Vec<LocalCounter>,
}

impl View for LocalCounters {
    type V = Seq<(Seq<char>, u64, i64)>;

    closed spec fn view(&self) -> Seq<(Seq<char>, u64, i64)> {
        self.counters@.map_values(|c: LocalCounter| counter_view(c))
    }
}

proof fn lemma_live_sub(s: Seq<(Seq<char>, u64, i64)>, now: int)
    ensures
        forall|i: int| #![trigger live(s, now)[i]] 0 <= i < live(s, now).len() ==> live(s, now)[i].2 > now && s.contains(live(s, now)[i]),
        distinct_keys(s) ==> distinct_keys(live(s, now)),
        live(s, now).len() <= s.len(),
    decreases s.len(),
{
    if s.len() > 0 {
        let t = s.drop_last();
        lemma_live_sub(t, now);
        assert forall|i: int| #![trigger live(s, now)[i]] 0 <= i < live(s, now).len() implies live(s, now)[i].2 > now && s.contains(live(s, now)[i]) by {
            if i < live(t, now).len() {
                assert(live(s, now)[i] == live(t, now)[i]);
                assert(t.contains(live(t, now)[i]));
                let w = choose|w: int| 0 <= w < t.len() && t[w] == live(t, now)[i];
                assert(s[w] == t[w]);
            } else {
                assert(s[s.len() - 1] == live(s, now)[i]);
            }
        }
        if distinct_keys(s) {
            assert(distinct_keys(t)) by {
                assert forall|i: int, j: int| 0 <= i < j < t.len() implies t[i].0 != t[j].0 by {
                    assert(t[i] == s[i] && t[j] == s[j]);
                }
            }
            if s.last().2 > now {
                assert forall|i: int, j: int| 0 <= i < j < live(s, now).len() implies live(s, now)[i].0 != live(s, now)[j].0 by {
                    if j == live(s, now).len() - 1 {
                        assert(t.contains(live(t, now)[i]));
                        let w = choose|w: int| 0 <= w < t.len() && t[w] == live(t, now)[i];
                        assert(s[w] == t[w]);
                        assert(live(s, now)[i] == live(t, now)[i]);
                        assert(live(s, now)[j] == s[s.len() - 1]);
                    } else {
                        assert(live(s, now)[i] == live(t, now)[i]);
                        assert(live(s, now)[j] == live(t, now)[j]);
                    }
                }
            }
        }
    }
}

/// The count after one more request: one up, holding at the largest count.
pub open spec fn bumped(c: u64) -> u64 {
    if c == u64::MAX { c } else { (c + 1) as u64 }
}

impl LocalCounters {
    /// No key is counted twice.
    #[verifier::type_invariant]
    spec fn keys_distinct(self) -> bool {
        distinct_keys(self@)
    }

    pub fn new() -> (c: LocalCounters)
        ensures
            c@.len() == 0,
    {
        LocalCounters { counters: Vec::new() }
    }

    /// How many counters are held.
    pub fn len(&self) -> (n: usize)
        ensures
            n == self@.len(),
    {
        self.counters.len()
    }

    /// Drop expired counters, then count one request against `key`, starting its counter
    /// (ending at `expires_at`) if it has none. Returns the count after this request.
    pub fn count(&mut self, key: &str, expires_at: i64, now: i64) -> (n: u64)
        ensures
            distinct_keys(final(self)@),
            match position_of(live(old(self)@, now as int), key@) {
                Some(p) => {
                    &&& n == bumped(live(old(self)@, now as int)[p].1)
                    &&& final(self)@ == live(old(self)@, now as int).update(p, (key@, n, live(old(self)@, now as int)[p].2))
                },
                None => {
                    &&& n == 1
                    &&& final(self)@ == live(old(self)@, now as int).push((key@, 1u64, expires_at))
                },
            },
    {
        proof {
            use_type_invariant(&*self);
        }
        let ghost before = self@;
        let mut kept: Vec<LocalCounter> = Vec::new();
        let mut i: usize = 0;
        while i < self.counters.len()
            invariant
                0 <= i <= self.counters@.len(),
                before == self@,
                before == self.counters@.map_values(|c: LocalCounter| counter_view(c)),
                kept@.map_values(|c: LocalCounter| counter_view(c)) == live(before.take(i as int), now as int),
            decreases self.counters@.len() - i,
        {
            let c = &self.counters[i];
            proof {
                let t = before.take(i + 1);
                assert(t.drop_last() == before.take(i as int));
                assert(t.last() == counter_view(self.counters@[i as int]));
            }
            if c.expires_at > now {
                let copy = LocalCounter { key: c.key.as_str().to_string(), count: c.count, expires_at: c.expires_at };
                let ghost old_kept = kept@;
                kept.push(copy);
                assert(kept@.map_values(|c: LocalCounter| counter_view(c))
                    == old_kept.map_values(|c: LocalCounter| counter_view(c)).push(counter_view(copy)));
            }
            i += 1;
        }
        assert(before.take(before.len() as int) == before);
        let ghost kv = live(before, now as int);
        proof {
            lemma_live_sub(before, now as int);
        }
        let target = chars_of(key);
        let mut j: usize = 0;
        let mut found = false;
        while j < kept.len() && !found
            invariant
                0 <= j <= kept@.len(),
                kept@.map_values(|c: LocalCounter| counter_view(c)) == kv,
                target@ == key@,
                found ==> j < kept@.len() && kv[j as int].0 == key@,
                !found ==> forall|k: int| 0 <= k < j ==> #[trigger] kv[k].0 != key@,
            decreases kept@.len() - j + (if found { 0int } else { 1int }),
        {
            let here = chars_of(kept[j].key.as_str());
            if chars_eq(here.as_slice(), target.as_slice()) {
                found = true;
            } else {
                j += 1;
            }
        }
        if found {
            assert(kv[j as int].0 == key@);
            assert(position_of(kv, key@) == Some(j as int)) by {
                let p = choose|p: int| 0 <= p < kv.len() && kv[p].0 == key@;
                assert(distinct_keys(kv));
            }
            let old_entry = &kept[j];
            let ghost old_count = old_entry.count;
            assert(old_count == kv[j as int].1);
            assert(before.contains(kv[j as int]));
            let next = if old_entry.count == u64::MAX { u64::MAX } else { old_entry.count + 1 };
            let updated = LocalCounter {
                key: old_entry.key.as_str().to_string(),
                count: next,
                expires_at: old_entry.expires_at,
            };
            let n = updated.count;
            let ghost pre = kept@;
            kept.set(j, updated);
            let ghost after = kept@.map_values(|c: LocalCounter| counter_view(c));
            assert(after == pre.map_values(|c: LocalCounter| counter_view(c)).update(j as int, counter_view(updated)));
            proof {
                assert forall|a: int, b: int| 0 <= a < b < after.len() implies after[a].0 != after[b].0 by {
                    if a == j {
                        assert(after[a].0 == kv[a].0);
                    }
                    if b == j {
                        assert(after[b].0 == kv[b].0);
                    }
                }
            }
            self.counters = kept;
            n
        } else {
            assert(position_of(kv, key@) is None);
            let fresh = LocalCounter { key: key.to_string(), count: 1, expires_at };
            let ghost pre = kept@;
            kept.push(fresh);
            let ghost after = kept@.map_values(|c: LocalCounter| counter_view(c));
            assert(after == pre.map_values(|c: LocalCounter| counter_view(c)).push(counter_view(fresh)));
            proof {
                assert forall|a: int, b: int| 0 <= a < b < after.len() implies after[a].0 != after[b].0 by {
                    if b == after.len() - 1 {
                        assert(kv[a].0 != key@);
                    }
                }
            }
            self.counters = kept;
            1
        }
    }
}

/// The note a refusal carries for the logs: `{bucket} over {limit} per {window}s`.
pub open spec fn refusal_note(b: Bucket, limit: u32) -> Seq<char> {
    bucket_text(b) + " over "@ + nat_text(limit as nat) + " per "@ + int_text(window_of(b) as int) + "s"@
}

/// The verdict on a request that brought its window's count to `count`.
pub fn verdict(bucket: Bucket, count: u64, limit: u32) -> (r: Result<(), ApiError>)
    ensures
        allowed(count, limit) ==> r is Ok,
        !allowed(count, limit) ==> (r matches Err(e) && e.code == ErrorCode::RateLimited
            && (e.internal matches Some(note) && note@ == refusal_note(bucket, limit))),
{
    if within_limit(count, limit) {
        return Ok(());
    }
    let mut note = bucket.as_str().to_string();
    push_str(&mut note, " over ");
    push_chars(&mut note, &u64_chars(limit as u64));
    push_str(&mut note, " per ");
    push_chars(&mut note, &i64_chars(bucket.window_seconds()));
    push_str(&mut note, "s");
    Err(ApiError::new(ErrorCode::RateLimited).internal(note.as_str()))
}

/// The limiter's in-process half.
#[derive(Debug, PartialEq, Eq)]
pub struct RateLimiter {
    local: LocalCounters,
}

impl View for RateLimiter {
    type V = Seq<(Seq<char>, u64, i64)>;

    closed spec fn view(&self) -> Seq<(Seq<char>, u64, i64)> {
        self.local@
    }
}

/// The count a request against `key` reaches on the in-process counters.
pub open spec fn local_count(counters: Seq<(Seq<char>, u64, i64)>, key: Seq<char>, now: int) -> int {
    match position_of(live(counters, now), key) {
        Some(p) => bumped(live(counters, now)[p].1) as int,
        None => 1,
    }
}

/// The in-process counters after one more request against `key` at `now`: expired
/// counters dropped, then the key's counter bumped, or started at one to end at
/// `expires_at` when it has none.
pub open spec fn counted(counters: Seq<(Seq<char>, u64, i64)>, key: Seq<char>, now: int, expires_at: i64) -> Seq<(Seq<char>, u64, i64)> {
    let l = live(counters, now);
    match position_of(l, key) {
        Some(p) => l.update(p, (key, bumped(l[p].1), l[p].2)),
        None => l.push((key, 1u64, expires_at)),
    }
}

/// The end of the window of `bucket` that `now` falls in.
pub open spec fn window_end_of(bucket: Bucket, now: int) -> int {
    (now / window_of(bucket) as int + 1) * window_of(bucket) as int
}

impl RateLimiter {
    pub fn new() -> (r: RateLimiter)
        ensures
            r@.len() == 0,
    {
        RateLimiter { local: LocalCounters::new() }
    }

    pub fn local_counters(&self) -> (n: usize)
        ensures
            n == self@.len(),
    {
        self.local.len()
    }

    /// Count one request and refuse it if its window is already full. `shared` is the
    /// count the shared counter reached, when it could be reached; otherwise the request
    /// is counted in process.
    pub fn check(&mut self, bucket: Bucket, key: &str, limit: u32, now: i64, shared: Option<u64>) -> (r: Result<(), ApiError>)
        requires
            -INSTANT_RANGE <= now <= INSTANT_RANGE,
        ensures
            limit == 0 ==> r is Ok && final(self)@ == old(self)@,
            limit != 0 && shared is Some ==> final(self)@ == old(self)@
                && (r is Ok <==> allowed(shared->0, limit)),
            limit != 0 && shared is None ==> (r is Ok <==> local_count(
                old(self)@,
                counter_key_text(bucket, key@, now as int / window_of(bucket) as int),
                now as int,
            ) <= limit),
            limit != 0 && shared is None ==> final(self)@ == counted(
                old(self)@,
                counter_key_text(bucket, key@, now as int / window_of(bucket) as int),
                now as int,
                window_end_of(bucket, now as int) as i64,
            ),
            r matches Err(e) ==> e.code == ErrorCode::RateLimited,
    {
        if limit == 0 {
            return Ok(());
        }
        let count = match shared {
            Some(c) => c,
            None => {
                let ws = bucket.window_seconds();
                let window = window_index(now, ws);
                assert((window + 1) * ws <= now + ws) by (nonlinear_arith)
                    requires
                        window == now as int / ws as int,
                        ws > 0;
                assert((window + 1) * ws > now) by (nonlinear_arith)
                    requires
                        window == now as int / ws as int,
                        ws > 0;
                let name = counter_key(bucket, key, window);
                let n = self.local.count(name.as_str(), window_end(window, ws), now);
                n
            },
        };
        verdict(bucket, count, limit)
    }
}

/// A limit of zero never refuses anything; any other limit admits exactly the requests
/// that bring the window's count up to it, and refuses every one after.
pub proof fn law_requests_are_refused_once_the_window_is_full(count: u64, limit: u32)
    ensures
        limit == 0 ==> allowed(count, limit),
        limit > 0 ==> (allowed(count, limit) <==> count <= limit),
        limit > 0 && count > limit ==> !allowed((count + 1) as u64, limit) || count == u64::MAX,
{
}

/// Counted in process, a subject whose window already holds `limit` requests is refused
/// its next one, and a window that has ended counts afresh.
pub proof fn law_a_full_local_window_refuses_and_an_ended_one_starts_fresh(
    counters: Seq<(Seq<char>, u64, i64)>,
    key: Seq<char>,
    now: int,
    limit: u32,
)
    requires
        distinct_keys(counters),
        limit > 0,
    ensures
        (forall|i: int| 0 <= i < counters.len() && #[trigger] counters[i].0 == key ==> counters[i].2 <= now)
            ==> local_count(counters, key, now) == 1,
        (exists|i: int| 0 <= i < counters.len() && #[trigger] counters[i].0 == key && counters[i].2 > now
            && counters[i].1 >= limit) ==> local_count(counters, key, now) > limit,
{
    lemma_live_sub(counters, now);
    let l = live(counters, now);
    if forall|i: int| 0 <= i < counters.len() && #[trigger] counters[i].0 == key ==> counters[i].2 <= now {
        assert forall|i: int| 0 <= i < l.len() implies l[i].0 != key by {
            assert(counters.contains(l[i]));
            let w = choose|w: int| 0 <= w < counters.len() && counters[w] == l[i];
        }
        assert(position_of(l, key) is None);
    }
    if exists|i: int| 0 <= i < counters.len() && #[trigger] counters[i].0 == key && counters[i].2 > now
        && counters[i].1 >= limit {
        let i = choose|i: int| 0 <= i < counters.len() && #[trigger] counters[i].0 == key && counters[i].2 > now
            && counters[i].1 >= limit;
        lemma_live_keeps(counters, now, i);
        let p = choose|p: int| 0 <= p < l.len() && l[p].0 == key;
        assert(l.contains(l[p]));
        assert(counters.contains(l[p]));
        let w = choose|w: int| 0 <= w < counters.len() && counters[w] == l[p];
        assert(w == i);
    }
}

proof fn lemma_live_keeps(s: Seq<(Seq<char>, u64, i64)>, now: int, i: int)
    requires
        0 <= i < s.len(),
        s[i].2 > now,
    ensures
        exists|p: int| 0 <= p < live(s, now).len() && live(s, now)[p] == s[i],
    decreases s.len(),
{
    if i < s.len() - 1 {
        lemma_live_keeps(s.drop_last(), now, i);
        let p = choose|p: int| 0 <= p < live(s.drop_last(), now).len() && live(s.drop_last(), now)[p] == s.drop_last()[i];
        assert(live(s, now)[p] == live(s.drop_last(), now)[p]);
    } else {
        assert(live(s, now)[live(s, now).len() - 1] == s[i]);
    }
}

proof fn lemma_local_count_at(s: Seq<(Seq<char>, u64, i64)>, k: Seq<char>, t: int, i: int)
    requires
        distinct_keys(s),
        0 <= i < s.len(),
        s[i].0 == k,
        s[i].2 > t,
    ensures
        local_count(s, k, t) == bumped(s[i].1) as int,
{
    lemma_live_sub(s, t);
    lemma_live_keeps(s, t, i);
    let l = live(s, t);
    let p = choose|p: int| 0 <= p < l.len() && l[p] == s[i];
    let q = choose|q: int| 0 <= q < l.len() && l[q].0 == k;
    assert(q == p);
}

proof fn lemma_local_count_absent(s: Seq<(Seq<char>, u64, i64)>, k: Seq<char>, t: int)
    requires
        forall|i: int| 0 <= i < s.len() && #[trigger] s[i].0 == k ==> s[i].2 <= t,
    ensures
        local_count(s, k, t) == 1,
{
    lemma_live_sub(s, t);
    let l = live(s, t);
    assert forall|j: int| 0 <= j < l.len() implies l[j].0 != k by {
        assert(s.contains(l[j]));
        let w = choose|w: int| 0 <= w < s.len() && s[w] == l[j];
    }
}

proof fn lemma_counted_distinct(c: Seq<(Seq<char>, u64, i64)>, key: Seq<char>, now: int, e: i64)
    requires
        distinct_keys(c),
    ensures
        distinct_keys(counted(c, key, now, e)),
        forall|j: int| 0 <= j < counted(c, key, now, e).len() && #[trigger] counted(c, key, now, e)[j].0 != key
            ==> j < live(c, now).len() && counted(c, key, now, e)[j] == live(c, now)[j],
{
    lemma_live_sub(c, now);
    let l = live(c, now);
    let t = counted(c, key, now, e);
    match position_of(l, key) {
        Some(p) => {
            assert forall|a: int, b: int| 0 <= a < b < t.len() implies t[a].0 != t[b].0 by {
                assert(t[a].0 == l[a].0 && t[b].0 == l[b].0);
            }
        },
        None => {
            assert forall|a: int, b: int| 0 <= a < b < t.len() implies t[a].0 != t[b].0 by {
                if b == t.len() - 1 {
                    assert(l[a].0 != key);
                }
            }
        },
    }
}

/// Counting a request against one key leaves every other key's count as it was, read
/// then or later: a minute bucket rolling over never resets a ten-minute counter.
pub proof fn law_counting_one_key_leaves_the_others(
    counters: Seq<(Seq<char>, u64, i64)>,
    key: Seq<char>,
    other: Seq<char>,
    now: int,
    later: int,
    expires_at: i64,
)
    requires
        distinct_keys(counters),
        other != key,
        now <= later,
    ensures
        local_count(counted(counters, key, now, expires_at), other, later) == local_count(counters, other, later),
{
    lemma_live_sub(counters, now);
    lemma_counted_distinct(counters, key, now, expires_at);
    let l = live(counters, now);
    let t = counted(counters, key, now, expires_at);
    if exists|i: int| 0 <= i < counters.len() && counters[i].0 == other && counters[i].2 > later {
        let i = choose|i: int| 0 <= i < counters.len() && counters[i].0 == other && counters[i].2 > later;
        lemma_live_keeps(counters, now, i);
        let p = choose|p: int| 0 <= p < l.len() && l[p] == counters[i];
        assert(t[p] == l[p]);
        lemma_local_count_at(counters, other, later, i);
        lemma_local_count_at(t, other, later, p);
    } else {
        assert forall|j: int| 0 <= j < t.len() && #[trigger] t[j].0 == other implies t[j].2 <= later by {
            assert(t[j] == l[j]);
            assert(counters.contains(l[j]));
            let w = choose|w: int| 0 <= w < counters.len() && counters[w] == l[j];
        }
        lemma_local_count_absent(counters, other, later);
        lemma_local_count_absent(t, other, later);
    }
}

/// Within one window, each request against a key counts one more than the last: the
/// count a later request reaches is one up on the count this one reached.
pub proof fn law_a_window_counts_up_one_request_at_a_time(
    counters: Seq<(Seq<char>, u64, i64)>,
    key: Seq<char>,
    now: int,
    later: int,
    expires_at: i64,
)
    requires
        distinct_keys(counters),
        now <= later < expires_at,
        forall|i: int| 0 <= i < counters.len() && #[trigger] counters[i].0 == key && counters[i].2 > now
            ==> counters[i].2 > later,
    ensures
        local_count(counted(counters, key, now, expires_at), key, later)
            == bumped(local_count(counters, key, now) as u64) as int,
{
    lemma_live_sub(counters, now);
    lemma_counted_distinct(counters, key, now, expires_at);
    let l = live(counters, now);
    let t = counted(counters, key, now, expires_at);
    match position_of(l, key) {
        Some(p) => {
            assert(l.contains(l[p]));
            let w = choose|w: int| 0 <= w < counters.len() && counters[w] == l[p];
            assert(l[p].2 > later);
            assert(t[p] == (key, bumped(l[p].1), l[p].2));
            lemma_local_count_at(t, key, later, p);
        },
        None => {
            assert(t[t.len() - 1] == (key, 1u64, expires_at));
            lemma_local_count_at(t, key, later, t.len() - 1);
        },
    }
}

/// Only starting a login and failed Kakao callbacks are counted per ten minutes (600
/// seconds); every bucket of the stamp and coupon flows (QR issuance, failed QR
/// resolution, accrual approval, first-come claims) is counted per minute (60 seconds).
pub proof fn law_only_sign_in_buckets_count_per_ten_minutes(b: Bucket)
    ensures
        (b == Bucket::LoginStart || b == Bucket::KakaoCallbackFailure) ==> window_of(b) == 600,
        (b == Bucket::QrIssue || b == Bucket::QrResolveFailure || b == Bucket::StampApproval
            || b == Bucket::CampaignClaim) ==> window_of(b) == 60,
        !(b == Bucket::LoginStart || b == Bucket::KakaoCallbackFailure) ==> window_of(b) == 60,
{
}

} // verus!
