//! Process counters behind the operational alerts: request volume, error classes,
//! latency percentiles and invariant violations.
//!
//! Latency is kept as a coarse bucketed histogram. The service's objectives are stated as
//! p95 thresholds of 500 ms and 800 ms, and a bucket boundary either side of each
//! threshold answers "are we over?" exactly, which is the question being asked.

use vstd::prelude::*;

use crate::time::Duration;

verus! {

/// Upper bounds in milliseconds, the last catching everything.
pub const LATENCY_BUCKETS_MS: [u64; 8] = [50, 100, 250, 500, 800, 1_500, 5_000, 18_446_744_073_709_551_615];

pub open spec fn bucket_bound(i: int) -> u64 {
    if i <= 0 { 50 } else if i == 1 { 100 } else if i == 2 { 250 } else if i == 3 { 500 }
    else if i == 4 { 800 } else if i == 5 { 1_500 } else if i == 6 { 5_000 } else { u64::MAX }
}

fn bound_at(i: usize) -> (b: u64)
    ensures
        b == bucket_bound(i as int),
{
    if i == 0 { 50 } else if i == 1 { 100 } else if i == 2 { 250 } else if i == 3 { 500 }
    else if i == 4 { 800 } else if i == 5 { 1_500 } else if i == 6 { 5_000 } else { u64::MAX }
}

/// The bucket a latency of `millis` falls in: the first whose bound it does not exceed.
pub open spec fn bucket_of(millis: int) -> int {
    if millis <= 50 { 0 } else if millis <= 100 { 1 } else if millis <= 250 { 2 } else if millis <= 500 { 3 }
    else if millis <= 800 { 4 } else if millis <= 1_500 { 5 } else if millis <= 5_000 { 6 } else { 7 }
}

/// A counter's value after adding `n`, wrapping as an atomic counter does.
pub open spec fn wrapped(x: int, n: int) -> int {
    (x + n) % 0x1_0000_0000_0000_0000
}

fn wrapping_add(x: u64, n: u64) -> (r: u64)
    ensures
        r == wrapped(x as int, n as int),
{
    if n > u64::MAX - x {
        n - (u64::MAX - x) - 1
    } else {
        x + n
    }
}

/// Process-wide request counters.
#[derive(Debug, Clone, PartialEq, Eq)]
pub struct MetricsRegistry {
    requests: u64,
    client_errors: u64,
    server_errors: u64,
    /// Writes a uniqueness constraint refused that the application believed were new.
    invariant_violations: u64,
    latency_buckets: [u64; 8],
    latency_total_ms: u64,
}

/// The counters: requests, client errors, server errors, invariant violations, the
/// latency histogram, and the summed latency in milliseconds.
pub type MetricsView = (u64, u64, u64, u64, Seq<u64>, u64);

impl View for MetricsRegistry {
    type V = MetricsView;

    closed spec fn view(&self) -> MetricsView {
        (
            self.requests,
            self.client_errors,
            self.server_errors,
            self.invariant_violations,
            self.latency_buckets@,
            self.latency_total_ms,
        )
    }
}

/// The latency of `elapsed` in whole milliseconds, as the histogram records it: a
/// negative span counts as zero and an enormous one as the largest count.
pub open spec fn recorded_millis(elapsed: Duration) -> int {
    let m = crate::time::quotient_toward_zero(elapsed.micros as int, 1000);
    if m < 0 { 0 } else if m > u64::MAX { u64::MAX as int } else { m }
}

/// Sum of a sequence of counts.
pub open spec fn count_sum(s: Seq<u64>) -> int
    decreases s.len(),
{
    if s.len() == 0 {
        0
    } else {
        count_sum(s.drop_last()) + s.last()
    }
}

impl MetricsRegistry {
    pub fn new() -> (m: MetricsRegistry)
        ensures
            m@ == (0u64, 0u64, 0u64, 0u64, seq![0u64, 0u64, 0u64, 0u64, 0u64, 0u64, 0u64, 0u64], 0u64),
    {
        let buckets: [u64; 8] = [0, 0, 0, 0, 0, 0, 0, 0];
        assert(buckets@ == seq![0u64, 0u64, 0u64, 0u64, 0u64, 0u64, 0u64, 0u64]);
        MetricsRegistry {
            requests: 0,
            client_errors: 0,
            server_errors: 0,
            invariant_violations: 0,
            latency_buckets: buckets,
            latency_total_ms: 0,
        }
    }

    /// Record one finished request: its status class and its latency.
    pub fn observe_request(&mut self, status: u16, elapsed: Duration)
        ensures
            final(self)@.0 == wrapped(old(self)@.0 as int, 1),
            final(self)@.1 == if 400 <= status <= 499 { wrapped(old(self)@.1 as int, 1) } else { old(self)@.1 as int },
            final(self)@.2 == if 500 <= status <= 599 { wrapped(old(self)@.2 as int, 1) } else { old(self)@.2 as int },
            final(self)@.3 == old(self)@.3,
            final(self)@.4 == old(self)@.4.update(
                bucket_of(recorded_millis(elapsed)),
                wrapped(old(self)@.4[bucket_of(recorded_millis(elapsed))] as int, 1) as u64,
            ),
            final(self)@.5 == wrapped(old(self)@.5 as int, recorded_millis(elapsed)),
    {
        self.requests = wrapping_add(self.requests, 1);
        if 400 <= status && status <= 499 {
            self.client_errors = wrapping_add(self.client_errors, 1);
        } else if 500 <= status && status <= 599 {
            self.server_errors = wrapping_add(self.server_errors, 1);
        }
        let ms = elapsed.as_millis();
        let millis: u64 = if ms < 0 { 0 } else if ms > u64::MAX as i128 { u64::MAX } else { ms as u64 };
        self.latency_total_ms = wrapping_add(self.latency_total_ms, millis);
        let index: usize = if millis <= 50 { 0 } else if millis <= 100 { 1 } else if millis <= 250 { 2 }
            else if millis <= 500 { 3 } else if millis <= 800 { 4 } else if millis <= 1_500 { 5 }
            else if millis <= 5_000 { 6 } else { 7 };
        let bumped = wrapping_add(self.latency_buckets[index], 1);
        self.latency_buckets[index] = bumped;
    }

    /// A uniqueness constraint caught something the application thought was new.
    pub fn record_invariant_violation(&mut self)
        ensures
            final(self)@.0 == old(self)@.0,
            final(self)@.1 == old(self)@.1,
            final(self)@.2 == old(self)@.2,
            final(self)@.3 == wrapped(old(self)@.3 as int, 1),
            final(self)@.4 == old(self)@.4,
            final(self)@.5 == old(self)@.5,
    {
        self.invariant_violations = wrapping_add(self.invariant_violations, 1);
    }

    pub fn requests(&self) -> (n: u64)
        ensures
            n == self@.0,
    {
        self.requests
    }

    pub fn client_errors(&self) -> (n: u64)
        ensures
            n == self@.1,
    {
        self.client_errors
    }

    pub fn server_errors(&self) -> (n: u64)
        ensures
            n == self@.2,
    {
        self.server_errors
    }

    pub fn invariant_violations(&self) -> (n: u64)
        ensures
            n == self@.3,
    {
        self.invariant_violations
    }

    pub fn latency_total_ms(&self) -> (n: u64)
        ensures
            n == self@.5,
    {
        self.latency_total_ms
    }

    /// Requests counted in each latency bucket, fastest first.
    pub fn latency_counts(&self) -> (v: [u64; 8])
        ensures
            v@ == self@.4,
    {
        self.latency_buckets
    }

    /// The bucket bound at or above which 95% of requests fell, or `None` before any
    /// request has been served.
    pub fn latency_p95_ms(&self) -> (p: Option<u64>)
        requires
            count_sum(self@.4) <= u64::MAX,
        ensures
            p == percentile_of(self@.4, 95),
    {
        percentile_bucket(vstd::array::array_as_slice(&self.latency_buckets), 95)
    }
}

/// Requests that must be counted before the percentile is reached:
/// `ceil(min(total * percentile, u64::MAX) / 100)`, at least one.
pub open spec fn percentile_target(total: int, percentile: int) -> int {
    let product = if total * percentile > u64::MAX { u64::MAX as int } else { total * percentile };
    let t = (product + 99) / 100;
    if t < 1 { 1 } else { t }
}

/// The first index `i >= from` at which the counts up to and including `i` reach
/// `target`, or the length when none does.
pub open spec fn reaching_index(counts: Seq<u64>, target: int, from: int) -> int
    decreases counts.len() - from,
{
    if from >= counts.len() {
        counts.len() as int
    } else if count_sum(counts.take(from + 1)) >= target {
        from
    } else {
        reaching_index(counts, target, from + 1)
    }
}

/// The percentile bucket bound of per-bucket `counts`.
pub open spec fn percentile_of(counts: Seq<u64>, percentile: int) -> Option<u64> {
    let total = count_sum(counts);
    if total == 0 {
        None
    } else {
        let i = reaching_index(counts, percentile_target(total, percentile), 0);
        if i >= counts.len() {
            Some(u64::MAX)
        } else {
            Some(bucket_bound(if i < 7 { i } else { 7 }))
        }
    }
}

proof fn lemma_count_sum_nonneg(s: Seq<u64>)
    ensures
        count_sum(s) >= 0,
    decreases s.len(),
{
    if s.len() > 0 {
        lemma_count_sum_nonneg(s.drop_last());
    }
}

proof fn lemma_count_sum_prefix(s: Seq<u64>, i: int)
    requires
        0 <= i <= s.len(),
    ensures
        0 <= count_sum(s.take(i)) <= count_sum(s),
    decreases s.len() - i,
{
    lemma_count_sum_nonneg(s.take(i));
    if i < s.len() {
        lemma_count_sum_prefix(s, i + 1);
        assert(s.take(i + 1).drop_last() == s.take(i));
        assert(s.take(i + 1).last() == s[i]);
    } else {
        assert(s.take(i) == s);
    }
}

/// The percentile bucket bound, given per-bucket counts. The percentile is the
/// `ceil(total * percentile / 100)`th request, so twenty requests put the 95th at the
/// nineteenth.
pub fn percentile_bucket(counts: &[u64], percentile: u64) -> (p: Option<u64>)
    requires
        count_sum(counts@) <= u64::MAX,
    ensures
        p == percentile_of(counts@, percentile as int),
{
    let mut total: u64 = 0;
    let mut i: usize = 0;
    while i < counts.len()
        invariant
            0 <= i <= counts@.len(),
            count_sum(counts@) <= u64::MAX,
            total == count_sum(counts@.take(i as int)),
        decreases counts@.len() - i,
    {
        proof {
            assert(counts@.take(i + 1).drop_last() == counts@.take(i as int));
            lemma_count_sum_prefix(counts@, i + 1);
        }
        total = total + counts[i];
        i += 1;
    }
    assert(counts@.take(counts@.len() as int) == counts@);
    if total == 0 {
        return None;
    }
    let product: u64 = match total.checked_mul(percentile) {
        Some(p) => p,
        None => u64::MAX,
    };
    let quotient = product / 100;
    let t = if product % 100 == 0 { quotient } else { quotient + 1 };
    let target = if t < 1 { 1 } else { t };
    let ghost goal = percentile_target(total as int, percentile as int);
    assert(target == goal);
    let mut seen: u64 = 0;
    let mut k: usize = 0;
    while k < counts.len()
        invariant
            0 <= k <= counts@.len(),
            count_sum(counts@) <= u64::MAX,
            seen == count_sum(counts@.take(k as int)),
            target == goal,
            goal == percentile_target(count_sum(counts@), percentile as int),
            count_sum(counts@) > 0,
            reaching_index(counts@, goal, 0) == reaching_index(counts@, goal, k as int),
        decreases counts@.len() - k,
    {
        proof {
            assert(counts@.take(k + 1).drop_last() == counts@.take(k as int));
            lemma_count_sum_prefix(counts@, k + 1);
        }
        seen = seen + counts[k];
        assert(counts@.take(k + 1).last() == counts@[k as int]);
        if seen >= target {
            assert(reaching_index(counts@, goal, k as int) == k);
            let index: usize = if k < 7 { k } else { 7 };
            return Some(bound_at(index));
        }
        assert(reaching_index(counts@, goal, k as int) == reaching_index(counts@, goal, k + 1));
        k += 1;
    }
    Some(bound_at(7))
}

/// The job and outbox queues, as an operator reads them.
#[derive(Debug, Clone, Copy, PartialEq, Eq, Structural)]
pub struct QueueMetrics {
    /// Jobs waiting or running.
    pub campaign_backlog: i64,
    /// Seconds since the oldest unpublished outbox row was written; zero when the outbox
    /// is empty. A rising value means the relay has stopped.
    pub outbox_unpublished_age_secs: i64,
    pub outbox_unpublished_count: i64,
    /// New dead letters over the last hour.
    pub dead_letters_last_hour: i64,
    pub dead_letters_total: i64,
    /// Jobs running past their visibility timeout: a worker died, or is wedged.
    pub stalled_jobs: i64,
}

} // verus!
