//! Stamp balances, goal completion and the stamp board.
//!
//! A customer's stamps live in lots; each lot has a balance and an expiry. Everything
//! here is a function of the lots and the caller's `now`, so the online judgement of what
//! is spendable is immediate rather than whatever an expiry sweep last left behind.

use vstd::prelude::*;
use vstd::relations::sorted_by;

use crate::error::{ApiError, ErrorCode};
use crate::catalog::insert_sorted;
use crate::ident::{uuid_string, uuid_text};
use crate::loyalty::policy::{PolicyRules, RewardDefinition};
use crate::text::{chars_of, int_text, push_char, push_str, str_eq, string_of, trim_chars, trimmed};
use crate::time::MICROS_PER_DAY;
use crate::validation::{
    check_optional_length, check_range, optional_length_issue, range_issue, verdict, verdict_of, Issue,
};
use crate::error::{fields_view, FieldError};

verus! {

broadcast use {vstd::seq_lib::group_seq_properties, vstd::seq_lib::group_to_multiset_ensures};

/// Microseconds in seven days.
pub const WEEK_MICROS: i64 = 604_800_000_000;

/// A lot with its derived balance. `expires_at` is in microseconds since the Unix epoch.
#[derive(Debug, Clone, Copy, PartialEq, Eq)]
pub struct LotBalance {
    pub lot_id: u128,
    pub balance: i64,
    pub expires_at: i64,
}

/// One reward's worth of stamps, and which lots pay for it.
#[derive(Debug, Clone, PartialEq, Eq)]
pub struct RewardDraw {
    pub draws: Vec<(u128, i64)>,
}

/// Whether a lot can be spent at `now`: unexpired (`[start, end)`) and not empty.
pub open spec fn is_usable(lot: LotBalance, now: int) -> bool {
    lot.expires_at > now && lot.balance > 0
}

/// The usable lots, in their original order.
pub open spec fn usable_lots(lots: Seq<LotBalance>, now: int) -> Seq<LotBalance>
    decreases lots.len(),
{
    if lots.len() == 0 {
        Seq::empty()
    } else {
        let rest = usable_lots(lots.drop_last(), now);
        if is_usable(lots.last(), now) {
            rest.push(lots.last())
        } else {
            rest
        }
    }
}

/// Sum of the balances of the first `j` lots.
pub open spec fn prefix_total(s: Seq<LotBalance>, j: int) -> int
    decreases j,
{
    if j <= 0 || s.len() == 0 {
        0
    } else if j > s.len() {
        prefix_total(s, s.len() as int)
    } else {
        prefix_total(s, j - 1) + s[j - 1].balance
    }
}

pub open spec fn total(s: Seq<LotBalance>) -> int {
    prefix_total(s, s.len() as int)
}

/// Stamps a customer can spend at `now`.
pub open spec fn available(lots: Seq<LotBalance>, now: int) -> int {
    total(usable_lots(lots, now))
}

/// Spending order: earliest expiry first, lot id breaking ties.
pub open spec fn spend_before(a: LotBalance, b: LotBalance) -> bool {
    a.expires_at < b.expires_at || (a.expires_at == b.expires_at && a.lot_id <= b.lot_id)
}

/// `s` is the usable lots of `lots`, arranged in spending order.
pub open spec fn spending_order(lots: Seq<LotBalance>, now: int, s: Seq<LotBalance>) -> bool {
    &&& s.to_multiset() == usable_lots(lots, now).to_multiset()
    &&& sorted_by(s, |a: LotBalance, b: LotBalance| spend_before(a, b))
    &&& total(s) == available(lots, now)
}

/// How much of the stamp range `[a, b)` falls inside the reward range `[lo, hi)`.
pub open spec fn overlap(lo: int, hi: int, a: int, b: int) -> int {
    let top = if hi < b { hi } else { b };
    let bottom = if lo > a { lo } else { a };
    if top > bottom { top - bottom } else { 0 }
}

/// Lay the lots of `s` end to end as one stream of stamps; the reward covering stamps
/// `[lo, hi)` draws from each of the first `j` lots what that lot contributes to the range,
/// in stream order, omitting lots that contribute nothing.
pub open spec fn draws_upto(s: Seq<LotBalance>, lo: int, hi: int, j: int) -> Seq<(u128, i64)>
    decreases j,
{
    if j <= 0 || j > s.len() {
        Seq::empty()
    } else {
        let prev = draws_upto(s, lo, hi, j - 1);
        let ov = overlap(lo, hi, prefix_total(s, j - 1), prefix_total(s, j));
        if ov > 0 {
            prev.push((s[j - 1].lot_id, ov as i64))
        } else {
            prev
        }
    }
}

/// The goal completions paid for by the lots `s` (in spending order) at `target` stamps
/// each: as many whole rewards as the stamps cover, reward `r` taking stamps
/// `[r * target, (r + 1) * target)` of the stream.
pub open spec fn plan_of(s: Seq<LotBalance>, target: int) -> Seq<Seq<(u128, i64)>> {
    if target <= 0 {
        Seq::empty()
    } else {
        Seq::new(
            (total(s) / target) as nat,
            |r: int| draws_upto(s, r * target, r * target + target, s.len() as int),
        )
    }
}

pub open spec fn plan_view(plan: Seq<RewardDraw>) -> Seq<Seq<(u128, i64)>> {
    plan.map_values(|d: RewardDraw| d.draws@)
}

pub open spec fn draw_total(draws: Seq<(u128, i64)>) -> int
    decreases draws.len(),
{
    if draws.len() == 0 {
        0
    } else {
        draw_total(draws.drop_last()) + draws.last().1
    }
}

proof fn lemma_usable_bounds(lots: Seq<LotBalance>, now: int)
    ensures
        usable_lots(lots, now).len() <= lots.len(),
        forall|i: int| 0 <= i < usable_lots(lots, now).len()
            ==> is_usable(#[trigger] usable_lots(lots, now)[i], now),
    decreases lots.len(),
{
    if lots.len() > 0 {
        lemma_usable_bounds(lots.drop_last(), now);
    }
}

proof fn lemma_prefix_step(s: Seq<LotBalance>, j: int)
    requires
        0 <= j < s.len(),
    ensures
        prefix_total(s, j + 1) == prefix_total(s, j) + s[j].balance,
{
}

proof fn lemma_prefix_monotone(s: Seq<LotBalance>, i: int, j: int)
    requires
        0 <= i <= j <= s.len(),
        forall|k: int| 0 <= k < s.len() ==> #[trigger] s[k].balance > 0,
    ensures
        prefix_total(s, i) <= prefix_total(s, j),
        i < j ==> prefix_total(s, i) < prefix_total(s, j),
    decreases j - i,
{
    if i < j {
        lemma_prefix_monotone(s, i, j - 1);
    }
}

proof fn lemma_prefix_push(s: Seq<LotBalance>, x: LotBalance, j: int)
    requires
        0 <= j <= s.len(),
    ensures
        prefix_total(s.push(x), j) == prefix_total(s, j),
    decreases j,
{
    if j > 0 {
        lemma_prefix_push(s, x, j - 1);
    }
}

proof fn lemma_total_push(s: Seq<LotBalance>, x: LotBalance)
    ensures
        total(s.push(x)) == total(s) + x.balance,
{
    lemma_prefix_push(s, x, s.len() as int);
}

/// Stamps a customer can actually spend right now.
pub fn available_stamps(lots: &[LotBalance], now: i64) -> (n: i64)
    requires
        available(lots@, now as int) <= i64::MAX,
    ensures
        n == available(lots@, now as int),
{
    let mut sum: i64 = 0;
    let mut i: usize = 0;
    while i < lots.len()
        invariant
            0 <= i <= lots@.len(),
            available(lots@, now as int) <= i64::MAX,
            sum == available(lots@.take(i as int), now as int),
        decreases lots@.len() - i,
    {
        let lot = lots[i];
        proof {
            let t = lots@.take(i + 1);
            assert(t.drop_last() =~= lots@.take(i as int));
            assert(t.last() == lot);
            lemma_total_push(usable_lots(lots@.take(i as int), now as int), lot);
            lemma_available_prefix_le(lots@, now as int, i + 1);
        }
        if lot.expires_at > now && lot.balance > 0 {
            sum = sum + lot.balance;
        }
        i += 1;
    }
    assert(lots@.take(lots@.len() as int) =~= lots@);
    sum
}

proof fn lemma_usable_nonneg_total(lots: Seq<LotBalance>, now: int)
    ensures
        available(lots, now) >= 0,
    decreases lots.len(),
{
    if lots.len() > 0 {
        lemma_usable_nonneg_total(lots.drop_last(), now);
        lemma_total_push(usable_lots(lots.drop_last(), now), lots.last());
    }
}

proof fn lemma_available_prefix_le(lots: Seq<LotBalance>, now: int, k: int)
    requires
        0 <= k <= lots.len(),
    ensures
        available(lots.take(k), now) <= available(lots, now),
    decreases lots.len() - k,
{
    if k < lots.len() {
        let l = lots.take(k + 1);
        assert(l.drop_last() =~= lots.take(k));
        lemma_total_push(usable_lots(lots.take(k), now), l.last());
        lemma_available_prefix_le(lots, now, k + 1);
    } else {
        assert(lots.take(k) =~= lots);
    }
}


proof fn lemma_total_insert(s: Seq<LotBalance>, p: int, x: LotBalance)
    requires
        0 <= p <= s.len(),
    ensures
        total(s.insert(p, x)) == total(s) + x.balance,
    decreases s.len(),
{
    if p == s.len() {
        assert(s.insert(p, x) =~= s.push(x));
        lemma_total_push(s, x);
    } else {
        let t = s.drop_last();
        assert(s.insert(p, x) =~= t.insert(p, x).push(s.last()));
        assert(s =~= t.push(s.last()));
        lemma_total_insert(t, p, x);
        lemma_total_push(t.insert(p, x), s.last());
        lemma_total_push(t, s.last());
    }
}

/// The usable lots in spending order. Lots that tie on both expiry and id keep their
/// input order.
fn usable_in_spending_order(lots: &[LotBalance], now: i64) -> (s: Vec<LotBalance>)
    ensures
        spending_order(lots@, now as int, s@),
        total(s@) == available(lots@, now as int),
{
    let ghost le = |a: LotBalance, b: LotBalance| spend_before(a, b);
    let mut v: Vec<LotBalance> = Vec::new();
    let mut i: usize = 0;
    while i < lots.len()
        invariant
            0 <= i <= lots@.len(),
            le == (|a: LotBalance, b: LotBalance| spend_before(a, b)),
            v@.to_multiset() == usable_lots(lots@.take(i as int), now as int).to_multiset(),
            sorted_by(v@, le),
            total(v@) == available(lots@.take(i as int), now as int),
        decreases lots@.len() - i,
    {
        let x = lots[i];
        proof {
            let t = lots@.take(i + 1);
            assert(t.drop_last() =~= lots@.take(i as int));
            assert(t.last() == x);
        }
        if x.expires_at > now && x.balance > 0 {
            let mut pos: usize = 0;
            while pos < v.len()
                && (v[pos].expires_at < x.expires_at
                    || (v[pos].expires_at == x.expires_at && v[pos].lot_id <= x.lot_id))
                invariant
                    0 <= pos <= v@.len(),
                    forall|k: int| 0 <= k < pos ==> spend_before(#[trigger] v@[k], x),
                decreases v@.len() - pos,
            {
                pos += 1;
            }
            let ghost old_v = v@;
            v.insert(pos, x);
            proof {
                assert(v@ == old_v.insert(pos as int, x));
                assert forall|a: int, b: int| 0 <= a < b < v@.len() implies #[trigger] le(v@[a], v@[b]) by {
                    if pos < old_v.len() {
                        assert(!spend_before(old_v[pos as int], x));
                    }
                    if a < pos && b < pos {
                        assert(le(old_v[a], old_v[b]));
                    } else if a < pos && b == pos {
                    } else if a < pos && b > pos {
                        assert(le(old_v[a], old_v[b - 1]));
                    } else if a == pos {
                        assert(le(old_v[pos as int], old_v[b - 1]));
                    } else {
                        assert(le(old_v[a - 1], old_v[b - 1]));
                    }
                }
                vstd::seq_lib::to_multiset_insert(old_v, pos as int, x);
                vstd::seq_lib::to_multiset_build(usable_lots(lots@.take(i as int), now as int), x);
                lemma_total_insert(old_v, pos as int, x);
                lemma_total_push(usable_lots(lots@.take(i as int), now as int), x);
            }
        }
        i += 1;
    }
    assert(lots@.take(lots@.len() as int) =~= lots@);
    v
}


proof fn lemma_total_positive_lots(s: Seq<LotBalance>, lots: Seq<LotBalance>, now: int)
    requires
        spending_order(lots, now, s),
    ensures
        forall|k: int| 0 <= k < s.len() ==> is_usable(#[trigger] s[k], now),
{
    assert forall|k: int| 0 <= k < s.len() implies is_usable(#[trigger] s[k], now) by {
        let u = usable_lots(lots, now);
        assert(s.contains(s[k]));
        assert(s.to_multiset().count(s[k]) > 0);
        assert(u.to_multiset().count(s[k]) > 0);
        assert(u.contains(s[k]));
        lemma_usable_bounds(lots, now);
        let w = choose|w: int| 0 <= w < u.len() && u[w] == s[k];
        assert(is_usable(u[w], now));
    }
}

/// Plan goal completions, spending the stamps that expire first.
///
/// Returns one entry per reward that can be paid for; stamps left over after the last
/// whole reward stay on the board.
pub fn plan_reward_consumption(lots: &[LotBalance], target: i64, now: i64) -> (plan: Vec<RewardDraw>)
    requires
        available(lots@, now as int) <= i64::MAX,
    ensures
        target <= 0 ==> plan@.len() == 0,
        exists|s: Seq<LotBalance>|
            spending_order(lots@, now as int, s) && plan_view(plan@) == plan_of(s, target as int),
{
    let usable = usable_in_spending_order(lots, now);
    if target <= 0 {
        let plan: Vec<RewardDraw> = Vec::new();
        assert(plan_view(plan@) =~= plan_of(usable@, target as int));
        return plan;
    }
    let ghost s = usable@;
    proof {
        lemma_total_positive_lots(s, lots@, now as int);
    }
    let mut sum: i64 = 0;
    let mut i: usize = 0;
    while i < usable.len()
        invariant
            0 <= i <= s.len(),
            s == usable@,
            total(s) <= i64::MAX,
            forall|k: int| 0 <= k < s.len() ==> #[trigger] s[k].balance > 0,
            sum == prefix_total(s, i as int),
        decreases s.len() - i,
    {
        proof {
            lemma_prefix_monotone(s, i + 1, s.len() as int);
        }
        sum = sum + usable[i].balance;
        i += 1;
    }
    proof {
        lemma_prefix_monotone(s, 0, s.len() as int);
    }
    let k = sum / target;
    let ghost full = plan_of(s, target as int);
    let mut plan: Vec<RewardDraw> = Vec::new();
    let mut r: i64 = 0;
    while r < k
        invariant
            s == usable@,
            target > 0,
            sum == total(s),
            0 <= sum <= i64::MAX,
            k == sum / target,
            0 <= r <= k,
            full == plan_of(s, target as int),
            forall|q: int| 0 <= q < s.len() ==> #[trigger] s[q].balance > 0,
            plan_view(plan@) == full.take(r as int),
        decreases k - r,
    {
        proof {
            assert(r * target + target <= sum) by (nonlinear_arith)
                requires
                    r < k,
                    k == sum / target,
                    target > 0,
                    sum >= 0,
                    r >= 0;
            assert(r * target >= 0) by (nonlinear_arith)
                requires
                    r >= 0,
                    target > 0;
        }
        let lo = r * target;
        let hi = lo + target;
        let mut draws: Vec<(u128, i64)> = Vec::new();
        let mut p: i64 = 0;
        let mut j: usize = 0;
        while j < usable.len()
            invariant
                s == usable@,
                0 <= j <= s.len(),
                0 <= lo < hi <= sum,
                sum == total(s),
                sum <= i64::MAX,
                forall|q: int| 0 <= q < s.len() ==> #[trigger] s[q].balance > 0,
                p == prefix_total(s, j as int),
                draws@ == draws_upto(s, lo as int, hi as int, j as int),
            decreases s.len() - j,
        {
            let lot = usable[j];
            proof {
                lemma_prefix_monotone(s, j + 1, s.len() as int);
            }
            let end = p + lot.balance;
            let top = if hi < end { hi } else { end };
            let bottom = if lo > p { lo } else { p };
            if top > bottom {
                draws.push((lot.lot_id, top - bottom));
            }
            p = end;
            j += 1;
        }
        let ghost old_plan = plan@;
        plan.push(RewardDraw { draws });
        proof {
            assert(full[r as int] == draws_upto(s, lo as int, hi as int, s.len() as int));
            assert(plan_view(plan@) =~= full.take(r + 1)) by {
                assert(plan_view(plan@) =~= plan_view(old_plan).push(plan@.last().draws@));
            }
        }
        r += 1;
    }
    assert(full.take(k as int) =~= full);
    plan
}


/// What reward `r` of the plan over `s` takes from the lot at position `j` of `s`.
pub open spec fn taken(s: Seq<LotBalance>, target: int, r: int, j: int) -> int {
    overlap(r * target, r * target + target, prefix_total(s, j), prefix_total(s, j + 1))
}

/// What the first `m` rewards take, together, from the lot at position `j`.
pub open spec fn taken_by_first(s: Seq<LotBalance>, target: int, m: int, j: int) -> int
    decreases m,
{
    if m <= 0 {
        0
    } else {
        taken_by_first(s, target, m - 1, j) + taken(s, target, m - 1, j)
    }
}

/// What the whole plan takes from the lot at position `j`.
pub open spec fn drawn_from(s: Seq<LotBalance>, target: int, j: int) -> int {
    taken_by_first(s, target, plan_of(s, target).len() as int, j)
}

pub open spec fn clamp(lo: int, hi: int, x: int) -> int {
    if x < lo { lo } else if x > hi { hi } else { x }
}

proof fn lemma_draw_total_upto(s: Seq<LotBalance>, lo: int, hi: int, j: int)
    requires
        0 <= j <= s.len(),
        lo <= hi,
        forall|q: int| 0 <= q < s.len() ==> #[trigger] s[q].balance > 0,
    ensures
        draw_total(draws_upto(s, lo, hi, j)) == clamp(lo, hi, prefix_total(s, j)) - clamp(lo, hi, 0),
    decreases j,
{
    if j > 0 {
        lemma_draw_total_upto(s, lo, hi, j - 1);
        lemma_prefix_step(s, j - 1);
        let prev = draws_upto(s, lo, hi, j - 1);
        let ov = overlap(lo, hi, prefix_total(s, j - 1), prefix_total(s, j));
        if ov > 0 {
            assert(prev.push((s[j - 1].lot_id, ov as i64)).drop_last() =~= prev);
        }
    }
}

proof fn lemma_taken_by_first(s: Seq<LotBalance>, target: int, m: int, a: int, b: int, j: int)
    requires
        m >= 0,
        target > 0,
        a == prefix_total(s, j),
        b == prefix_total(s, j + 1),
        a <= b,
    ensures
        taken_by_first(s, target, m, j) == overlap(0, m * target, a, b),
    decreases m,
{
    if m > 0 {
        lemma_taken_by_first(s, target, m - 1, a, b, j);
        let y = (m - 1) * target;
        assert(y + target == m * target) by (nonlinear_arith)
            requires
                y == (m - 1) * target;
        assert(y >= 0) by (nonlinear_arith)
            requires
                m >= 1,
                target > 0,
                y == (m - 1) * target;
        lemma_overlap_split(0, y, m * target, a, b);
        assert(taken(s, target, m - 1, j) == overlap(y, m * target, a, b));
    } else {
        assert(m * target == 0) by (nonlinear_arith)
            requires
                m == 0;
    }
}

proof fn lemma_overlap_split(x: int, y: int, z: int, a: int, b: int)
    requires
        x <= y <= z,
        a <= b,
    ensures
        overlap(x, y, a, b) + overlap(y, z, a, b) == overlap(x, z, a, b),
{
}

/// Every reward in the plan is paid for with exactly `target` stamps.
pub proof fn law_each_reward_costs_exactly_the_target(
    lots: Seq<LotBalance>,
    now: int,
    s: Seq<LotBalance>,
    target: int,
)
    requires
        spending_order(lots, now, s),
        target > 0,
    ensures
        forall|r: int| 0 <= r < plan_of(s, target).len() ==> draw_total(#[trigger] plan_of(s, target)[r]) == target,
{
    lemma_total_positive_lots(s, lots, now);
    lemma_usable_nonneg_total(lots, now);
    assert forall|r: int| 0 <= r < plan_of(s, target).len() implies draw_total(#[trigger] plan_of(s, target)[r]) == target by {
        let k = total(s) / target;
        assert(r * target + target <= total(s)) by (nonlinear_arith)
            requires
                r < k,
                k == total(s) / target,
                target > 0,
                r >= 0;
        assert(r * target >= 0) by (nonlinear_arith)
            requires
                r >= 0,
                target > 0;
        lemma_draw_total_upto(s, r * target, r * target + target, s.len() as int);
    }
}

/// The plan pays out as many rewards as the available stamps cover, and no more.
pub proof fn law_rewards_are_whole_boards_of_the_available_stamps(
    lots: Seq<LotBalance>,
    now: int,
    s: Seq<LotBalance>,
    target: int,
)
    requires
        spending_order(lots, now, s),
        target > 0,
    ensures
        plan_of(s, target).len() == available(lots, now) / target,
        plan_of(s, target).len() * target <= available(lots, now) < (plan_of(s, target).len() + 1) * target,
{
    lemma_usable_nonneg_total(lots, now);
    let k = available(lots, now) / target;
    assert(k * target <= available(lots, now) < (k + 1) * target) by (nonlinear_arith)
        requires
            k == available(lots, now) / target,
            target > 0,
            available(lots, now) >= 0;
}

/// Only usable lots are drawn from: every draw names a lot that is unexpired at `now`
/// and takes a positive quantity.
pub proof fn law_only_usable_lots_are_drawn(
    lots: Seq<LotBalance>,
    now: int,
    s: Seq<LotBalance>,
    target: int,
)
    requires
        spending_order(lots, now, s),
    ensures
        forall|r: int, d: int|
            0 <= r < plan_of(s, target).len() && 0 <= d < plan_of(s, target)[r].len() ==> {
                let draw = #[trigger] plan_of(s, target)[r][d];
                &&& draw.1 > 0
                &&& exists|i: int| 0 <= i < lots.len() && lots[i].lot_id == draw.0 && is_usable(lots[i], now)
            },
{
    lemma_total_positive_lots(s, lots, now);
    lemma_usable_in_lots(lots, now);
    assert forall|r: int, d: int|
        0 <= r < plan_of(s, target).len() && 0 <= d < plan_of(s, target)[r].len() implies {
            let draw = #[trigger] plan_of(s, target)[r][d];
            &&& draw.1 > 0
            &&& exists|i: int| 0 <= i < lots.len() && lots[i].lot_id == draw.0 && is_usable(lots[i], now)
        } by {
        let lo = r * target;
        let hi = lo + target;
        lemma_draws_come_from(s, lo, hi, s.len() as int, d);
        let j = choose|j: int| 0 <= j < s.len() && plan_of(s, target)[r][d].0 == s[j].lot_id;
        let u = usable_lots(lots, now);
        assert(s.contains(s[j]));
        assert(s.to_multiset().count(s[j]) > 0);
        assert(u.to_multiset().count(s[j]) > 0);
        assert(u.contains(s[j]));
        let w = choose|w: int| 0 <= w < u.len() && u[w] == s[j];
        let i = choose|i: int| 0 <= i < lots.len() && lots[i] == u[w];
        assert(lots[i].lot_id == plan_of(s, target)[r][d].0);
    }
}

proof fn lemma_usable_in_lots(lots: Seq<LotBalance>, now: int)
    ensures
        forall|w: int| 0 <= w < usable_lots(lots, now).len()
            ==> exists|i: int| 0 <= i < lots.len() && lots[i] == #[trigger] usable_lots(lots, now)[w],
    decreases lots.len(),
{
    if lots.len() > 0 {
        let t = lots.drop_last();
        lemma_usable_in_lots(t, now);
        assert forall|w: int| 0 <= w < usable_lots(lots, now).len()
            implies exists|i: int| 0 <= i < lots.len() && lots[i] == #[trigger] usable_lots(lots, now)[w] by {
            if w < usable_lots(t, now).len() {
                let i = choose|i: int| 0 <= i < t.len() && t[i] == usable_lots(t, now)[w];
                assert(lots[i] == t[i]);
            } else {
                assert(lots[lots.len() - 1] == usable_lots(lots, now)[w]);
            }
        }
    }
}

proof fn lemma_draws_come_from(s: Seq<LotBalance>, lo: int, hi: int, j: int, d: int)
    requires
        0 <= j <= s.len(),
        0 <= d < draws_upto(s, lo, hi, j).len(),
    ensures
        draws_upto(s, lo, hi, j)[d].1 > 0,
        exists|q: int| 0 <= q < j && draws_upto(s, lo, hi, j)[d].0 == #[trigger] s[q].lot_id,
    decreases j,
{
    let prev = draws_upto(s, lo, hi, j - 1);
    if d < prev.len() {
        lemma_draws_come_from(s, lo, hi, j - 1, d);
        let q = choose|q: int| 0 <= q < j - 1 && prev[d].0 == s[q].lot_id;
        assert(draws_upto(s, lo, hi, j)[d] == prev[d]);
    } else {
        let ov = overlap(lo, hi, prefix_total(s, j - 1), prefix_total(s, j));
        assert(ov > 0);
        assert(draws_upto(s, lo, hi, j)[d] == (s[j - 1].lot_id, ov as i64));
        assert(s[j - 1].lot_id == draws_upto(s, lo, hi, j)[d].0);
    }
}

/// Two arrangements in spending order of the same lots, in which a lot id names one lot,
/// are the same arrangement.
proof fn lemma_spending_order_unique(x: Seq<LotBalance>, y: Seq<LotBalance>)
    requires
        sorted_by(x, |a: LotBalance, b: LotBalance| spend_before(a, b)),
        sorted_by(y, |a: LotBalance, b: LotBalance| spend_before(a, b)),
        x.to_multiset() == y.to_multiset(),
        forall|a: LotBalance, b: LotBalance| x.contains(a) && x.contains(b) && a.lot_id == b.lot_id ==> a == b,
    ensures
        x =~= y,
    decreases x.len(),
{
    broadcast use vstd::multiset::group_multiset_axioms;
    broadcast use vstd::seq_lib::group_to_multiset_ensures;

    if x.len() == 0 || y.len() == 0 {
        assert(x.to_multiset().len() == x.len());
        assert(y.to_multiset().len() == y.len());
    } else {
        let le = |a: LotBalance, b: LotBalance| spend_before(a, b);
        assert(y.to_multiset().contains(y[0]));
        assert(x.to_multiset().contains(x[0]));
        let i = choose|i: int| #![trigger x[i]] 0 <= i < x.len() && x[i] == y[0];
        let k = choose|k: int| #![trigger y[k]] 0 <= k < y.len() && y[k] == x[0];
        if i > 0 {
            assert(le(x[0], x[i]));
        }
        if k > 0 {
            assert(le(y[0], y[k]));
        }
        assert(x.contains(x[0]) && x.contains(x[i]));
        assert(x[0] == y[0]);
        assert(x.remove(0) =~= x.drop_first());
        assert(y.remove(0) =~= y.drop_first());
        assert(x.remove(0).to_multiset() =~= x.to_multiset().remove(x[0]));
        assert(y.remove(0).to_multiset() =~= y.to_multiset().remove(y[0]));
        assert forall|a: LotBalance, b: LotBalance|
            x.drop_first().contains(a) && x.drop_first().contains(b) && a.lot_id == b.lot_id implies a == b by {
            let p = choose|p: int| 0 <= p < x.drop_first().len() && x.drop_first()[p] == a;
            let q = choose|q: int| 0 <= q < x.drop_first().len() && x.drop_first()[q] == b;
            assert(x[p + 1] == a && x[q + 1] == b);
            assert(x.contains(a) && x.contains(b));
        }
        assert forall|p: int, q: int| 0 <= p < q < x.drop_first().len() implies #[trigger] le(x.drop_first()[p], x.drop_first()[q]) by {
            assert(le(x[p + 1], x[q + 1]));
        }
        assert forall|p: int, q: int| 0 <= p < q < y.drop_first().len() implies #[trigger] le(y.drop_first()[p], y.drop_first()[q]) by {
            assert(le(y[p + 1], y[q + 1]));
        }
        lemma_spending_order_unique(x.drop_first(), y.drop_first());
        assert(x =~= seq![x[0]] + x.drop_first());
        assert(y =~= seq![y[0]] + y.drop_first());
    }
}

/// Expiry ties are broken by lot id, so lots that carry distinct ids have exactly one
/// spending order, and the plan made from them is always the same.
pub proof fn law_the_plan_is_deterministic(
    lots: Seq<LotBalance>,
    now: int,
    s1: Seq<LotBalance>,
    s2: Seq<LotBalance>,
    target: int,
)
    requires
        forall|i: int, j: int| 0 <= i < j < lots.len() ==> lots[i].lot_id != lots[j].lot_id,
        spending_order(lots, now, s1),
        spending_order(lots, now, s2),
    ensures
        s1 == s2,
        plan_of(s1, target) == plan_of(s2, target),
{
    broadcast use vstd::multiset::group_multiset_axioms;
    broadcast use vstd::seq_lib::group_to_multiset_ensures;

    lemma_usable_in_lots(lots, now);
    let u = usable_lots(lots, now);
    assert forall|a: LotBalance, b: LotBalance| s1.contains(a) && s1.contains(b) && a.lot_id == b.lot_id implies a == b by {
        assert(s1.to_multiset().contains(a) && s1.to_multiset().contains(b));
        assert(u.to_multiset().contains(a) && u.to_multiset().contains(b));
        let wa = choose|w: int| 0 <= w < u.len() && u[w] == a;
        let wb = choose|w: int| 0 <= w < u.len() && u[w] == b;
        let ia = choose|i: int| 0 <= i < lots.len() && lots[i] == #[trigger] u[wa];
        let ib = choose|i: int| 0 <= i < lots.len() && lots[i] == #[trigger] u[wb];
        if ia != ib {
            if ia < ib {
                assert(lots[ia].lot_id != lots[ib].lot_id);
            } else {
                assert(lots[ib].lot_id != lots[ia].lot_id);
            }
        }
    }
    lemma_spending_order_unique(s1, s2);
}

/// No lot is ever planned beyond its balance.
pub proof fn law_no_lot_is_overdrawn(lots: Seq<LotBalance>, now: int, s: Seq<LotBalance>, target: int, j: int)
    requires
        spending_order(lots, now, s),
        target > 0,
        0 <= j < s.len(),
    ensures
        0 <= drawn_from(s, target, j) <= s[j].balance,
{
    lemma_total_positive_lots(s, lots, now);
    lemma_prefix_step(s, j);
    let k = plan_of(s, target).len() as int;
    lemma_taken_by_first(s, target, k, prefix_total(s, j), prefix_total(s, j + 1), j);
}

/// The soonest-to-expire stamps are spent first: a lot in spending order is drawn from
/// only once every lot before it has been spent in full.
pub proof fn law_earliest_expiring_stamps_are_spent_first(
    lots: Seq<LotBalance>,
    now: int,
    s: Seq<LotBalance>,
    target: int,
    i: int,
    j: int,
)
    requires
        spending_order(lots, now, s),
        target > 0,
        0 <= i < j < s.len(),
        drawn_from(s, target, j) > 0,
    ensures
        drawn_from(s, target, i) == s[i].balance,
        s[i].expires_at <= s[j].expires_at,
{
    lemma_total_positive_lots(s, lots, now);
    lemma_prefix_step(s, i);
    lemma_prefix_step(s, j);
    lemma_prefix_monotone(s, i + 1, j);
    lemma_prefix_monotone(s, 0, i);
    let k = plan_of(s, target).len() as int;
    lemma_taken_by_first(s, target, k, prefix_total(s, j), prefix_total(s, j + 1), j);
    lemma_taken_by_first(s, target, k, prefix_total(s, i), prefix_total(s, i + 1), i);
    let le = |a: LotBalance, b: LotBalance| spend_before(a, b);
    assert(le(s[i], s[j]));
}


/// Stamps of usable lots that expire at or before `horizon`.
pub open spec fn expiring_by(lots: Seq<LotBalance>, now: int, horizon: int) -> int
    decreases lots.len(),
{
    if lots.len() == 0 {
        0
    } else {
        let l = lots.last();
        expiring_by(lots.drop_last(), now, horizon) + if is_usable(l, now) && l.expires_at <= horizon {
            l.balance as int
        } else {
            0
        }
    }
}

/// `e` is the soonest expiry among the usable lots, or `None` when there are none.
pub open spec fn is_earliest_expiry(lots: Seq<LotBalance>, now: int, e: Option<i64>) -> bool {
    match e {
        None => forall|i: int| 0 <= i < lots.len() ==> !is_usable(#[trigger] lots[i], now),
        Some(t) => {
            &&& exists|i: int| 0 <= i < lots.len() && is_usable(#[trigger] lots[i], now) && lots[i].expires_at == t
            &&& forall|i: int| 0 <= i < lots.len() && is_usable(#[trigger] lots[i], now) ==> t <= lots[i].expires_at
        },
    }
}

/// The stamp board as both apps render it.
#[derive(Debug, Clone, Copy, PartialEq, Eq)]
pub struct StampBoard {
    pub available: i64,
    pub target: i64,
    /// How many more stamps until the next reward.
    pub remaining_to_goal: i64,
    /// The soonest any currently-held stamp expires (microseconds since the epoch).
    pub earliest_expiry: Option<i64>,
    /// Stamps that expire within seven days.
    pub expiring_within_seven_days: i64,
}

impl RewardDraw {
    /// The stamps this reward takes, over all its lots.
    pub fn total(&self) -> (n: i64)
        requires
            forall|k: int| 0 <= k <= self.draws@.len() ==> i64::MIN <= #[trigger] draw_total(self.draws@.take(k)) <= i64::MAX,
        ensures
            n == draw_total(self.draws@),
    {
        let mut sum: i64 = 0;
        let mut i: usize = 0;
        while i < self.draws.len()
            invariant
                0 <= i <= self.draws@.len(),
                sum == draw_total(self.draws@.take(i as int)),
                forall|k: int| 0 <= k <= self.draws@.len() ==> i64::MIN <= #[trigger] draw_total(self.draws@.take(k)) <= i64::MAX,
            decreases self.draws@.len() - i,
        {
            let ghost t = self.draws@.take(i + 1);
            assert(t.drop_last() == self.draws@.take(i as int));
            assert(draw_total(t) == draw_total(self.draws@.take(i as int)) + self.draws@[i as int].1);
            sum = sum + self.draws[i].1;
            i += 1;
        }
        assert(self.draws@.take(self.draws@.len() as int) == self.draws@);
        sum
    }
}

/// The soonest expiry among the usable lots.
fn earliest_expiry(lots: &[LotBalance], now: i64) -> (e: Option<i64>)
    ensures
        is_earliest_expiry(lots@, now as int, e),
{
    let mut best: Option<i64> = None;
    let mut i: usize = 0;
    while i < lots.len()
        invariant
            0 <= i <= lots@.len(),
            is_earliest_expiry(lots@.take(i as int), now as int, best),
        decreases lots@.len() - i,
    {
        let lot = lots[i];
        let ghost before = lots@.take(i as int);
        let ghost after = lots@.take(i + 1);
        assert(forall|k: int| 0 <= k < i ==> #[trigger] after[k] == before[k]);
        assert(after[i as int] == lot);
        if lot.expires_at > now && lot.balance > 0 {
            match best {
                None => {
                    best = Some(lot.expires_at);
                },
                Some(t) => {
                    if lot.expires_at < t {
                        best = Some(lot.expires_at);
                    }
                },
            }
        }
        proof {
            match best {
                None => {
                    assert forall|k: int| 0 <= k < after.len() implies !is_usable(#[trigger] after[k], now as int) by {
                        if k < i {
                            assert(!is_usable(before[k], now as int));
                        }
                    }
                },
                Some(t) => {
                    assert forall|k: int| 0 <= k < after.len() && is_usable(#[trigger] after[k], now as int)
                        implies t <= after[k].expires_at by {
                        if k < i {
                            assert(is_usable(before[k], now as int));
                        }
                    }
                    if t == lot.expires_at && is_usable(lot, now as int) {
                        assert(is_usable(after[i as int], now as int));
                    } else {
                        let w = choose|w: int| 0 <= w < before.len() && is_usable(#[trigger] before[w], now as int) && before[w].expires_at == t;
                        assert(is_usable(after[w], now as int));
                    }
                },
            }
        }
        i += 1;
    }
    assert(lots@.take(lots@.len() as int) == lots@);
    best
}

proof fn lemma_expiring_by_le_available(lots: Seq<LotBalance>, now: int, horizon: int)
    ensures
        0 <= expiring_by(lots, now, horizon) <= available(lots, now),
    decreases lots.len(),
{
    if lots.len() > 0 {
        lemma_expiring_by_le_available(lots.drop_last(), now, horizon);
        lemma_total_push(usable_lots(lots.drop_last(), now), lots.last());
    }
}

/// Stamps of usable lots that lapse within seven days of `now`.
fn expiring_soon(lots: &[LotBalance], now: i64) -> (n: i64)
    requires
        now <= i64::MAX - WEEK_MICROS,
        available(lots@, now as int) <= i64::MAX,
    ensures
        n == expiring_by(lots@, now as int, now + WEEK_MICROS),
{
    let horizon = now + WEEK_MICROS;
    let mut sum: i64 = 0;
    let mut i: usize = 0;
    while i < lots.len()
        invariant
            0 <= i <= lots@.len(),
            horizon == now + WEEK_MICROS,
            available(lots@, now as int) <= i64::MAX,
            sum == expiring_by(lots@.take(i as int), now as int, horizon as int),
        decreases lots@.len() - i,
    {
        let lot = lots[i];
        proof {
            let t = lots@.take(i + 1);
            assert(t.drop_last() == lots@.take(i as int));
            assert(t.last() == lot);
            lemma_expiring_by_le_available(t, now as int, horizon as int);
            lemma_available_prefix_le(lots@, now as int, i + 1);
        }
        if lot.expires_at > now && lot.expires_at <= horizon && lot.balance > 0 {
            sum = sum + lot.balance;
        }
        i += 1;
    }
    assert(lots@.take(lots@.len() as int) == lots@);
    sum
}

/// The board for `lots` against a goal of `target` stamps (a target below one counts as one).
pub fn build_board(lots: &[LotBalance], target: i64, now: i64) -> (b: StampBoard)
    requires
        now <= i64::MAX - WEEK_MICROS,
        available(lots@, now as int) <= i64::MAX,
    ensures
        b.available == available(lots@, now as int),
        b.target == if target < 1 { 1 } else { target },
        b.remaining_to_goal == (b.target - b.available % b.target) % (b.target as int),
        is_earliest_expiry(lots@, now as int, b.earliest_expiry),
        b.expiring_within_seven_days == expiring_by(lots@, now as int, now + WEEK_MICROS),
{
    let available = available_stamps(lots, now);
    proof {
        lemma_usable_nonneg_total(lots@, now as int);
    }
    let target = if target < 1 { 1 } else { target };
    StampBoard {
        available,
        target,
        remaining_to_goal: (target - available % target) % target,
        earliest_expiry: earliest_expiry(lots, now),
        expiring_within_seven_days: expiring_soon(lots, now),
    }
}


/// How a stamp transaction stands.
#[derive(Debug, Clone, Copy, PartialEq, Eq, Structural)]
pub enum StampTransactionStatus {
    Confirmed,
    Voided,
    RequiresAdminReview,
}

impl StampTransactionStatus {
    /// Reads the stored spelling; anything unrecognised is held for an administrator.
    pub fn from_db(raw: &str) -> (st: StampTransactionStatus)
        ensures
            st == (if raw@ == "CONFIRMED"@ {
                StampTransactionStatus::Confirmed
            } else if raw@ == "VOIDED"@ {
                StampTransactionStatus::Voided
            } else {
                StampTransactionStatus::RequiresAdminReview
            }),
    {
        if str_eq(raw, "CONFIRMED") {
            StampTransactionStatus::Confirmed
        } else if str_eq(raw, "VOIDED") {
            StampTransactionStatus::Voided
        } else {
            StampTransactionStatus::RequiresAdminReview
        }
    }
}

/// What the owner shows the server to identify the customer.
#[derive(Debug, Clone, Copy, PartialEq, Eq)]
pub enum Presented<'a> {
    /// The signed payload read from the camera.
    Token(&'a str),
    /// The digits typed from the customer's screen.
    FallbackCode(&'a str),
}

/// How the owner identified the customer. Exactly one must be present.
#[derive(Debug, Clone, PartialEq, Eq)]
pub struct ScanRequest {
    pub qr_token: Option<String>,
    pub fallback_code: Option<String>,
}

impl ScanRequest {
    pub fn presented(&self) -> (r: Result<Presented<'_>, ApiError>)
        ensures
            match (self.qr_token, self.fallback_code) {
                (Some(t), None) => r matches Ok(Presented::Token(x)) && x@ == t@,
                (None, Some(c)) => r matches Ok(Presented::FallbackCode(x)) && x@ == c@,
                _ => r matches Err(e) && e.code == ErrorCode::InvalidRequest
                    && e.message@ == "QR 토큰 또는 8자리 보조 코드 중 하나만 보내 주세요."@,
            },
    {
        match (&self.qr_token, &self.fallback_code) {
            (Some(token), None) => Ok(Presented::Token(token.as_str())),
            (None, Some(code)) => Ok(Presented::FallbackCode(code.as_str())),
            _ => Err(ApiError::with_message(
                ErrorCode::InvalidRequest,
                "QR 토큰 또는 8자리 보조 코드 중 하나만 보내 주세요.",
            )),
        }
    }
}

impl ScanRequest {
    /// The scan issues, with the fallback code, when given, of 8 to 16 characters.
    pub open spec fn issues(self) -> Seq<Issue> {
        optional_length_issue("fallback_code"@, self.fallback_code, 8, 16, "length"@)
    }

    fn note_issues(&self, fields: &mut Vec<FieldError>)
        ensures
            fields_view(final(fields)@) == fields_view(old(fields)@) + self.issues(),
    {
        check_optional_length(fields, "fallback_code", &self.fallback_code, 8, 16, "length");
    }

    pub fn check(&self) -> (r: Result<(), ApiError>)
        ensures
            verdict_of(self.issues(), r),
    {
        let mut fields: Vec<FieldError> = Vec::new();
        self.note_issues(&mut fields);
        assert(fields_view(fields@) =~= self.issues());
        verdict(fields)
    }
}

/// The order as the owner typed it. The order's lines are checked where the catalog
/// resolves them.
#[derive(Debug, Clone, PartialEq, Eq)]
pub struct OrderInput {
    /// An optional POS reference; a new one is the owner's word that a near-duplicate is
    /// a separate order.
    pub external_order_ref: Option<String>,
    pub gross_amount: i64,
    pub currency: String,
}

impl OrderInput {
    /// A POS reference of at most 200 characters, when given, and an amount from 0 to
    /// 100,000,000; `at` is where the order sits in the request body.
    pub open spec fn issues(self, at: Seq<char>) -> Seq<Issue> {
        optional_length_issue(at + "external_order_ref"@, self.external_order_ref, 0, 200, "length"@)
            + range_issue(at + "gross_amount"@, self.gross_amount as int, 0, 100_000_000, "주문 금액을 확인해 주세요."@)
    }

    fn note_issues(&self, fields: &mut Vec<FieldError>, reference_field: &str, amount_field: &str)
        ensures
            fields_view(final(fields)@) == fields_view(old(fields)@)
                + optional_length_issue(reference_field@, self.external_order_ref, 0, 200, "length"@)
                + range_issue(amount_field@, self.gross_amount as int, 0, 100_000_000, "주문 금액을 확인해 주세요."@),
    {
        check_optional_length(fields, reference_field, &self.external_order_ref, 0, 200, "length");
        check_range(fields, amount_field, self.gross_amount, 0, 100_000_000, "주문 금액을 확인해 주세요.");
    }

    pub fn check(&self) -> (r: Result<(), ApiError>)
        ensures
            verdict_of(self.issues(""@), r),
    {
        let mut fields: Vec<FieldError> = Vec::new();
        self.note_issues(&mut fields, "external_order_ref", "gross_amount");
        proof {
            reveal_strlit("");
            assert(""@ + "external_order_ref"@ =~= "external_order_ref"@);
            assert(""@ + "gross_amount"@ =~= "gross_amount"@);
        }
        assert(fields_view(fields@) =~= self.issues(""@));
        verdict(fields)
    }
}

/// The issues of a request that carries a scan at its top level and an order under
/// `order`.
pub open spec fn scan_and_order_issues(scan: ScanRequest, order: OrderInput) -> Seq<Issue> {
    scan.issues() + order.issues("order."@)
}

fn check_scan_and_order(scan: &ScanRequest, order: &OrderInput) -> (r: Result<(), ApiError>)
    ensures
        verdict_of(scan_and_order_issues(*scan, *order), r),
{
    let mut fields: Vec<FieldError> = Vec::new();
    scan.note_issues(&mut fields);
    order.note_issues(&mut fields, "order.external_order_ref", "order.gross_amount");
    proof {
        reveal_strlit("order.");
        reveal_strlit("external_order_ref");
        reveal_strlit("gross_amount");
        reveal_strlit("order.external_order_ref");
        reveal_strlit("order.gross_amount");
        assert("order."@ + "external_order_ref"@ =~= "order.external_order_ref"@);
        assert("order."@ + "gross_amount"@ =~= "order.gross_amount"@);
    }
    assert(fields_view(fields@) =~= scan_and_order_issues(*scan, *order));
    verdict(fields)
}

/// A preview of an accrual: who the customer is, and the order.
#[derive(Debug, Clone, PartialEq, Eq)]
pub struct StampPreviewRequest {
    pub scan: ScanRequest,
    pub order: OrderInput,
}

impl StampPreviewRequest {
    pub fn check(&self) -> (r: Result<(), ApiError>)
        ensures
            verdict_of(scan_and_order_issues(self.scan, self.order), r),
    {
        check_scan_and_order(&self.scan, &self.order)
    }
}

/// An accrual the owner approves.
#[derive(Debug, Clone, PartialEq, Eq)]
pub struct ConfirmStampRequest {
    pub scan: ScanRequest,
    /// Echoed from the preview, for support; never a substitute for checking again.
    pub preview_id: Option<u128>,
    pub order: OrderInput,
    /// Approve despite a duplicate warning, having entered a distinct order reference.
    pub acknowledge_duplicate: bool,
}

impl ConfirmStampRequest {
    pub fn check(&self) -> (r: Result<(), ApiError>)
        ensures
            verdict_of(scan_and_order_issues(self.scan, self.order), r),
    {
        check_scan_and_order(&self.scan, &self.order)
    }
}

/// The owner's reversal of an accrual, with an optional reason.
#[derive(Debug, Clone, Default, PartialEq, Eq)]
pub struct VoidStampRequest {
    pub reason: Option<String>,
}

impl VoidStampRequest {
    /// A reason, when given, of 1 to 500 characters.
    pub fn check(&self) -> (r: Result<(), ApiError>)
        ensures
            verdict_of(optional_length_issue("reason"@, self.reason, 1, 500, "취소 사유를 입력해 주세요."@), r),
    {
        let mut fields: Vec<FieldError> = Vec::new();
        check_optional_length(&mut fields, "reason", &self.reason, 1, 500, "취소 사유를 입력해 주세요.");
        assert(fields_view(fields@) =~= optional_length_issue("reason"@, self.reason, 1, 500, "취소 사유를 입력해 주세요."@));
        verdict(fields)
    }
}

/// One reason an accrual cannot be approved as submitted.
#[derive(Debug, Clone, PartialEq, Eq)]
pub struct PreviewIssue {
    pub code: String,
    pub message: String,
}

/// The error code a blocking reason is reported under.
pub open spec fn blocker_code(code: Seq<char>) -> ErrorCode {
    if code == "MINIMUM_ORDER_NOT_MET"@ {
        ErrorCode::MinimumOrderNotMet
    } else if code == "ITEM_NOT_ELIGIBLE"@ {
        ErrorCode::ItemNotEligible
    } else if code == "DAILY_LIMIT_EXCEEDED"@ {
        ErrorCode::DailyLimitExceeded
    } else {
        ErrorCode::UnprocessableRequest
    }
}

/// Turn a blocking reason into the response `confirm` fails with.
pub fn blocker_to_error(blocker: &PreviewIssue) -> (e: ApiError)
    ensures
        e.code == blocker_code(blocker.code@),
        e.message@ == blocker.message@,
        e.internal is None,
        e.field_errors@.len() == 0,
{
    let raw = blocker.code.as_str();
    let code = if str_eq(raw, "MINIMUM_ORDER_NOT_MET") {
        ErrorCode::MinimumOrderNotMet
    } else if str_eq(raw, "ITEM_NOT_ELIGIBLE") {
        ErrorCode::ItemNotEligible
    } else if str_eq(raw, "DAILY_LIMIT_EXCEEDED") {
        ErrorCode::DailyLimitExceeded
    } else {
        ErrorCode::UnprocessableRequest
    };
    ApiError::with_message(code, blocker.message.as_str())
}

/// What a reward coupon shows the customer, and when it lapses. The title and
/// description are the policy's own, trimmed; a blank one falls back to wording of the
/// shop's, since the customer always reads them.
pub struct RewardCouponFace {
    pub title: String,
    pub description: String,
    /// Microseconds since the Unix epoch.
    pub expires_at: i64,
}

pub open spec fn reward_title_text(policy_name: Seq<char>, title: Seq<char>) -> Seq<char> {
    if trimmed(title).len() == 0 {
        policy_name + " 리워드"@
    } else {
        trimmed(title)
    }
}

pub open spec fn reward_description_text(description: Seq<char>) -> Seq<char> {
    if trimmed(description).len() == 0 {
        "도장 적립 보상으로 발급된 쿠폰입니다."@
    } else {
        trimmed(description)
    }
}

/// The face of a coupon issued at `now` for a completed board under this reward.
pub fn reward_coupon_face(policy_name: &str, reward: &RewardDefinition, now: i64) -> (f: RewardCouponFace)
    requires
        i64::MIN <= now + reward.validity_days * MICROS_PER_DAY <= i64::MAX,
    ensures
        f.title@ == reward_title_text(policy_name@, reward.title@),
        f.description@ == reward_description_text(reward.description@),
        f.expires_at == now + reward.validity_days * MICROS_PER_DAY,
{
    let title_chars = trim_chars(reward.title.as_str());
    let title = if title_chars.len() == 0 {
        let mut t = policy_name.to_string();
        push_str(&mut t, " 리워드");
        t
    } else {
        string_of(title_chars.as_slice())
    };
    let description_chars = trim_chars(reward.description.as_str());
    let description = if description_chars.len() == 0 {
        "도장 적립 보상으로 발급된 쿠폰입니다.".to_string()
    } else {
        string_of(description_chars.as_slice())
    };
    let span: i64 = reward.validity_days as i64 * 86_400_000_000i64;
    RewardCouponFace { title, description, expires_at: now + span }
}

/// What a scan shows the owner of the store's live policy.
#[derive(Debug, Clone, PartialEq, Eq)]
pub struct PolicySummary {
    pub policy_id: u128,
    pub version_no: i32,
    pub name: String,
    pub target_stamp_count: i64,
    pub stamps_per_order: i64,
    pub minimum_order_amount: i64,
    pub daily_earning_limit: Option<i64>,
    /// Whether only some items count towards stamps.
    pub restricts_items: bool,
    pub reward_title: String,
    pub reward_validity_days: i16,
}

/// The summary of a policy version.
pub fn summarise(policy_id: u128, version_no: i32, name: &str, rules: &PolicyRules, reward: &RewardDefinition) -> (s: PolicySummary)
    ensures
        s.policy_id == policy_id,
        s.version_no == version_no,
        s.name@ == name@,
        s.target_stamp_count == rules.target_stamp_count,
        s.stamps_per_order == rules.stamps_per_order,
        s.minimum_order_amount == rules.minimum_order_amount,
        s.daily_earning_limit == match rules.daily_earning_limit {
            Some(l) => Some(l as i64),
            None => None::<i64>,
        },
        s.restricts_items == (rules.eligible_item_ids@.len() > 0 || rules.eligible_category_ids@.len() > 0
            || rules.excluded_item_ids@.len() > 0),
        s.reward_title@ == reward.title@,
        s.reward_validity_days == reward.validity_days,
{
    let restricts_items = rules.restriction().restricts_items();
    PolicySummary {
        policy_id,
        version_no,
        name: name.to_string(),
        target_stamp_count: rules.target_stamp_count as i64,
        stamps_per_order: rules.stamps_per_order as i64,
        minimum_order_amount: rules.minimum_order_amount,
        daily_earning_limit: match rules.daily_earning_limit {
            Some(l) => Some(l as i64),
            None => None,
        },
        restricts_items,
        reward_title: reward.title.as_str().to_string(),
        reward_validity_days: reward.validity_days,
    }
}

/// A unique violation on the accrual idempotency key means another request with this
/// key has already written, or is writing, its accrual: one key makes one accrual even
/// when the middleware did not catch the replay. Anything else is `None`: the general
/// database mapping applies.
pub fn map_transaction_conflict(sqlstate: Option<&str>, constraint: Option<&str>) -> (r: Option<ApiError>)
    ensures
        (sqlstate matches Some(c) && c@ == "23505"@) && (constraint matches Some(k) && k@ == "uq_stamp_transaction_idempotency"@)
            ==> (r matches Some(e) && e.code == ErrorCode::IdempotencyRequestInProgress
                && (e.internal matches Some(d) && d@ == "stamp transaction idempotency key is already in use"@)),
        !((sqlstate matches Some(c) && c@ == "23505"@) && (constraint matches Some(k) && k@ == "uq_stamp_transaction_idempotency"@))
            ==> r is None,
{
    let unique = match sqlstate {
        Some(c) => str_eq(c, "23505"),
        None => false,
    };
    let on_key = match constraint {
        Some(k) => str_eq(k, "uq_stamp_transaction_idempotency"),
        None => false,
    };
    if unique && on_key {
        Some(ApiError::new(ErrorCode::IdempotencyRequestInProgress).internal("stamp transaction idempotency key is already in use"))
    } else {
        None
    }
}

/// The currency an order is in when it names none.
pub fn default_currency() -> (c: String)
    ensures
        c@ == "KRW"@,
{
    "KRW".to_string()
}

/// `name` as the owner may see it: its first character, then one `*` per further
/// character (at least one), or `고객` when it is blank.
pub open spec fn masked_name(name: Seq<char>) -> Seq<char> {
    let t = trimmed(name);
    if t.len() == 0 {
        seq!['고', '객']
    } else {
        seq![t[0]] + Seq::new(if t.len() > 1 { (t.len() - 1) as nat } else { 1 }, |i: int| '*')
    }
}

/// Show the owner enough to tell two customers apart, and no more.
pub fn mask_display_name(display_name: &str) -> (m: String)
    ensures
        m@ == masked_name(display_name@),
{
    let t = trim_chars(display_name);
    if t.len() == 0 {
        let anonymous = "고객";
        proof {
            reveal_strlit("고객");
        }
        return anonymous.to_string();
    }
    let mut out = String::new();
    push_char(&mut out, t[0]);
    let stars: usize = if t.len() > 1 { t.len() - 1 } else { 1 };
    let ghost want = masked_name(display_name@);
    let mut i: usize = 0;
    while i < stars
        invariant
            i <= stars,
            t@ == trimmed(display_name@),
            t@.len() > 0,
            stars == (if t@.len() > 1 { (t@.len() - 1) as nat } else { 1 }),
            want == masked_name(display_name@),
            out@ == want.take(i + 1),
            want.len() == stars + 1,
        decreases stars - i,
    {
        push_char(&mut out, '*');
        assert(want.take(i + 2) == want.take(i + 1).push(want[i + 1]));
        i += 1;
    }
    assert(want.take(stars + 1) == want);
    out
}

/// The letters a customer alias is spelled with: no `0`/`O` or `1`/`I`, because owners
/// read aliases aloud.
pub open spec fn alias_alphabet() -> Seq<char> {
    "23456789ABCDEFGHJKLMNPQRSTUVWXYZ"@
}

/// `손님-` and one letter per byte of the first four of `digest`, each byte picking the
/// letter at its remainder by 32.
pub open spec fn alias_text(digest: Seq<u8>) -> Seq<char> {
    let n = if digest.len() < 4 { digest.len() } else { 4 };
    "손님-"@ + Seq::new(n, |i: int| alias_alphabet()[(digest[i] % 32) as int])
}

/// The alias an owner sees for a customer, from the customer's keyed digest.
pub fn customer_alias(digest: &[u8]) -> (a: String)
    ensures
        a@ == alias_text(digest@),
{
    proof {
        reveal_strlit("23456789ABCDEFGHJKLMNPQRSTUVWXYZ");
    }
    let alphabet = chars_of("23456789ABCDEFGHJKLMNPQRSTUVWXYZ");
    let n: usize = if digest.len() < 4 { digest.len() } else { 4 };
    let mut a = "손님-".to_string();
    let ghost prefix = a@;
    let mut i: usize = 0;
    while i < n
        invariant
            0 <= i <= n <= 4,
            n <= digest@.len(),
            alphabet@ == alias_alphabet(),
            alphabet@.len() == 32,
            a@ == prefix + Seq::new(i as nat, |k: int| alias_alphabet()[(digest@[k] % 32) as int]),
        decreases n - i,
    {
        let c = alphabet[(digest[i] % 32) as usize];
        push_char(&mut a, c);
        assert(Seq::new((i + 1) as nat, |k: int| alias_alphabet()[(digest@[k] % 32) as int])
            =~= Seq::new(i as nat, |k: int| alias_alphabet()[(digest@[k] % 32) as int]).push(c));
        i += 1;
    }
    a
}

/// An earlier accrual to the same customer for the same amount inside the policy's
/// duplicate window.
#[derive(Debug, Clone, PartialEq, Eq)]
pub struct PriorAccrual {
    pub external_order_ref: Option<String>,
    /// When it was confirmed, as RFC 3339 text.
    pub confirmed_at: String,
}

/// Everything the accrual checks read, gathered before they run.
#[derive(Debug, Clone, PartialEq, Eq)]
pub struct AccrualFacts {
    pub currency: String,
    /// The catalog's reason for refusing the order's items, if it refused them.
    pub item_rejection: Option<PreviewIssue>,
    /// The part of the order that counts, after item restrictions.
    pub eligible_amount: i64,
    pub minimum_order_amount: i64,
    /// Accruals already confirmed for this customer today.
    pub daily_used: i64,
    pub daily_limit: Option<i64>,
    /// When the next business day starts, as RFC 3339 text.
    pub next_business_day_start: String,
    pub duplicate: Option<PriorAccrual>,
    pub external_order_ref: Option<String>,
    /// The owner is accruing to their own customer account.
    pub self_transaction: bool,
}

/// What the accrual checks found: blocking reasons, warnings the owner sees before
/// approving, and whether a suspected duplicate carries an order reference of its own.
#[derive(Debug, Clone, PartialEq, Eq)]
pub struct AccrualChecks {
    pub blockers: Vec<PreviewIssue>,
    pub warnings: Vec<PreviewIssue>,
    pub duplicate_suspected: bool,
    pub has_distinct_order_ref: bool,
}

pub open spec fn issue_view(i: PreviewIssue) -> (Seq<char>, Seq<char>) {
    (i.code@, i.message@)
}

pub open spec fn issues_view(s: Seq<PreviewIssue>) -> Seq<(Seq<char>, Seq<char>)> {
    s.map_values(|i: PreviewIssue| issue_view(i))
}

/// `s` with `issue` appended when `cond` holds.
pub open spec fn noted_issue(s: Seq<(Seq<char>, Seq<char>)>, cond: bool, issue: (Seq<char>, Seq<char>)) -> Seq<(Seq<char>, Seq<char>)> {
    if cond { s.push(issue) } else { s }
}

/// Why an accrual cannot be approved: a currency other than won, the catalog's refusal
/// of the items, an eligible amount below the minimum (measured against what qualifies,
/// so padding the bill with excluded items does not help), or today's limit reached.
pub open spec fn accrual_blockers(f: AccrualFacts) -> Seq<(Seq<char>, Seq<char>)> {
    let s = noted_issue(Seq::empty(), f.currency@ != "KRW"@, ("UNSUPPORTED_CURRENCY"@, "원화 주문만 처리할 수 있습니다."@));
    let s = match f.item_rejection {
        Some(r) => s.push(issue_view(r)),
        None => s,
    };
    let s = noted_issue(s, f.eligible_amount < f.minimum_order_amount, (
        "MINIMUM_ORDER_NOT_MET"@,
        "최소 주문 금액까지 "@ + int_text(f.minimum_order_amount - f.eligible_amount) + "원 부족합니다."@,
    ));
    noted_issue(s, f.daily_limit matches Some(limit) && f.daily_used >= limit, (
        "DAILY_LIMIT_EXCEEDED"@,
        "오늘은 이미 "@ + int_text(f.daily_used as int) + "회 적립했습니다. 다음 영업일은 "@
            + f.next_business_day_start@ + " 부터입니다."@,
    ))
}

/// What the owner is warned of: a suspected duplicate, and an accrual to their own
/// account, which is allowed but never silent.
pub open spec fn accrual_warnings(f: AccrualFacts) -> Seq<(Seq<char>, Seq<char>)> {
    let s = match f.duplicate {
        Some(prior) => seq![(
            "DUPLICATE_TRANSACTION_SUSPECTED"@,
            prior.confirmed_at@ + " 에 같은 금액의 적립이 있었습니다. 별도 주문이면 주문번호를 입력해 주세요."@,
        )],
        None => Seq::empty(),
    };
    noted_issue(s, f.self_transaction, ("SELF_TRANSACTION"@, "점주 본인 계정에 대한 적립입니다. 위험 집계에 포함됩니다."@))
}

fn add_issue(v: &mut Vec<PreviewIssue>, code: &str, message: String)
    ensures
        issues_view(final(v)@) == issues_view(old(v)@).push((code@, message@)),
{
    let issue = PreviewIssue { code: code.to_string(), message };
    let ghost before = v@;
    v.push(issue);
    assert(issues_view(v@) == issues_view(before).push(issue_view(issue)));
}

fn push_digits(s: &mut String, n: i64)
    ensures
        final(s)@ == old(s)@ + int_text(n as int),
{
    let digits = crate::text::i64_chars(n);
    let ghost before = s@;
    let mut i: usize = 0;
    while i < digits.len()
        invariant
            0 <= i <= digits@.len(),
            s@ == before + digits@.take(i as int),
        decreases digits@.len() - i,
    {
        push_char(s, digits[i]);
        assert(digits@.take(i + 1) == digits@.take(i as int).push(digits@[i as int]));
        i += 1;
    }
    assert(digits@.take(digits@.len() as int) == digits@);
}

/// Run the accrual checks shared by preview and confirm, so the two cannot drift.
pub fn assess_accrual(facts: &AccrualFacts) -> (c: AccrualChecks)
    requires
        i64::MIN <= facts.minimum_order_amount - facts.eligible_amount <= i64::MAX,
    ensures
        issues_view(c.blockers@) == accrual_blockers(*facts),
        issues_view(c.warnings@) == accrual_warnings(*facts),
        c.duplicate_suspected == (facts.duplicate is Some),
        c.has_distinct_order_ref == match (facts.duplicate, facts.external_order_ref) {
            (Some(prior), Some(reference)) => match prior.external_order_ref {
                Some(previous) => previous@ != reference@,
                None => true,
            },
            _ => false,
        },
{
    let mut blockers: Vec<PreviewIssue> = Vec::new();
    let mut warnings: Vec<PreviewIssue> = Vec::new();
    assert(issues_view(blockers@) == Seq::<(Seq<char>, Seq<char>)>::empty());
    assert(issues_view(warnings@) == Seq::<(Seq<char>, Seq<char>)>::empty());
    if !str_eq(facts.currency.as_str(), "KRW") {
        add_issue(&mut blockers, "UNSUPPORTED_CURRENCY", "원화 주문만 처리할 수 있습니다.".to_string());
    }
    match &facts.item_rejection {
        Some(r) => {
            add_issue(&mut blockers, r.code.as_str(), r.message.as_str().to_string());
        },
        None => {},
    }
    if facts.eligible_amount < facts.minimum_order_amount {
        let mut message = "최소 주문 금액까지 ".to_string();
        push_digits(&mut message, facts.minimum_order_amount - facts.eligible_amount);
        crate::text::push_str(&mut message, "원 부족합니다.");
        add_issue(&mut blockers, "MINIMUM_ORDER_NOT_MET", message);
    }
    match facts.daily_limit {
        Some(limit) => {
            if facts.daily_used >= limit {
                let mut message = "오늘은 이미 ".to_string();
                push_digits(&mut message, facts.daily_used);
                crate::text::push_str(&mut message, "회 적립했습니다. 다음 영업일은 ");
                crate::text::push_str(&mut message, facts.next_business_day_start.as_str());
                crate::text::push_str(&mut message, " 부터입니다.");
                add_issue(&mut blockers, "DAILY_LIMIT_EXCEEDED", message);
            }
        },
        None => {},
    }
    let has_distinct_order_ref = match (&facts.duplicate, &facts.external_order_ref) {
        (Some(prior), Some(reference)) => match &prior.external_order_ref {
            Some(previous) => !str_eq(previous.as_str(), reference.as_str()),
            None => true,
        },
        _ => false,
    };
    match &facts.duplicate {
        Some(prior) => {
            let mut message = prior.confirmed_at.as_str().to_string();
            crate::text::push_str(&mut message, " 에 같은 금액의 적립이 있었습니다. 별도 주문이면 주문번호를 입력해 주세요.");
            add_issue(&mut warnings, "DUPLICATE_TRANSACTION_SUSPECTED", message);
        },
        None => {},
    }
    if facts.self_transaction {
        add_issue(&mut warnings, "SELF_TRANSACTION", "점주 본인 계정에 대한 적립입니다. 위험 집계에 포함됩니다.".to_string());
    }
    AccrualChecks {
        blockers,
        warnings,
        duplicate_suspected: facts.duplicate.is_some(),
        has_distinct_order_ref,
    }
}

/// Whether a confirmation may go ahead: the first blocker refuses it, and so does a
/// suspected duplicate unless the owner acknowledged it and entered an order reference
/// of its own.
pub fn confirm_gate(checks: &AccrualChecks, acknowledge_duplicate: bool) -> (r: Result<(), ApiError>)
    ensures
        checks.blockers@.len() > 0 ==> (r matches Err(e) && e.code == blocker_code(checks.blockers@[0].code@)
            && e.message@ == checks.blockers@[0].message@),
        checks.blockers@.len() == 0 && checks.duplicate_suspected && !(acknowledge_duplicate && checks.has_distinct_order_ref)
            ==> (r matches Err(e) && e.code == ErrorCode::DuplicateTransactionSuspected),
        checks.blockers@.len() == 0 && !(checks.duplicate_suspected && !(acknowledge_duplicate && checks.has_distinct_order_ref))
            ==> r is Ok,
{
    if checks.blockers.len() > 0 {
        return Err(blocker_to_error(&checks.blockers[0]));
    }
    if checks.duplicate_suspected && !(acknowledge_duplicate && checks.has_distinct_order_ref) {
        return Err(ApiError::new(ErrorCode::DuplicateTransactionSuspected).internal("duplicate of an earlier accrual"));
    }
    Ok(())
}

/// Whether the owner may reverse an accrual: only a confirmed one, and only inside the
/// void window after it was confirmed.
pub fn void_gate(status: StampTransactionStatus, confirmed_at: i64, void_window_micros: i64, now: i64) -> (r: Result<(), ApiError>)
    ensures
        status != StampTransactionStatus::Confirmed ==> (r matches Err(e) && e.code == ErrorCode::InvalidStateTransition
            && e.message@ == "이미 취소되었거나 관리자 확인이 필요한 거래입니다."@),
        status == StampTransactionStatus::Confirmed && now > confirmed_at + void_window_micros
            ==> (r matches Err(e) && e.code == ErrorCode::VoidWindowExpired),
        status == StampTransactionStatus::Confirmed && now <= confirmed_at + void_window_micros ==> r is Ok,
{
    if status != StampTransactionStatus::Confirmed {
        return Err(ApiError::with_message(
            ErrorCode::InvalidStateTransition,
            "이미 취소되었거나 관리자 확인이 필요한 거래입니다.",
        ));
    }
    if now as i128 > confirmed_at as i128 + void_window_micros as i128 {
        return Err(ApiError::new(ErrorCode::VoidWindowExpired));
    }
    Ok(())
}

/// A reward that a voided accrual paid for is revoked with it, but only while it is
/// still unused: a used, reserved or otherwise changed reward leaves the void to an
/// administrator. `status` is the coupon's stored status.
pub fn reward_revocation_gate(status: &str, coupon_id: u128) -> (r: Result<(), ApiError>)
    ensures
        status@ == "AVAILABLE"@ ==> r is Ok,
        status@ == "USED"@ ==> (r matches Err(e) && e.code == ErrorCode::RequiresAdminReview
            && e.message@ == "이미 사용된 리워드가 있어 점주가 취소할 수 없습니다."@),
        status@ == "RESERVED"@ ==> (r matches Err(e) && e.code == ErrorCode::RequiresAdminReview
            && e.message@ == "사용 예약 중인 리워드가 있어 점주가 취소할 수 없습니다."@),
        status@ != "AVAILABLE"@ && status@ != "USED"@ && status@ != "RESERVED"@ ==> (r matches Err(e)
            && e.code == ErrorCode::RequiresAdminReview
            && e.message@ == "리워드 상태가 변경되어 점주가 취소할 수 없습니다."@
            && (e.internal matches Some(d) && d@ == "reward coupon "@ + uuid_text(coupon_id) + " is "@ + status@)),
{
    proof {
        reveal_strlit("AVAILABLE");
        reveal_strlit("USED");
        reveal_strlit("RESERVED");
        assert("AVAILABLE"@.len() != "USED"@.len() && "AVAILABLE"@.len() != "RESERVED"@.len());
        assert("USED"@.len() != "RESERVED"@.len());
    }
    if str_eq(status, "AVAILABLE") {
        Ok(())
    } else if str_eq(status, "USED") {
        Err(ApiError::with_message(ErrorCode::RequiresAdminReview, "이미 사용된 리워드가 있어 점주가 취소할 수 없습니다."))
    } else if str_eq(status, "RESERVED") {
        Err(ApiError::with_message(ErrorCode::RequiresAdminReview, "사용 예약 중인 리워드가 있어 점주가 취소할 수 없습니다."))
    } else {
        let mut detail = "reward coupon ".to_string();
        let id = uuid_string(coupon_id);
        push_str(&mut detail, id.as_str());
        push_str(&mut detail, " is ");
        push_str(&mut detail, status);
        Err(ApiError::with_message(ErrorCode::RequiresAdminReview, "리워드 상태가 변경되어 점주가 취소할 수 없습니다.")
            .internal(detail.as_str()))
    }
}

/// The message an owner gets when a reward in this state blocks a void.
pub open spec fn revocation_refusal(status: Seq<char>) -> Seq<char> {
    if status == "USED"@ {
        "이미 사용된 리워드가 있어 점주가 취소할 수 없습니다."@
    } else if status == "RESERVED"@ {
        "사용 예약 중인 리워드가 있어 점주가 취소할 수 없습니다."@
    } else {
        "리워드 상태가 변경되어 점주가 취소할 수 없습니다."@
    }
}

/// Where an owner's void ends.
#[derive(Debug, Clone)]
pub enum VoidOutcome {
    /// Refused before anything is written: the whole transaction is rolled back.
    Refused(ApiError),
    /// The accrual's stamps have already been spent, so it cannot be reversed safely:
    /// the void stops, the accrual alone is flagged for an administrator and nothing else
    /// is written, and the owner is refused with `error`.
    Flagged(ApiError),
    /// Voided: the rewards are revoked, the stamps they drew are restored, and the
    /// accrual's lot takes the reversal `reversal`.
    Voided { lot_id: u128, reversal: i64 },
}

/// The decision of an owner's void, from what it read in order: the accrual's status and
/// confirmation time; the rewards it paid for (in the order they are locked) with each
/// one's stored status; and the accrual's own lot as `(id, balance, original quantity)`.
/// The first reward that is not unused stops the void, and nothing is written.
pub fn void_decision(
    status: StampTransactionStatus,
    confirmed_at: i64,
    void_window_micros: i64,
    now: i64,
    rewards: &Vec<(u128, String)>,
    lot: Option<(u128, i64, i64)>,
) -> (o: VoidOutcome)
    requires
        lot matches Some(l) ==> l.2 > i64::MIN,
    ensures
        status != StampTransactionStatus::Confirmed ==> (o matches VoidOutcome::Refused(e)
            && e.code == ErrorCode::InvalidStateTransition
            && e.message@ == "이미 취소되었거나 관리자 확인이 필요한 거래입니다."@),
        status == StampTransactionStatus::Confirmed && now > confirmed_at + void_window_micros
            ==> (o matches VoidOutcome::Refused(e) && e.code == ErrorCode::VoidWindowExpired),
        status == StampTransactionStatus::Confirmed && now <= confirmed_at + void_window_micros ==> {
            if exists|k: int| 0 <= k < rewards@.len() && rewards@[k].1@ != "AVAILABLE"@ {
                exists|k: int| #![trigger rewards@[k]] 0 <= k < rewards@.len() && rewards@[k].1@ != "AVAILABLE"@
                    && (forall|j: int| 0 <= j < k ==> rewards@[j].1@ == "AVAILABLE"@)
                    && (o matches VoidOutcome::Refused(e) && e.code == ErrorCode::RequiresAdminReview
                        && e.message@ == revocation_refusal(rewards@[k].1@))
            } else {
                match lot {
                    None => o matches VoidOutcome::Refused(e) && e.code == ErrorCode::RequiresAdminReview,
                    Some(l) => if l.1 < l.2 {
                        o matches VoidOutcome::Flagged(e) && e.code == ErrorCode::RequiresAdminReview
                            && e.message@ == "이 적립의 도장이 이미 사용되어 점주가 취소할 수 없습니다."@
                    } else {
                        o matches VoidOutcome::Voided { lot_id, reversal } && lot_id == l.0 && reversal == -l.2
                    },
                }
            }
        },
{
    match void_gate(status, confirmed_at, void_window_micros, now) {
        Ok(()) => {},
        Err(e) => {
            return VoidOutcome::Refused(e);
        },
    }
    proof {
        reveal_strlit("AVAILABLE");
        reveal_strlit("USED");
        reveal_strlit("RESERVED");
    }
    let mut i: usize = 0;
    while i < rewards.len()
        invariant
            0 <= i <= rewards@.len(),
            status == StampTransactionStatus::Confirmed,
            now <= confirmed_at + void_window_micros,
            forall|j: int| 0 <= j < i ==> rewards@[j].1@ == "AVAILABLE"@,
        decreases rewards@.len() - i,
    {
        let (id, coupon_status) = (rewards[i].0, rewards[i].1.as_str());
        match reward_revocation_gate(coupon_status, id) {
            Ok(()) => {},
            Err(e) => {
                assert(rewards@[i as int].1@ != "AVAILABLE"@);
                assert(e.message@ == revocation_refusal(rewards@[i as int].1@));
                return VoidOutcome::Refused(e);
            },
        }
        i += 1;
    }
    match lot {
        None => VoidOutcome::Refused(
            ApiError::new(ErrorCode::RequiresAdminReview).internal("the accrual has no lot to reverse"),
        ),
        Some((lot_id, balance, original_quantity)) => match lot_reversal(balance, original_quantity) {
            Ok(reversal) => VoidOutcome::Voided { lot_id, reversal },
            Err(e) => VoidOutcome::Flagged(e),
        },
    }
}

/// One ledger row an accrual's goal completion wrote: the lot it drew from, the
/// (negative) quantity, and the reward it paid for.
#[derive(Debug, Clone, Copy, PartialEq, Eq, Structural)]
pub struct Consumption {
    pub lot_id: u128,
    pub quantity_delta: i64,
    pub reward_coupon_id: Option<u128>,
}

/// The rewards a reversal takes back: each reward the consumptions paid for, once, in
/// ascending order.
pub open spec fn rewards_in(c: Seq<Consumption>) -> Set<u128> {
    Set::new(|r: u128| exists|k: int| 0 <= k < c.len() && c[k].reward_coupon_id == Some(r))
}

pub fn rewards_to_revoke(consumed: &Vec<Consumption>) -> (r: Vec<u128>)
    ensures
        forall|a: int, b: int| 0 <= a < b < r@.len() ==> r@[a] < r@[b],
        r@.to_set() == rewards_in(consumed@),
{
    let mut out: Vec<u128> = Vec::new();
    let mut i: usize = 0;
    while i < consumed.len()
        invariant
            0 <= i <= consumed@.len(),
            forall|a: int, b: int| 0 <= a < b < out@.len() ==> out@[a] < out@[b],
            out@.to_set() == rewards_in(consumed@.take(i as int)),
        decreases consumed@.len() - i,
    {
        let ghost t0 = consumed@.take(i as int);
        let ghost t1 = consumed@.take(i + 1);
        let ghost here = consumed@[i as int];
        proof {
            assert forall|r: u128| rewards_in(t1).contains(r) <==>
                (rewards_in(t0).contains(r) || here.reward_coupon_id == Some(r)) by {
                if rewards_in(t1).contains(r) {
                    let k = choose|k: int| 0 <= k < t1.len() && #[trigger] t1[k].reward_coupon_id == Some(r);
                    if k < t0.len() {
                        assert(t0[k] == t1[k]);
                    }
                }
                if rewards_in(t0).contains(r) {
                    let k = choose|k: int| 0 <= k < t0.len() && #[trigger] t0[k].reward_coupon_id == Some(r);
                    assert(t1[k] == t0[k]);
                }
                if here.reward_coupon_id == Some(r) {
                    assert(t1[t0.len() as int] == here);
                }
            }
        }
        match consumed[i].reward_coupon_id {
            None => {
                assert(out@.to_set() =~= rewards_in(t1));
            },
            Some(id) => {
                insert_sorted(&mut out, id);
                assert(out@.to_set() =~= rewards_in(t1));
            },
        }
        i += 1;
    }
    assert(consumed@.take(consumed@.len() as int) == consumed@);
    out
}

/// The ledger rows that give back what the consumptions took: the same lots, the
/// opposite quantities, in the same order.
pub fn restorations(consumed: &Vec<Consumption>) -> (r: Vec<(u128, i64)>)
    requires
        forall|k: int| 0 <= k < consumed@.len() ==> #[trigger] consumed@[k].quantity_delta > i64::MIN,
    ensures
        r@.len() == consumed@.len(),
        forall|k: int| 0 <= k < r@.len() ==> #[trigger] r@[k] == (consumed@[k].lot_id, (-consumed@[k].quantity_delta) as i64),
{
    let mut out: Vec<(u128, i64)> = Vec::new();
    let mut i: usize = 0;
    while i < consumed.len()
        invariant
            0 <= i <= consumed@.len(),
            out@.len() == i,
            forall|k: int| 0 <= k < consumed@.len() ==> #[trigger] consumed@[k].quantity_delta > i64::MIN,
            forall|k: int| 0 <= k < i ==> #[trigger] out@[k] == (consumed@[k].lot_id, (-consumed@[k].quantity_delta) as i64),
        decreases consumed@.len() - i,
    {
        let c = consumed[i];
        out.push((c.lot_id, -c.quantity_delta));
        i += 1;
    }
    out
}

/// What the owner's reversal takes off the accrual's own lot: everything it granted,
/// unless some of it has been spent, in which case the reversal needs an administrator.
pub fn lot_reversal(balance: i64, original_quantity: i64) -> (r: Result<i64, ApiError>)
    requires
        original_quantity > i64::MIN,
    ensures
        balance < original_quantity ==> (r matches Err(e) && e.code == ErrorCode::RequiresAdminReview
            && e.message@ == "이 적립의 도장이 이미 사용되어 점주가 취소할 수 없습니다."@),
        balance >= original_quantity ==> r == Ok::<i64, ApiError>((-original_quantity) as i64),
{
    if balance < original_quantity {
        return Err(ApiError::with_message(
            ErrorCode::RequiresAdminReview,
            "이 적립의 도장이 이미 사용되어 점주가 취소할 수 없습니다.",
        ));
    }
    Ok(-original_quantity)
}

/// What an administrator's reversal can still take off a lot: what it granted, but no
/// more than it holds.
pub fn admin_removable(original_quantity: i64, balance: i64) -> (n: i64)
    ensures
        n == if original_quantity <= balance { original_quantity } else { balance },
{
    if original_quantity <= balance {
        original_quantity
    } else {
        balance
    }
}

/// The board counts towards the next reward: what remains is less than a whole goal,
/// and together with the stamps held it makes a whole number of goals. A board holding
/// exactly a multiple of the target needs nothing more.
pub proof fn law_the_board_counts_towards_the_next_reward(available: i64, target: i64)
    requires
        available >= 0,
        target >= 1,
    ensures
        0 <= (target - available % target) % (target as int) < target,
        (available + (target - available % target) % (target as int)) % (target as int) == 0,
        available % target == 0 ==> (target - available % target) % (target as int) == 0,
{
    let t = target as int;
    let a = available as int;
    let r = a % t;
    assert(0 <= r < t);
    if r == 0 {
        assert((t - r) % t == 0) by {
            vstd::arithmetic::div_mod::lemma_mod_self_0(t);
        }
        assert((a + 0) % t == 0);
    } else {
        assert((t - r) % t == t - r) by {
            vstd::arithmetic::div_mod::lemma_small_mod((t - r) as nat, t as nat);
        }
        assert(a == t * (a / t) + r) by {
            vstd::arithmetic::div_mod::lemma_fundamental_div_mod(a, t);
        }
        assert((a + (t - r)) == t * (a / t + 1)) by (nonlinear_arith)
            requires
                a == t * (a / t) + r;
        assert((t * (a / t + 1)) % t == 0) by {
            vstd::arithmetic::div_mod::lemma_mod_multiples_basic(a / t + 1, t);
        }
    }
}

/// Stamps left over after the last whole reward stay on the board: the plan spends
/// exactly the available stamps less their remainder modulo the target.
pub proof fn law_leftover_stamps_are_carried_forward(lots: Seq<LotBalance>, now: int, s: Seq<LotBalance>, target: int)
    requires
        spending_order(lots, now, s),
        target > 0,
    ensures
        plan_of(s, target).len() * target + available(lots, now) % target == available(lots, now),
{
    lemma_usable_nonneg_total(lots, now);
    let a = available(lots, now);
    assert(a == target * (a / target) + a % target) by {
        vstd::arithmetic::div_mod::lemma_fundamental_div_mod(a, target);
    }
    assert((a / target) * target == target * (a / target)) by (nonlinear_arith);
}

} // verus!
