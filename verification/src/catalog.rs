//! Which catalog items an order line may count towards.

use vstd::prelude::*;

verus! {

/// The item filter a stamp policy carries.
#[derive(Debug, Clone, PartialEq, Eq)]
pub struct ItemRestriction {
    pub eligible_item_ids: Vec<u128>,
    pub eligible_category_ids: Vec<u128>,
    pub excluded_item_ids: Vec<u128>,
}

impl ItemRestriction {
    /// Whether any item is singled out, by inclusion or by exclusion.
    pub fn restricts_items(&self) -> (r: bool)
        ensures
            r == (self.eligible_item_ids@.len() > 0 || self.eligible_category_ids@.len() > 0
                || self.excluded_item_ids@.len() > 0),
    {
        self.eligible_item_ids.len() > 0 || self.eligible_category_ids.len() > 0
            || self.excluded_item_ids.len() > 0
    }
}

/// A copy of a list of ids.
pub fn copy_ids(ids: &Vec<u128>) -> (r: Vec<u128>)
    ensures
        r@ == ids@,
{
    let mut r: Vec<u128> = Vec::new();
    let mut i: usize = 0;
    while i < ids.len()
        invariant
            0 <= i <= ids@.len(),
            r@ == ids@.take(i as int),
        decreases ids@.len() - i,
    {
        r.push(ids[i]);
        assert(ids@.take(i + 1) == ids@.take(i as int).push(ids@[i as int]));
        i += 1;
    }
    assert(ids@.take(ids@.len() as int) == ids@);
    r
}

/// Insert `id` into a strictly increasing list, unless it is already there.
pub fn insert_sorted(out: &mut Vec<u128>, id: u128)
    requires
        forall|a: int, b: int| 0 <= a < b < old(out)@.len() ==> old(out)@[a] < old(out)@[b],
    ensures
        forall|a: int, b: int| 0 <= a < b < final(out)@.len() ==> final(out)@[a] < final(out)@[b],
        final(out)@.to_set() == old(out)@.to_set().insert(id),
{
    let ghost before = out@;
    let mut pos: usize = 0;
    while pos < out.len() && out[pos] < id
        invariant
            0 <= pos <= out@.len(),
            out@ == before,
            forall|k: int| 0 <= k < pos ==> #[trigger] out@[k] < id,
        decreases out@.len() - pos,
    {
        pos += 1;
    }
    if pos < out.len() && out[pos] == id {
        assert(out@.contains(id));
        assert(out@.to_set() =~= before.to_set().insert(id));
    } else {
        out.insert(pos, id);
        proof {
            assert(out@ == before.insert(pos as int, id));
            assert forall|a: int, b: int| 0 <= a < b < out@.len() implies out@[a] < out@[b] by {
                if b < pos {
                    assert(out@[a] == before[a] && out@[b] == before[b]);
                } else if b == pos {
                    assert(out@[a] == before[a]);
                } else if a < pos {
                    assert(out@[b] == before[b - 1]);
                    assert(before[pos as int] > id);
                    if b - 1 > pos {
                        assert(before[pos as int] < before[b - 1]);
                    }
                } else if a == pos {
                    assert(out@[b] == before[b - 1]);
                    if b - 1 > pos {
                        assert(before[pos as int] < before[b - 1]);
                    }
                } else {
                    assert(out@[a] == before[a - 1] && out@[b] == before[b - 1]);
                }
            }
            assert forall|r: u128| out@.to_set().contains(r) <==> before.to_set().insert(id).contains(r) by {
                if out@.contains(r) {
                    let k = choose|k: int| 0 <= k < out@.len() && out@[k] == r;
                    if k < pos {
                        assert(before[k] == r);
                    } else if k > pos {
                        assert(before[k - 1] == r);
                    }
                }
                if before.contains(r) {
                    let k = choose|k: int| 0 <= k < before.len() && before[k] == r;
                    if k < pos {
                        assert(out@[k] == r);
                    } else {
                        assert(out@[k + 1] == r);
                    }
                }
                if r == id {
                    assert(out@[pos as int] == id);
                }
            }
            assert(out@.to_set() =~= before.to_set().insert(id));
        }
    }
}

/// Add every id of `ids` to a strictly increasing list.
pub fn insert_all_sorted(out: &mut Vec<u128>, ids: &Vec<u128>)
    requires
        forall|a: int, b: int| 0 <= a < b < old(out)@.len() ==> old(out)@[a] < old(out)@[b],
    ensures
        forall|a: int, b: int| 0 <= a < b < final(out)@.len() ==> final(out)@[a] < final(out)@[b],
        final(out)@.to_set() == old(out)@.to_set() + ids@.to_set(),
{
    let ghost start = out@.to_set();
    let mut i: usize = 0;
    while i < ids.len()
        invariant
            0 <= i <= ids@.len(),
            forall|a: int, b: int| 0 <= a < b < out@.len() ==> out@[a] < out@[b],
            out@.to_set() == start + ids@.take(i as int).to_set(),
        decreases ids@.len() - i,
    {
        insert_sorted(out, ids[i]);
        proof {
            assert(ids@.take(i + 1) == ids@.take(i as int).push(ids@[i as int]));
            ids@.take(i as int).lemma_push_to_set_commute(ids@[i as int]);
            assert(out@.to_set() =~= start + ids@.take(i + 1).to_set());
        }
        i += 1;
    }
    assert(ids@.take(ids@.len() as int) == ids@);
}

} // verus!
