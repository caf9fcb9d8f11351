//! Stable ordering of entries by their keys.

use vstd::prelude::*;
use crate::text::{
    key_le, key_precedes, lemma_key_le_antisymmetric, lemma_key_le_reflexive, lemma_key_le_total,
    lemma_key_le_transitive,
};

verus! {

/// The keys held by a vector, as plain sequences.
pub open spec fn key_views(keys: Seq<Vec<char>>) -> Seq<Seq<char>> {
    Seq::new(keys.len(), |i: int| keys[i]@)
}

/// `order` lists each of the first `count` positions of `keys` once, by
/// ascending key, and positions with equal keys in ascending order.
pub open spec fn orders_first(keys: Seq<Seq<char>>, order: Seq<usize>, count: nat) -> bool {
    &&& order.len() == count
    &&& forall|i: int| 0 <= i < order.len() ==> (#[trigger] order[i]) < count
    &&& forall|i: int, j: int|
        0 <= i < j < order.len() ==> {
            &&& #[trigger] order[i] != #[trigger] order[j]
            &&& key_le(keys[order[i] as int], keys[order[j] as int])
            &&& keys[order[i] as int] == keys[order[j] as int] ==> order[i] < order[j]
        }
}

/// `order` is the stable sort of the positions of `keys`: a permutation of
/// them by ascending key that keeps positions with equal keys in the order
/// in which they stand.
pub open spec fn orders(keys: Seq<Seq<char>>, order: Seq<usize>) -> bool {
    orders_first(keys, order, keys.len())
}

/// A list of `n` different positions below `n` holds every one of them.
pub proof fn lemma_every_position_listed(order: Seq<usize>, x: usize)
    requires
        forall|i: int| 0 <= i < order.len() ==> (#[trigger] order[i]) < order.len(),
        forall|i: int, j: int| 0 <= i < j < order.len() ==> order[i] != order[j],
        x < order.len(),
    ensures
        exists|i: int| 0 <= i < order.len() && order[i] == x,
{
    if !(exists|i: int| 0 <= i < order.len() && order[i] == x) {
        let n = order.len() as int;
        let ints = Seq::new(order.len(), |i: int| order[i] as int);
        assert(ints.no_duplicates()) by {
            assert forall|i: int, j: int|
                0 <= i < ints.len() && 0 <= j < ints.len() && i != j implies ints[i] != ints[j] by {
                if i < j {
                    assert(order[i] != order[j]);
                } else {
                    assert(order[j] != order[i]);
                }
            }
        }
        ints.unique_seq_to_set();
        vstd::set_lib::lemma_int_range(0, n);
        let rest = vstd::set_lib::set_int_range(0, n).remove(x as int);
        assert(ints.to_set().subset_of(rest)) by {
            assert forall|v: int| ints.to_set().contains(v) implies rest.contains(v) by {
                let i = choose|i: int| 0 <= i < ints.len() && ints[i] == v;
                assert(order[i] < order.len());
                assert(order[i] != x);
            }
        }
        vstd::set_lib::lemma_len_subset(ints.to_set(), rest);
        assert(false);
    }
}

/// The stable sort is unique: two lists that both order the same keys are
/// the same list.
pub proof fn lemma_order_is_unique(keys: Seq<Seq<char>>, a: Seq<usize>, b: Seq<usize>)
    requires
        orders(keys, a),
        orders(keys, b),
    ensures
        a == b,
{
    assert forall|p: int| 0 <= p < a.len() implies a[p] == b[p] by {
        lemma_orders_agree_upto(keys, a, b, p);
    }
    assert(a =~= b);
}

proof fn lemma_orders_agree_upto(keys: Seq<Seq<char>>, a: Seq<usize>, b: Seq<usize>, p: int)
    requires
        orders(keys, a),
        orders(keys, b),
        0 <= p < a.len(),
    ensures
        a[p] == b[p],
    decreases p,
{
    assert forall|q: int| 0 <= q < p implies a[q] == b[q] by {
        lemma_orders_agree_upto(keys, a, b, q);
    }
    let x = a[p];
    let y = b[p];
    if x != y {
        lemma_every_position_listed(b, x);
        lemma_every_position_listed(a, y);
        let j = choose|j: int| 0 <= j < b.len() && b[j] == x;
        let k = choose|k: int| 0 <= k < a.len() && a[k] == y;
        // `x` stands behind `p` in `b`, and `y` behind `p` in `a`.
        if j < p {
            assert(a[j] == b[j]);
            assert(a[j] != a[p]);
        }
        if k < p {
            assert(b[k] == a[k]);
            assert(b[k] != b[p]);
        }
        assert(p < j && p < k);
        assert(key_le(keys[b[p] as int], keys[b[j] as int]));
        assert(key_le(keys[a[p] as int], keys[a[k] as int]));
        lemma_key_le_antisymmetric(keys[x as int], keys[y as int]);
        assert(b[p] < b[j]);
        assert(a[p] < a[k]);
    }
}

/// The positions of `keys` in stable ascending order of their keys.
pub fn stable_order(keys: &Vec<Vec<char>>) -> (order: Vec<usize>)
    ensures
        orders(key_views(keys@), order@),
{
    let n: usize = keys.len();
    let ghost kv = key_views(keys@);
    let mut order: Vec<usize> = Vec::with_capacity(n);
    let mut idx: usize = 0;
    while idx < n
        invariant
            idx <= n,
            n == keys@.len(),
            kv == key_views(keys@),
            orders_first(kv, order@, idx as nat),
        decreases n - idx,
    {
        let mut p: usize = order.len();
        while p > 0 && !key_precedes(&keys[order[p - 1]], &keys[idx])
            invariant
                p <= order@.len(),
                order@.len() == idx,
                idx < n,
                n == keys@.len(),
                kv == key_views(keys@),
                forall|i: int| 0 <= i < order@.len() ==> (#[trigger] order@[i]) < idx,
                forall|q: int|
                    p <= q < order@.len() ==> !key_le(
                        kv[(#[trigger] order@[q]) as int],
                        kv[idx as int],
                    ),
            decreases p,
        {
            p = p - 1;
        }
        let ghost before = order@;
        order.insert(p, idx);
        proof {
            before.insert_ensures(p as int, idx);
            let after = order@;
            assert forall|i: int, j: int| 0 <= i < j < after.len() implies {
                &&& #[trigger] after[i] != #[trigger] after[j]
                &&& key_le(kv[after[i] as int], kv[after[j] as int])
                &&& kv[after[i] as int] == kv[after[j] as int] ==> after[i] < after[j]
            } by {
                let bi = if i < p {
                    i
                } else {
                    i - 1
                };
                let bj = if j < p {
                    j
                } else {
                    j - 1
                };
                if i == p {
                    assert(after[j] == before[bj]);
                    lemma_key_le_total(kv[before[bj] as int], kv[idx as int]);
                    lemma_key_le_reflexive(kv[idx as int]);
                } else if j == p {
                    assert(after[i] == before[bi]);
                    assert(key_le(kv[before[p - 1] as int], kv[idx as int]));
                    if bi < p - 1 {
                        lemma_key_le_transitive(
                            kv[before[bi] as int],
                            kv[before[p - 1] as int],
                            kv[idx as int],
                        );
                    }
                } else {
                    assert(after[i] == before[bi]);
                    assert(after[j] == before[bj]);
                }
            }
        }
        idx = idx + 1;
    }
    order
}

} // verus!
