//! Stable ordering of items by an integer key.
//!
//! Text crops are recognized in order of their aspect ratio. A non-negative
//! `f32` ratio orders as its IEEE-754 bit pattern does, so the ratios travel
//! here as `u32` keys.

use vstd::prelude::*;

verus! {

/// Item `a` comes before item `b`: its key is smaller, or the keys are equal
/// and `a` came first.
pub open spec fn key_before(keys: Seq<u32>, a: usize, b: usize) -> bool {
    keys[a as int] < keys[b as int] || (keys[a as int] == keys[b as int] && a < b)
}

/// `order` lists every index of `keys` once, in ascending order of key, with
/// items of equal key in their original order.
pub open spec fn is_stable_order(keys: Seq<u32>, order: Seq<usize>) -> bool {
    &&& order.len() == keys.len()
    &&& forall|i: int| 0 <= i < order.len() ==> #[trigger] order[i] < keys.len()
    &&& forall|k: usize| k < keys.len() ==> #[trigger] order.contains(k)
    &&& forall|i: int, j: int|
        0 <= i < j < order.len() ==> key_before(keys, #[trigger] order[i], #[trigger] order[j])
}

/// The indices of `keys` in stable ascending order of key, as a stable sort
/// of the items by key would arrange them.
pub fn stable_order(keys: &Vec<u32>) -> (order: Vec<usize>)
    ensures
        is_stable_order(keys@, order@),
{
    let n = keys.len();
    let mut order: Vec<usize> = Vec::new();
    let mut i: usize = 0;
    while i < n
        invariant
            n == keys@.len(),
            i <= n,
            order@.len() == i,
            forall|j: int| 0 <= j < order@.len() ==> #[trigger] order@[j] < i,
            forall|k: usize| k < i ==> #[trigger] order@.contains(k),
            forall|a: int, b: int|
                0 <= a < b < order@.len() ==> key_before(
                    keys@,
                    #[trigger] order@[a],
                    #[trigger] order@[b],
                ),
        decreases n - i,
    {
        let mut pos: usize = 0;
        while pos < order.len() && keys[order[pos]] <= keys[i]
            invariant
                n == keys@.len(),
                i < n,
                pos <= order@.len(),
                forall|j: int| 0 <= j < order@.len() ==> #[trigger] order@[j] < i,
                forall|j: int| 0 <= j < pos ==> keys@[#[trigger] order@[j] as int] <= keys@[i as int],
            decreases order@.len() - pos,
        {
            pos = pos + 1;
        }
        let ghost old_order = order@;
        proof {
            assert forall|j: int| pos <= j < old_order.len() implies keys@[#[trigger] old_order[j] as int]
                > keys@[i as int] by {
                if j > pos {
                    assert(key_before(keys@, old_order[pos as int], old_order[j]));
                }
            }
        }
        order.insert(pos, i);
        proof {
            let new_order = order@;
            assert(new_order == old_order.insert(pos as int, i));
            assert forall|j: int| 0 <= j < new_order.len() implies #[trigger] new_order[j] < i + 1 by {
                if j < pos {
                    assert(new_order[j] == old_order[j]);
                } else if j > pos {
                    assert(new_order[j] == old_order[j - 1]);
                }
            }
            assert forall|k: usize| k < i + 1 implies #[trigger] new_order.contains(k) by {
                if k == i {
                    assert(new_order[pos as int] == i);
                } else {
                    assert(old_order.contains(k));
                    let w = choose|w: int| 0 <= w < old_order.len() && old_order[w] == k;
                    if w < pos {
                        assert(new_order[w] == k);
                    } else {
                        assert(new_order[w + 1] == k);
                    }
                }
            }
            assert forall|a: int, b: int| 0 <= a < b < new_order.len() implies key_before(
                keys@,
                #[trigger] new_order[a],
                #[trigger] new_order[b],
            ) by {
                if b < pos {
                    assert(new_order[a] == old_order[a] && new_order[b] == old_order[b]);
                } else if b == pos {
                    assert(new_order[a] == old_order[a]);
                } else if a < pos {
                    assert(new_order[a] == old_order[a] && new_order[b] == old_order[b - 1]);
                    assert(keys@[old_order[a] as int] <= keys@[i as int]);
                } else if a == pos {
                    assert(new_order[b] == old_order[b - 1]);
                } else {
                    assert(new_order[a] == old_order[a - 1] && new_order[b] == old_order[b - 1]);
                }
            }
        }
        i = i + 1;
    }
    order
}

/// `order` names every index below its length exactly once.
pub open spec fn is_permutation(order: Seq<usize>) -> bool {
    &&& forall|i: int| 0 <= i < order.len() ==> #[trigger] order[i] < order.len()
    &&& forall|i: int, j: int| 0 <= i < j < order.len() ==> #[trigger] order[i] != #[trigger] order[j]
}

/// A stable order of the keys is a permutation of their indices.
pub proof fn lemma_stable_order_is_permutation(keys: Seq<u32>, order: Seq<usize>)
    requires
        is_stable_order(keys, order),
    ensures
        is_permutation(order),
{
    assert forall|i: int, j: int| 0 <= i < j < order.len() implies #[trigger] order[i]
        != #[trigger] order[j] by {
        assert(key_before(keys, order[i], order[j]));
    }
}

/// The items rearranged so that position `i` holds item `order[i]`.
pub fn reorder<T>(items: Vec<T>, order: &Vec<usize>) -> (arranged: Vec<T>)
    requires
        order@.len() == items@.len(),
        is_permutation(order@),
    ensures
        arranged@.len() == items@.len(),
        forall|i: int| 0 <= i < arranged@.len() ==> #[trigger] arranged@[i] == items@[order@[i] as int],
{
    let ghost original = items@;
    let n = order.len();
    let mut slots: Vec<Option<T>> = Vec::new();
    for item in it: items.into_iter()
        invariant
            it.seq() == original,
            slots@.len() == it.index(),
            forall|x: int| 0 <= x < slots@.len() ==> #[trigger] slots@[x] == Some(original[x]),
    {
        slots.push(Some(item));
    }
    let mut arranged: Vec<T> = Vec::new();
    let mut k: usize = 0;
    while k < n
        invariant
            n == order@.len(),
            n == original.len(),
            slots@.len() == n,
            k <= n,
            is_permutation(order@),
            arranged@.len() == k,
            forall|i: int| 0 <= i < k ==> #[trigger] arranged@[i] == original[order@[i] as int],
            forall|j: int| k <= j < n ==> slots@[#[trigger] order@[j] as int] == Some(
                original[order@[j] as int],
            ),
        decreases n - k,
    {
        let idx = order[k];
        let ghost before = slots@;
        let taken = slots[idx].take();
        assert(taken == Some(original[idx as int]));
        proof {
            assert forall|j: int| k + 1 <= j < n implies slots@[#[trigger] order@[j] as int] == Some(
                original[order@[j] as int],
            ) by {
                assert(order@[j] != order@[k as int]);
                assert(slots@[order@[j] as int] == before[order@[j] as int]);
            }
        }
        if let Some(v) = taken {
            arranged.push(v);
        }
        k = k + 1;
    }
    arranged
}

proof fn lemma_orders_agree_upto(keys: Seq<u32>, o1: Seq<usize>, o2: Seq<usize>, i: int)
    requires
        is_stable_order(keys, o1),
        is_stable_order(keys, o2),
        0 <= i < o1.len(),
    ensures
        forall|j: int| 0 <= j <= i ==> o1[j] == o2[j],
    decreases i,
{
    if i > 0 {
        lemma_orders_agree_upto(keys, o1, o2, i - 1);
    }
    let a = o1[i];
    let b = o2[i];
    if a != b {
        assert(a < keys.len() && b < keys.len());
        if key_before(keys, a, b) {
            assert(o2.contains(a));
            let p = choose|p: int| 0 <= p < o2.len() && o2[p] == a;
            if p < i {
                assert(o1[p] == a);
                assert(key_before(keys, o1[p], o1[i]));
            } else if p > i {
                assert(key_before(keys, o2[i], o2[p]));
            }
        } else {
            assert(key_before(keys, b, a));
            assert(o1.contains(b));
            let p = choose|p: int| 0 <= p < o1.len() && o1[p] == b;
            if p < i {
                assert(o2[p] == b);
                assert(key_before(keys, o2[p], o2[i]));
            } else if p > i {
                assert(key_before(keys, o1[i], o1[p]));
            }
        }
    }
}

/// The stable order of a list of keys is unique: it is exactly the order in
/// which a stable sort by key leaves the items.
pub proof fn law_stable_order_unique(keys: Seq<u32>, o1: Seq<usize>, o2: Seq<usize>)
    requires
        is_stable_order(keys, o1),
        is_stable_order(keys, o2),
    ensures
        o1 == o2,
{
    if o1.len() > 0 {
        lemma_orders_agree_upto(keys, o1, o2, o1.len() - 1);
    }
    assert(o1 =~= o2);
}

} // verus!
