//! The sum of the values of a finite map, and how it changes when one entry
//! changes.

use vstd::prelude::*;

verus! {

/// The sum of the values of a finite map.
pub open spec fn map_sum<K>(m: Map<K, nat>) -> nat
    decreases m.dom().len(),
    when m.dom().finite()
{
    if m.dom().len() == 0 {
        0
    } else {
        let k = m.dom().choose();
        m[k] + map_sum(m.remove(k))
    }
}

/// The sum does not depend on the entry it starts with: any entry may be
/// taken out first.
pub proof fn lemma_map_sum_remove<K>(m: Map<K, nat>, k: K)
    requires
        m.dom().finite(),
        m.contains_key(k),
    ensures
        map_sum(m) == m[k] + map_sum(m.remove(k)),
    decreases m.dom().len(),
{
    let c = m.dom().choose();
    if c != k {
        lemma_map_sum_remove(m.remove(c), k);
        lemma_map_sum_remove(m.remove(k), c);
        assert(m.remove(c).remove(k) =~= m.remove(k).remove(c));
    }
}

/// The sum over no entries is zero.
pub proof fn lemma_map_sum_empty<K>()
    ensures
        map_sum(Map::<K, nat>::empty()) == 0,
{
}

/// Setting one entry adds its new value in place of its old one.
pub proof fn lemma_map_sum_insert<K>(m: Map<K, nat>, k: K, v: nat)
    requires
        m.dom().finite(),
    ensures
        map_sum(m.insert(k, v)) == map_sum(m) + v - (if m.contains_key(k) {
            m[k]
        } else {
            0
        }),
{
    lemma_map_sum_remove(m.insert(k, v), k);
    assert(m.insert(k, v).remove(k) =~= m.remove(k));
    if m.contains_key(k) {
        lemma_map_sum_remove(m, k);
    } else {
        assert(m.remove(k) =~= m);
    }
}

/// No entry is larger than the sum.
pub proof fn lemma_map_sum_bounds<K>(m: Map<K, nat>, k: K)
    requires
        m.dom().finite(),
        m.contains_key(k),
    ensures
        m[k] <= map_sum(m),
{
    lemma_map_sum_remove(m, k);
}

} // verus!
