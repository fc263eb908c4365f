//! Sequence facts shared by the stores: filtering keeps every element an
//! element of the original, and therefore preserves key distinctness.

use vstd::prelude::*;

verus! {

/// The keys that `key` projects out of `m` are pairwise distinct.
pub open spec fn distinct_by<A, K>(m: Seq<A>, key: spec_fn(A) -> K) -> bool {
    forall|i: int, j: int| 0 <= i < j < m.len() ==> key(#[trigger] m[i]) != key(#[trigger] m[j])
}

/// Every element of a filtered sequence occurs in the original.
pub proof fn lemma_filter_elem_of<A>(m: Seq<A>, pred: spec_fn(A) -> bool)
    ensures
        forall|k: int|
            0 <= k < m.filter(pred).len() ==> exists|i: int|
                0 <= i < m.len() && m[i] == #[trigger] m.filter(pred)[k],
    decreases m.len(),
{
    reveal_with_fuel(Seq::<_>::filter, 2);
    if m.len() != 0 {
        let sub = m.drop_last().filter(pred);
        lemma_filter_elem_of(m.drop_last(), pred);
        assert forall|k: int| 0 <= k < m.filter(pred).len() implies exists|i: int|
            0 <= i < m.len() && m[i] == #[trigger] m.filter(pred)[k] by {
            if pred(m.last()) && k == m.filter(pred).len() - 1 {
                assert(m[m.len() - 1] == m.filter(pred)[k]);
            } else {
                assert(m.filter(pred)[k] == sub[k]);
                let i = choose|i: int| 0 <= i < m.drop_last().len() && m.drop_last()[i] == sub[k];
                assert(m[i] == m.filter(pred)[k]);
            }
        }
    }
}

/// Filtering preserves key distinctness.
pub proof fn lemma_filter_distinct_by<A, K>(
    m: Seq<A>,
    pred: spec_fn(A) -> bool,
    key: spec_fn(A) -> K,
)
    requires
        distinct_by(m, key),
    ensures
        distinct_by(m.filter(pred), key),
    decreases m.len(),
{
    reveal_with_fuel(Seq::<_>::filter, 2);
    if m.len() != 0 {
        let sub = m.drop_last().filter(pred);
        assert(distinct_by(m.drop_last(), key)) by {
            assert(forall|i: int| 0 <= i < m.drop_last().len() ==> #[trigger] m.drop_last()[i]
                == m[i]);
        }
        lemma_filter_distinct_by(m.drop_last(), pred, key);
        lemma_filter_elem_of(m.drop_last(), pred);
        if pred(m.last()) {
            assert(m.filter(pred) == sub.push(m.last()));
            assert forall|a: int, b: int| 0 <= a < b < m.filter(pred).len() implies key(
                #[trigger] m.filter(pred)[a],
            ) != key(#[trigger] m.filter(pred)[b]) by {
                if b == m.filter(pred).len() - 1 {
                    assert(m.filter(pred)[a] == sub[a]);
                    let i = choose|i: int|
                        0 <= i < m.drop_last().len() && m.drop_last()[i] == sub[a];
                    assert(m[i] == sub[a]);
                    assert(key(m[i]) != key(m[m.len() - 1]));
                } else {
                    assert(m.filter(pred)[a] == sub[a] && m.filter(pred)[b] == sub[b]);
                }
            }
        } else {
            assert(m.filter(pred) == sub);
        }
    }
}

} // verus!
