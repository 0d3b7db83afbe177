//! Facts on filtered sequences.

use vstd::prelude::*;

verus! {

/// Filtering a sequence that got one more item.
pub(crate) proof fn lemma_filter_push<A>(s: Seq<A>, x: A, pred: spec_fn(A) -> bool)
    ensures
        s.push(x).filter(pred) == if pred(x) {
            s.filter(pred).push(x)
        } else {
            s.filter(pred)
        },
{
    reveal(Seq::filter);
    assert(s.push(x).drop_last() =~= s);
}

/// Filtering one more item of a sequence.
pub(crate) proof fn lemma_filter_take<A>(s: Seq<A>, i: int, pred: spec_fn(A) -> bool)
    requires
        0 <= i < s.len(),
    ensures
        s.take(i + 1).filter(pred) == if pred(s[i]) {
            s.take(i).filter(pred).push(s[i])
        } else {
            s.take(i).filter(pred)
        },
{
    assert(s.take(i + 1) =~= s.take(i).push(s[i]));
    lemma_filter_push(s.take(i), s[i], pred);
}

/// A sequence in which nothing is picked filters to nothing.
pub(crate) proof fn lemma_filter_none<A>(s: Seq<A>, pred: spec_fn(A) -> bool)
    requires
        forall|j: int| 0 <= j < s.len() ==> !pred(#[trigger] s[j]),
    ensures
        s.filter(pred).len() == 0,
    decreases s.len(),
{
    reveal(Seq::filter);
    if s.len() > 0 {
        let front = s.drop_last();
        lemma_filter_none(front, pred);
    }
}

/// A sequence splits, at an item that is picked, into what is picked before
/// it, the item, and what is picked after it.
pub(crate) proof fn lemma_filter_split<A>(s: Seq<A>, i: int, pred: spec_fn(A) -> bool)
    requires
        0 <= i < s.len(),
        pred(s[i]),
    ensures
        s.filter(pred) == s.take(i).filter(pred).push(s[i]) + s.skip(i + 1).filter(pred),
{
    assert(s =~= s.take(i + 1) + s.skip(i + 1));
    Seq::filter_distributes_over_add(s.take(i + 1), s.skip(i + 1), pred);
    lemma_filter_take(s, i, pred);
}

/// Where nothing is picked before the item at `k`, which is picked, that
/// item is the first of what is picked.
pub(crate) proof fn lemma_filter_first<A>(s: Seq<A>, k: int, pred: spec_fn(A) -> bool)
    requires
        0 <= k < s.len(),
        forall|j: int| 0 <= j < k ==> !pred(#[trigger] s[j]),
        pred(s[k]),
    ensures
        s.filter(pred).len() > 0,
        s.filter(pred)[0] == s[k],
{
    lemma_filter_split(s, k, pred);
    let front = s.take(k);
    lemma_filter_none(front, pred);
}

} // verus!
