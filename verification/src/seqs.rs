//! Facts about sequences that several modules use.

use vstd::prelude::*;

verus! {

/// Whether `rel` holds of every two elements of `s`, the earlier one first.
pub open spec fn pairwise<A>(s: Seq<A>, rel: spec_fn(A, A) -> bool) -> bool {
    forall|i: int, j: int| #![trigger s[i], s[j]] 0 <= i < j < s.len() ==> rel(s[i], s[j])
}

/// Whether `prop` holds of every element of `s`.
pub open spec fn every<A>(s: Seq<A>, prop: spec_fn(A) -> bool) -> bool {
    forall|i: int| 0 <= i < s.len() ==> prop(#[trigger] s[i])
}

/// Filtering keeps the order of what it keeps: a relation that holds of
/// every two elements, the earlier one first, still holds afterwards.
pub proof fn lemma_filter_pairwise<A>(s: Seq<A>, pred: spec_fn(A) -> bool, rel: spec_fn(A, A) -> bool)
    requires
        pairwise(s, rel),
    ensures
        pairwise(s.filter(pred), rel),
    decreases s.len(),
{
    reveal(Seq::filter);
    if s.len() > 0 {
        let init = s.drop_last();
        let kept = init.filter(pred);
        lemma_filter_pairwise(init, pred, rel);
        if pred(s.last()) {
            let out = s.filter(pred);
            assert forall|i: int, j: int| 0 <= i < j < out.len() implies rel(out[i], out[j]) by {
                if !(j < kept.len()) {
                    init.lemma_filter_contains_rev(pred, kept[i]);
                }
            }
        }
    }
}

/// Filtering keeps what holds of every element.
pub proof fn lemma_filter_all<A>(s: Seq<A>, pred: spec_fn(A) -> bool, prop: spec_fn(A) -> bool)
    requires
        every(s, prop),
    ensures
        every(s.filter(pred), prop),
{
    let out = s.filter(pred);
    assert forall|i: int| 0 <= i < out.len() implies prop(#[trigger] out[i]) by {
        s.lemma_filter_contains_rev(pred, out[i]);
    }
}

/// Filtering twice is filtering by both conditions.
pub proof fn lemma_filter_filter<A>(s: Seq<A>, first: spec_fn(A) -> bool, second: spec_fn(A) -> bool)
    ensures
        s.filter(first).filter(second) == s.filter(|a: A| first(a) && second(a)),
    decreases s.len(),
{
    reveal(Seq::filter);
    if s.len() > 0 {
        let init = s.drop_last();
        lemma_filter_filter(init, first, second);
        if first(s.last()) {
            init.filter(first).lemma_filter_push(s.last(), second);
        }
    }
}

/// Filtering by a condition that every element meets changes nothing.
pub proof fn lemma_filter_none_out<A>(s: Seq<A>, pred: spec_fn(A) -> bool)
    requires
        forall|i: int| 0 <= i < s.len() ==> pred(#[trigger] s[i]),
    ensures
        s.filter(pred) == s,
    decreases s.len(),
{
    reveal(Seq::filter);
    if s.len() > 0 {
        let init = s.drop_last();
        lemma_filter_none_out(init, pred);
    }
}

/// Filtering by a condition that no element meets leaves nothing.
pub proof fn lemma_filter_all_out<A>(s: Seq<A>, pred: spec_fn(A) -> bool)
    requires
        forall|i: int| 0 <= i < s.len() ==> !pred(#[trigger] s[i]),
    ensures
        s.filter(pred) == Seq::<A>::empty(),
    decreases s.len(),
{
    reveal(Seq::filter);
    if s.len() > 0 {
        let init = s.drop_last();
        lemma_filter_all_out(init, pred);
    }
}

/// Two conditions that agree on every element filter alike.
pub proof fn lemma_filter_agree<A>(s: Seq<A>, p: spec_fn(A) -> bool, q: spec_fn(A) -> bool)
    requires
        forall|i: int| 0 <= i < s.len() ==> p(#[trigger] s[i]) == q(s[i]),
    ensures
        s.filter(p) == s.filter(q),
    decreases s.len(),
{
    reveal(Seq::filter);
    if s.len() > 0 {
        let init = s.drop_last();
        lemma_filter_agree(init, p, q);
    }
}

/// Removing the one element that fails a condition is filtering by it.
pub proof fn lemma_filter_removes_one<A>(s: Seq<A>, pred: spec_fn(A) -> bool, at: int)
    requires
        0 <= at < s.len(),
        !pred(s[at]),
        forall|i: int| 0 <= i < s.len() && i != at ==> pred(#[trigger] s[i]),
    ensures
        s.filter(pred) == s.remove(at),
    decreases s.len(),
{
    reveal(Seq::filter);
    let init = s.drop_last();
    if at == s.len() - 1 {
        lemma_filter_none_out(init, pred);
    } else {
        lemma_filter_removes_one(init, pred, at);
    }
}

/// Whether `i` is the position of the first element of `s` that meets
/// `pred`.
pub open spec fn is_first<A>(s: Seq<A>, pred: spec_fn(A) -> bool, i: int) -> bool {
    &&& 0 <= i < s.len()
    &&& pred(s[i])
    &&& forall|k: int| 0 <= k < i ==> !pred(#[trigger] s[k])
}

/// The position of the first element of `s` that meets `pred`.
pub open spec fn first_index<A>(s: Seq<A>, pred: spec_fn(A) -> bool) -> Option<int> {
    if exists|i: int| is_first(s, pred, i) {
        Some(choose|i: int| is_first(s, pred, i))
    } else {
        None
    }
}

/// The first position is the only one that is first.
pub proof fn lemma_first_index<A>(s: Seq<A>, pred: spec_fn(A) -> bool, i: int)
    requires
        is_first(s, pred, i),
    ensures
        first_index(s, pred) == Some(i),
{
}

/// What a first position is, spelled out for the sequence it was found in.
pub proof fn lemma_first_index_is_first<A>(s: Seq<A>, pred: spec_fn(A) -> bool)
    ensures
        match first_index(s, pred) {
            Some(i) => is_first(s, pred, i),
            None => forall|k: int| 0 <= k < s.len() ==> !pred(#[trigger] s[k]),
        },
{
    if first_index(s, pred) is None {
        assert forall|k: int| 0 <= k < s.len() implies !pred(#[trigger] s[k]) by {
            if pred(s[k]) {
                lemma_some_first(s, pred, k);
            }
        }
    }
}

/// Where an element meets the condition, some element is the first to.
proof fn lemma_some_first<A>(s: Seq<A>, pred: spec_fn(A) -> bool, k: int)
    requires
        0 <= k < s.len(),
        pred(s[k]),
    ensures
        exists|i: int| is_first(s, pred, i),
    decreases k,
{
    if exists|j: int| 0 <= j < k && pred(s[j]) {
        let j = choose|j: int| 0 <= j < k && pred(s[j]);
        lemma_some_first(s, pred, j);
    } else {
        assert(is_first(s, pred, k));
    }
}

} // verus!
