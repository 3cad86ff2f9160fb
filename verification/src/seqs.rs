//! Facts about sequences that the tables build on: the first element that
//! satisfies a predicate, and what filtering keeps.

use vstd::prelude::*;

verus! {

/// `i` is the least index of `s` whose element satisfies `p`.
pub open spec fn is_first_match<A>(s: Seq<A>, p: spec_fn(A) -> bool, i: int) -> bool {
    &&& 0 <= i < s.len()
    &&& p(s[i])
    &&& forall|j: int| 0 <= j < i ==> !p(#[trigger] s[j])
}

/// The least index of `s` whose element satisfies `p`, if there is one.
pub open spec fn first_match<A>(s: Seq<A>, p: spec_fn(A) -> bool) -> Option<int> {
    if exists|i: int| is_first_match(s, p, i) {
        Some(choose|i: int| is_first_match(s, p, i))
    } else {
        None
    }
}

/// The first element of `s` that satisfies `p`, if there is one.
pub open spec fn first_where<A>(s: Seq<A>, p: spec_fn(A) -> bool) -> Option<A> {
    match first_match(s, p) {
        Some(i) => Some(s[i]),
        None => None,
    }
}

/// Some element of `s` satisfies `p`.
pub open spec fn any_where<A>(s: Seq<A>, p: spec_fn(A) -> bool) -> bool {
    exists|i: int| 0 <= i < s.len() && p(#[trigger] s[i])
}

/// Every two elements of `s` at different places are related by `rel`, the
/// earlier one on the left.
pub open spec fn pairwise<A>(s: Seq<A>, rel: spec_fn(A, A) -> bool) -> bool {
    forall|i: int, j: int| 0 <= i < j < s.len() ==> rel(#[trigger] s[i], #[trigger] s[j])
}

/// A least matching index is the first match.
pub proof fn lemma_first_match_is<A>(s: Seq<A>, p: spec_fn(A) -> bool, i: int)
    requires
        is_first_match(s, p, i),
    ensures
        first_match(s, p) == Some(i),
        first_where(s, p) == Some(s[i]),
{
    let c = choose|k: int| is_first_match(s, p, k);
    assert(is_first_match(s, p, c));
    if c < i {
        assert(!p(s[c]));
    }
    if i < c {
        assert(!p(s[i]));
    }
}

/// Where nothing matches there is no first match.
pub proof fn lemma_first_match_none<A>(s: Seq<A>, p: spec_fn(A) -> bool)
    requires
        !any_where(s, p),
    ensures
        first_match(s, p) is None,
        first_where(s, p) is None,
{
    if exists|i: int| is_first_match(s, p, i) {
        let i = choose|i: int| is_first_match(s, p, i);
        assert(p(s[i]));
    }
}

/// Where the element at `k` matches there is a first match, at `k` or before.
pub proof fn lemma_first_match_exists<A>(s: Seq<A>, p: spec_fn(A) -> bool, k: int)
    requires
        0 <= k < s.len(),
        p(s[k]),
    ensures
        first_match(s, p) is Some,
        is_first_match(s, p, first_match(s, p).unwrap()),
        first_match(s, p).unwrap() <= k,
    decreases k,
{
    if forall|j: int| 0 <= j < k ==> !p(#[trigger] s[j]) {
        lemma_first_match_is(s, p, k);
    } else {
        let j = choose|j: int| 0 <= j < k && p(#[trigger] s[j]);
        lemma_first_match_exists(s, p, j);
    }
}

/// There is a first match exactly when something matches; the first match
/// then satisfies the predicate.
pub proof fn lemma_first_match_iff_any<A>(s: Seq<A>, p: spec_fn(A) -> bool)
    ensures
        first_match(s, p) is Some <==> any_where(s, p),
        first_match(s, p) matches Some(i) ==> is_first_match(s, p, i),
        first_where(s, p) matches Some(x) ==> p(x) && s.contains(x),
{
    if any_where(s, p) {
        let k = choose|k: int| 0 <= k < s.len() && p(#[trigger] s[k]);
        lemma_first_match_exists(s, p, k);
    } else {
        lemma_first_match_none(s, p);
    }
    if first_match(s, p) is Some {
        let i = first_match(s, p).unwrap();
        assert(is_first_match(s, p, i));
        assert(p(s[i]));
    }
}

/// Filtering the first `i + 1` elements keeps what filtering the first `i`
/// kept, and the element at `i` where it satisfies the predicate.
pub proof fn lemma_filter_take_step<A>(s: Seq<A>, keep: spec_fn(A) -> bool, i: int)
    requires
        0 <= i < s.len(),
    ensures
        s.take(i + 1).filter(keep) == if keep(s[i]) {
            s.take(i).filter(keep).push(s[i])
        } else {
            s.take(i).filter(keep)
        },
{
    assert(s.take(i + 1) =~= s.take(i).push(s[i]));
    s.take(i).lemma_filter_push(s[i], keep);
}

/// Every element that filtering keeps was there before and satisfies the
/// predicate; every element that satisfies the predicate is kept.
pub proof fn lemma_filter_members<A>(s: Seq<A>, keep: spec_fn(A) -> bool)
    ensures
        forall|x: A| #[trigger] s.filter(keep).contains(x) <==> s.contains(x) && keep(x),
{
    let f = s.filter(keep);
    assert forall|x: A| #[trigger] f.contains(x) <==> s.contains(x) && keep(x) by {
        if f.contains(x) {
            let i = choose|i: int| 0 <= i < f.len() && f[i] == x;
            s.lemma_filter_pred(keep, i);
            s.lemma_filter_contains_rev(keep, x);
        }
        if s.contains(x) && keep(x) {
            let i = choose|i: int| 0 <= i < s.len() && s[i] == x;
            s.lemma_filter_contains(keep, i);
        }
    }
}

/// Filtering keeps the order of the elements, so a relation that holds
/// between every earlier and every later element still holds.
pub proof fn lemma_filter_pairwise<A>(s: Seq<A>, keep: spec_fn(A) -> bool, rel: spec_fn(A, A) -> bool)
    requires
        pairwise(s, rel),
    ensures
        pairwise(s.filter(keep), rel),
    decreases s.len(),
{
    if s.len() == 0 {
        reveal(Seq::filter);
    } else {
        let rest = s.drop_last();
        let last = s.last();
        assert(s =~= rest.push(last));
        assert(pairwise(rest, rel)) by {
            assert forall|i: int, j: int| 0 <= i < j < rest.len() implies rel(
                #[trigger] rest[i],
                #[trigger] rest[j],
            ) by {
                assert(rest[i] == s[i] && rest[j] == s[j]);
            }
        }
        lemma_filter_pairwise(rest, keep, rel);
        rest.lemma_filter_push(last, keep);
        let kept = rest.filter(keep);
        if keep(last) {
            let out = kept.push(last);
            assert forall|i: int, j: int| 0 <= i < j < out.len() implies rel(
                #[trigger] out[i],
                #[trigger] out[j],
            ) by {
                if j < kept.len() {
                    assert(out[i] == kept[i] && out[j] == kept[j]);
                } else {
                    assert(out[j] == last);
                    assert(out[i] == kept[i]);
                    assert(kept.contains(kept[i]));
                    lemma_filter_members(rest, keep);
                    assert(rest.contains(kept[i]));
                    let k = choose|k: int| 0 <= k < rest.len() && rest[k] == kept[i];
                    assert(rest[k] == s[k]);
                    assert(rel(s[k], s[s.len() - 1]));
                }
            }
        }
    }
}

/// Filtering by a predicate that every element satisfies keeps everything.
pub proof fn lemma_filter_all_kept<A>(s: Seq<A>, keep: spec_fn(A) -> bool)
    requires
        forall|i: int| 0 <= i < s.len() ==> keep(#[trigger] s[i]),
    ensures
        s.filter(keep) == s,
    decreases s.len(),
{
    reveal(Seq::filter);
    if s.len() > 0 {
        let rest = s.drop_last();
        assert forall|i: int| 0 <= i < rest.len() implies keep(#[trigger] rest[i]) by {
            assert(rest[i] == s[i]);
        }
        lemma_filter_all_kept(rest, keep);
        assert(s =~= rest.push(s.last()));
    }
}

/// Filtering twice is filtering once by both predicates.
pub proof fn lemma_filter_twice<A>(
    s: Seq<A>,
    first: spec_fn(A) -> bool,
    second: spec_fn(A) -> bool,
    both: spec_fn(A) -> bool,
)
    requires
        forall|i: int|
            0 <= i < s.len() ==> (both(#[trigger] s[i]) <==> first(s[i]) && second(s[i])),
    ensures
        s.filter(first).filter(second) == s.filter(both),
    decreases s.len(),
{
    if s.len() == 0 {
        reveal(Seq::filter);
    } else {
        let rest = s.drop_last();
        let last = s.last();
        assert(s =~= rest.push(last));
        assert forall|i: int| 0 <= i < rest.len() implies (both(#[trigger] rest[i]) <==> first(
            rest[i],
        ) && second(rest[i])) by {
            assert(rest[i] == s[i]);
        }
        lemma_filter_twice(rest, first, second, both);
        rest.lemma_filter_push(last, first);
        rest.lemma_filter_push(last, both);
        rest.filter(first).lemma_filter_push(last, second);
        assert(both(s[s.len() - 1]) <==> first(last) && second(last));
    }
}

/// Nothing that filtering keeps fails the predicate.
pub proof fn lemma_filter_kept_satisfy<A>(s: Seq<A>, keep: spec_fn(A) -> bool)
    ensures
        forall|i: int| 0 <= i < s.filter(keep).len() ==> keep(#[trigger] s.filter(keep)[i]),
{
    assert forall|i: int| 0 <= i < s.filter(keep).len() implies keep(
        #[trigger] s.filter(keep)[i],
    ) by {
        s.lemma_filter_pred(keep, i);
    }
}

/// Filtering by a predicate that no element satisfies keeps nothing.
pub proof fn lemma_filter_none_kept<A>(s: Seq<A>, keep: spec_fn(A) -> bool)
    requires
        forall|i: int| 0 <= i < s.len() ==> !keep(#[trigger] s[i]),
    ensures
        s.filter(keep) == Seq::<A>::empty(),
{
    let kept = s.filter(keep);
    if kept.len() > 0 {
        lemma_filter_members(s, keep);
        assert(kept.contains(kept[0]));
        let k = choose|k: int| 0 <= k < s.len() && s[k] == kept[0];
        assert(keep(s[k]));
    }
    assert(kept =~= Seq::<A>::empty());
}

} // verus!
