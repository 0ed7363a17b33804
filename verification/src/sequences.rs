//! Facts about filtered sequences.

use vstd::prelude::*;

verus! {

/// One more element of a sequence passes through a filter.
pub proof fn lemma_filter_take_step<A>(s: Seq<A>, p: spec_fn(A) -> bool, k: int)
    requires
        0 <= k < s.len(),
    ensures
        s.take(k + 1).filter(p) == if p(s[k]) {
            s.take(k).filter(p).push(s[k])
        } else {
            s.take(k).filter(p)
        },
{
    reveal(Seq::filter);
    assert(s.take(k + 1).drop_last() =~= s.take(k));
    assert(s.take(k + 1).last() == s[k]);
}

/// A filter that every element passes changes nothing.
pub proof fn lemma_filter_all<A>(s: Seq<A>, p: spec_fn(A) -> bool)
    requires
        forall|i: int| 0 <= i < s.len() ==> p(s[i]),
    ensures
        s.filter(p) == s,
    decreases s.len(),
{
    reveal(Seq::filter);
    if s.len() > 0 {
        lemma_filter_all(s.drop_last(), p);
        assert(s.drop_last().push(s.last()) =~= s);
    }
}

/// What passes a filter is what was there and meets the test.
pub proof fn lemma_filter_members<A>(s: Seq<A>, p: spec_fn(A) -> bool)
    ensures
        forall|a: A| s.filter(p).contains(a) <==> (s.contains(a) && p(a)),
{
    broadcast use vstd::seq_lib::group_filter_ensures;

    assert forall|a: A| s.filter(p).contains(a) <==> (s.contains(a) && p(a)) by {
        if s.filter(p).contains(a) {
            s.lemma_filter_contains_rev(p, a);
            let i = choose|i: int| 0 <= i < s.filter(p).len() && s.filter(p)[i] == a;
            assert(p(s.filter(p)[i]));
        }
        if s.contains(a) && p(a) {
            let i = choose|i: int| 0 <= i < s.len() && s[i] == a;
            assert(s.filter(p).contains(s[i]));
        }
    }
}

} // verus!
