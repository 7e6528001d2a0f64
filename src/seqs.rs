use vstd::prelude::*;

verus! {

/// Filtering keeps exactly the elements of `s` that satisfy `keep`.
pub proof fn lemma_filter_members<A>(s: Seq<A>, keep: spec_fn(A) -> bool, x: A)
    ensures
        s.filter(keep).contains(x) <==> s.contains(x) && keep(x),
{
    broadcast use vstd::seq_lib::group_filter_ensures;

    if s.filter(keep).contains(x) {
        let k = choose|k: int| 0 <= k < s.filter(keep).len() && s.filter(keep)[k] == x;
        assert(keep(s.filter(keep)[k]));
        s.lemma_filter_contains_rev(keep, x);
    }
    if s.contains(x) && keep(x) {
        let k = choose|k: int| 0 <= k < s.len() && s[k] == x;
        s.lemma_filter_contains(keep, k);
    }
}

/// Filtering a sequence whose elements all satisfy `keep` leaves it unchanged.
pub proof fn lemma_filter_keeps_all<A>(s: Seq<A>, keep: spec_fn(A) -> bool)
    requires
        forall|i: int| 0 <= i < s.len() ==> keep(#[trigger] s[i]),
    ensures
        s.filter(keep) == s,
    decreases s.len(),
{
    reveal(Seq::filter);
    if s.len() > 0 {
        lemma_filter_keeps_all(s.drop_last(), keep);
        assert(s.drop_last().push(s.last()) =~= s);
    }
}

/// Filtering a sequence none of whose elements satisfies `keep` leaves nothing.
pub proof fn lemma_filter_keeps_none<A>(s: Seq<A>, keep: spec_fn(A) -> bool)
    requires
        forall|i: int| 0 <= i < s.len() ==> !keep(#[trigger] s[i]),
    ensures
        s.filter(keep) == Seq::<A>::empty(),
    decreases s.len(),
{
    reveal(Seq::filter);
    if s.len() > 0 {
        lemma_filter_keeps_none(s.drop_last(), keep);
    }
}

} // verus!
