//! Facts about filtered sequences that the widgets' proofs share.
use vstd::prelude::*;

verus! {

/// Filtering one more element: the prefix of length `i + 1` filters to what the
/// prefix of length `i` filters to, followed by `s[i]` where it passes.
pub proof fn lemma_filter_take_next<A>(s: Seq<A>, pred: spec_fn(A) -> bool, i: int)
    requires
        0 <= i < s.len(),
    ensures
        s.take(i + 1).filter(pred) == if pred(s[i]) {
            s.take(i).filter(pred).push(s[i])
        } else {
            s.take(i).filter(pred)
        },
{
    reveal(Seq::filter);
    assert(s.take(i + 1).drop_last() =~= s.take(i));
}

/// A filter that every element passes changes nothing.
pub proof fn lemma_filter_all<A>(s: Seq<A>, pred: spec_fn(A) -> bool)
    requires
        forall|i: int| 0 <= i < s.len() ==> pred(#[trigger] s[i]),
    ensures
        s.filter(pred) == s,
    decreases s.len(),
{
    reveal(Seq::filter);
    if s.len() > 0 {
        lemma_filter_all(s.drop_last(), pred);
    }
}

/// `sub` can be had from `full` by leaving elements out: `picks` names, in
/// rising order, the positions of `full` that were kept.
pub open spec fn embeds_by<A>(sub: Seq<A>, full: Seq<A>, picks: Seq<int>) -> bool {
    &&& picks.len() == sub.len()
    &&& forall|i: int| 0 <= i < picks.len() ==> 0 <= #[trigger] picks[i] < full.len()
    &&& forall|i: int, j: int| 0 <= i < j < picks.len() ==> picks[i] < picks[j]
    &&& forall|i: int| 0 <= i < sub.len() ==> #[trigger] sub[i] == full[picks[i]]
}

/// `sub` is `full` with some elements left out, the others in their old order.
pub open spec fn is_subsequence<A>(sub: Seq<A>, full: Seq<A>) -> bool {
    exists|picks: Seq<int>| embeds_by(sub, full, picks)
}

/// The positions of `s` whose elements pass `pred`, in rising order.
pub open spec fn passing_positions<A>(s: Seq<A>, pred: spec_fn(A) -> bool) -> Seq<int>
    decreases s.len(),
{
    if s.len() == 0 {
        Seq::<int>::empty()
    } else if pred(s.last()) {
        passing_positions(s.drop_last(), pred).push(s.len() - 1)
    } else {
        passing_positions(s.drop_last(), pred)
    }
}

/// The passing positions embed the filtered sequence in the sequence that was
/// filtered.
pub proof fn lemma_filter_embeds<A>(s: Seq<A>, pred: spec_fn(A) -> bool)
    ensures
        embeds_by(s.filter(pred), s, passing_positions(s, pred)),
    decreases s.len(),
{
    reveal(Seq::filter);
    if s.len() > 0 {
        let rest = s.drop_last();
        lemma_filter_embeds(rest, pred);
    }
}

/// A filtered sequence is a subsequence of the sequence that was filtered.
pub proof fn lemma_filter_is_subsequence<A>(s: Seq<A>, pred: spec_fn(A) -> bool)
    ensures
        is_subsequence(s.filter(pred), s),
{
    lemma_filter_embeds(s, pred);
}

/// Every element of a filtered sequence passes the filter and stems from the
/// sequence that was filtered, and every element that passes is kept.
pub proof fn lemma_filter_members<A>(s: Seq<A>, pred: spec_fn(A) -> bool)
    ensures
        s.filter(pred).len() <= s.len(),
        forall|i: int|
            0 <= i < s.filter(pred).len() ==> pred(#[trigger] s.filter(pred)[i]) && s.contains(
                s.filter(pred)[i],
            ),
        forall|i: int| 0 <= i < s.len() && pred(s[i]) ==> s.filter(pred).contains(#[trigger] s[i]),
{
    broadcast use vstd::seq_lib::group_filter_ensures;

    lemma_filter_embeds(s, pred);
}

/// Filtering twice by the same test gives what filtering once gives.
pub proof fn lemma_filter_twice<A>(s: Seq<A>, pred: spec_fn(A) -> bool)
    ensures
        s.filter(pred).filter(pred) == s.filter(pred),
{
    lemma_filter_all(s.filter(pred), pred);
}

} // verus!
