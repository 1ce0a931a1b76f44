//! Facts about sequences that the tables rest on.

use vstd::prelude::*;

verus! {

/// What a filter keeps stands in the source in the same order: of two kept
/// elements, the earlier one is earlier in the source too.
pub proof fn lemma_filter_keeps_order<A>(s: Seq<A>, keep: spec_fn(A) -> bool, i: int, j: int)
    requires
        0 <= i < j < s.filter(keep).len(),
    ensures
        exists|a: int, b: int|
            0 <= a < b < s.len() && s[a] == s.filter(keep)[i] && s[b] == s.filter(keep)[j],
    decreases s.len(),
{
    reveal(Seq::filter);
    let kept = s.filter(keep);
    let before = s.drop_last().filter(keep);
    if keep(s.last()) && j == before.len() {
        assert(before.contains(before[i]));
        s.drop_last().lemma_filter_contains_rev(keep, before[i]);
        let a = choose|a: int| 0 <= a < s.drop_last().len() && s.drop_last()[a] == before[i];
        let b = s.len() - 1;
        assert(0 <= a < b < s.len() && s[a] == kept[i] && s[b] == kept[j]);
    } else {
        lemma_filter_keeps_order(s.drop_last(), keep, i, j);
        let (a, b) = choose|a: int, b: int|
            0 <= a < b < s.drop_last().len() && s.drop_last()[a] == before[i] && s.drop_last()[b]
                == before[j];
        assert(0 <= a < b < s.len() && s[a] == kept[i] && s[b] == kept[j]);
    }
}

/// What holds of every element of a sequence holds of every element that a
/// filter keeps.
pub proof fn lemma_filter_keeps_what_holds<A>(
    s: Seq<A>,
    keep: spec_fn(A) -> bool,
    holds: spec_fn(A) -> bool,
)
    requires
        forall|i: int| 0 <= i < s.len() ==> holds(#[trigger] s[i]),
    ensures
        forall|i: int| 0 <= i < s.filter(keep).len() ==> holds(#[trigger] s.filter(keep)[i]),
{
    let kept = s.filter(keep);
    assert forall|i: int| 0 <= i < kept.len() implies holds(#[trigger] kept[i]) by {
        assert(kept.contains(kept[i]));
        s.lemma_filter_contains_rev(keep, kept[i]);
        let k = choose|k: int| 0 <= k < s.len() && s[k] == kept[i];
        assert(holds(s[k]));
    }
}

/// A filter keeps a sequence as it is where every element passes.
pub proof fn lemma_filter_keeps_all<A>(s: Seq<A>, keep: spec_fn(A) -> bool)
    requires
        forall|i: int| 0 <= i < s.len() ==> keep(#[trigger] s[i]),
    ensures
        s.filter(keep) == s,
    decreases s.len(),
{
    reveal(Seq::filter);
    if s.len() > 0 {
        assert forall|i: int| 0 <= i < s.drop_last().len() implies keep(
            #[trigger] s.drop_last()[i],
        ) by {
            assert(s.drop_last()[i] == s[i]);
        }
        lemma_filter_keeps_all(s.drop_last(), keep);
        assert(s.drop_last().push(s.last()) =~= s);
    } else {
        assert(s.filter(keep) =~= s);
    }
}

} // verus!
