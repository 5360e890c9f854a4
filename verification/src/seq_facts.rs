//! Facts about selecting from a sequence, as the model of the tables needs
//! them.

use vstd::prelude::*;

verus! {

/// Selecting from a sequence in which nothing qualifies gives nothing.
pub proof fn lemma_filter_nothing<A>(s: Seq<A>, pred: spec_fn(A) -> bool)
    requires
        forall|i: int| 0 <= i < s.len() ==> !pred(#[trigger] s[i]),
    ensures
        s.filter(pred) == Seq::<A>::empty(),
    decreases s.len(),
{
    reveal(Seq::filter);
    if s.len() > 0 {
        let rest = s.drop_last();
        assert forall|i: int| 0 <= i < rest.len() implies !pred(#[trigger] rest[i]) by {
            assert(rest[i] == s[i]);
        }
        lemma_filter_nothing(rest, pred);
        assert(!pred(s[s.len() - 1]));
    }
    assert(s.filter(pred) =~= Seq::<A>::empty());
}

/// Selecting from a sequence in which everything qualifies gives all of it.
pub proof fn lemma_filter_everything<A>(s: Seq<A>, pred: spec_fn(A) -> bool)
    requires
        forall|i: int| 0 <= i < s.len() ==> pred(#[trigger] s[i]),
    ensures
        s.filter(pred) == s,
    decreases s.len(),
{
    reveal(Seq::filter);
    if s.len() > 0 {
        let rest = s.drop_last();
        assert forall|i: int| 0 <= i < rest.len() implies pred(#[trigger] rest[i]) by {
            assert(rest[i] == s[i]);
        }
        lemma_filter_everything(rest, pred);
        assert(pred(s[s.len() - 1]));
        assert(rest.push(s.last()) =~= s);
    }
    assert(s.filter(pred) =~= s);
}

/// Selecting from a sequence in which exactly the item at `k` qualifies
/// gives that item alone.
pub proof fn lemma_filter_single<A>(s: Seq<A>, pred: spec_fn(A) -> bool, k: int)
    requires
        0 <= k < s.len(),
        pred(s[k]),
        forall|i: int| 0 <= i < s.len() && i != k ==> !pred(#[trigger] s[i]),
    ensures
        s.filter(pred) == seq![s[k]],
    decreases s.len(),
{
    reveal(Seq::filter);
    let rest = s.drop_last();
    if k == s.len() - 1 {
        assert forall|i: int| 0 <= i < rest.len() implies !pred(#[trigger] rest[i]) by {
            assert(rest[i] == s[i]);
        }
        lemma_filter_nothing(rest, pred);
    } else {
        assert(rest[k] == s[k]);
        assert forall|i: int| 0 <= i < rest.len() && i != k implies !pred(#[trigger] rest[i]) by {
            assert(rest[i] == s[i]);
        }
        lemma_filter_single(rest, pred, k);
        assert(!pred(s[s.len() - 1]));
    }
    assert(s.filter(pred) =~= seq![s[k]]);
}

/// Whatever a selection holds qualifies and stood in the sequence that was
/// selected from, and what stood earlier there stands earlier in the
/// selection.
pub proof fn lemma_filter_sources<A>(s: Seq<A>, pred: spec_fn(A) -> bool) -> (sources: Seq<int>)
    ensures
        sources.len() == s.filter(pred).len(),
        forall|j: int|
            0 <= j < sources.len() ==> 0 <= #[trigger] sources[j] < s.len() && s.filter(pred)[j]
                == s[sources[j]] && pred(s[sources[j]]),
        forall|j: int, k: int|
            0 <= j < k < sources.len() ==> #[trigger] sources[j] < #[trigger] sources[k],
    decreases s.len(),
{
    reveal(Seq::filter);
    if s.len() == 0 {
        Seq::empty()
    } else {
        let rest = s.drop_last();
        let earlier = lemma_filter_sources(rest, pred);
        assert forall|j: int| 0 <= j < earlier.len() implies rest[#[trigger] earlier[j]]
            == s[earlier[j]] by {}
        if pred(s.last()) {
            earlier.push(s.len() - 1)
        } else {
            earlier
        }
    }
}

} // verus!
