//! Facts about lists.

use vstd::prelude::*;

verus! {

/// One more item, seen through a filter: it joins the rest or it does not.
pub proof fn lemma_filter_step<A>(items: Seq<A>, keep: spec_fn(A) -> bool, i: int)
    requires
        0 <= i < items.len(),
    ensures
        items.take(i + 1).filter(keep) == (if keep(items[i]) {
            items.take(i).filter(keep).push(items[i])
        } else {
            items.take(i).filter(keep)
        }),
{
    reveal(Seq::filter);
    let longer = items.take(i + 1);
    assert(longer.drop_last() =~= items.take(i));
    assert(longer.last() == items[i]);
}

/// A filter lets nothing through that it should keep out.
pub proof fn lemma_filter_keeps<A>(items: Seq<A>, keep: spec_fn(A) -> bool)
    ensures
        forall|i: int| 0 <= i < items.filter(keep).len() ==> keep(#[trigger] items.filter(keep)[i]),
    decreases items.len(),
{
    reveal(Seq::filter);
    if items.len() > 0 {
        lemma_filter_keeps(items.drop_last(), keep);
    }
}

/// A filter that every item passes changes nothing.
pub proof fn lemma_filter_everything<A>(items: Seq<A>, keep: spec_fn(A) -> bool)
    requires
        forall|i: int| 0 <= i < items.len() ==> keep(#[trigger] items[i]),
    ensures
        items.filter(keep) == items,
    decreases items.len(),
{
    reveal(Seq::filter);
    if items.len() > 0 {
        let rest = items.drop_last();
        assert forall|i: int| 0 <= i < rest.len() implies keep(#[trigger] rest[i]) by {
            assert(rest[i] == items[i]);
        }
        lemma_filter_everything(rest, keep);
        assert(rest.push(items.last()) =~= items);
        assert(keep(items[items.len() - 1]));
    }
}

/// What passes a filter and what does not add up to the whole.
pub proof fn lemma_filter_splits<A>(
    items: Seq<A>,
    keep: spec_fn(A) -> bool,
    drop: spec_fn(A) -> bool,
)
    requires
        forall|i: int| 0 <= i < items.len() ==> keep(#[trigger] items[i]) != drop(items[i]),
    ensures
        items.filter(keep).len() + items.filter(drop).len() == items.len(),
    decreases items.len(),
{
    reveal(Seq::filter);
    if items.len() > 0 {
        let rest = items.drop_last();
        assert forall|i: int| 0 <= i < rest.len() implies keep(#[trigger] rest[i]) != drop(
            rest[i],
        ) by {
            assert(rest[i] == items[i]);
        }
        lemma_filter_splits(rest, keep, drop);
        assert(keep(items[items.len() - 1]) != drop(items[items.len() - 1]));
    }
}

/// Whether `at` holds the places of all the items that are kept, in order.
pub open spec fn are_places<A>(at: Seq<int>, items: Seq<A>, keep: spec_fn(A) -> bool) -> bool {
    &&& forall|k: int| 0 <= k < at.len() ==> 0 <= #[trigger] at[k] < items.len() && keep(items[at[k]])
    &&& forall|j: int, k: int| 0 <= j < k < at.len() ==> #[trigger] at[j] < #[trigger] at[k]
    &&& forall|n: int| 0 <= n < items.len() && keep(#[trigger] items[n]) ==> at.contains(n)
}

/// What passes a filter is what stands at the places of what is kept.
pub proof fn lemma_filter_places<A>(items: Seq<A>, keep: spec_fn(A) -> bool) -> (at: Seq<int>)
    ensures
        are_places(at, items, keep),
        at.len() == items.filter(keep).len(),
        forall|k: int| 0 <= k < at.len() ==> #[trigger] items.filter(keep)[k] == items[at[k]],
    decreases items.len(),
{
    reveal(Seq::filter);
    if items.len() == 0 {
        seq![]
    } else {
        let rest = items.drop_last();
        let last = items.len() - 1;
        let before = lemma_filter_places(rest, keep);
        if keep(items.last()) {
            let at = before.push(last);
            assert forall|n: int| 0 <= n < items.len() && keep(#[trigger] items[n]) implies at.contains(
                n,
            ) by {
                if n < last {
                    assert(rest[n] == items[n]);
                    let k = choose|k: int| 0 <= k < before.len() && before[k] == n;
                    assert(at[k] == n);
                } else {
                    assert(at[before.len() as int] == n);
                }
            }
            assert forall|k: int| 0 <= k < at.len() implies #[trigger] items.filter(keep)[k]
                == items[at[k]] by {
                if k < before.len() {
                    assert(rest.filter(keep)[k] == rest[before[k]]);
                }
            }
            at
        } else {
            assert forall|n: int| 0 <= n < items.len() && keep(
                #[trigger] items[n],
            ) implies before.contains(n) by {
                assert(rest[n] == items[n]);
            }
            before
        }
    }
}

}
