//! Facts about filtered sequences that the loops of this crate rely on.

use vstd::prelude::*;

verus! {

/// Filtering one more element of a sequence keeps it exactly if it passes.
pub proof fn lemma_filter_next<T>(items: Seq<T>, i: int, keep: spec_fn(T) -> bool)
    requires
        0 <= i < items.len(),
    ensures
        items.take(i + 1).filter(keep) == if keep(items[i]) {
            items.take(i).filter(keep).push(items[i])
        } else {
            items.take(i).filter(keep)
        },
{
    assert(items.take(i + 1) =~= items.take(i).push(items[i]));
    items.take(i).lemma_filter_push(items[i], keep);
}

/// Filtering nothing gives nothing.
pub proof fn lemma_filter_none<T>(keep: spec_fn(T) -> bool)
    ensures
        Seq::<T>::empty().filter(keep) == Seq::<T>::empty(),
{
    reveal(Seq::filter);
}

} // verus!
