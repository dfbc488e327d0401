//! Facts about sequences that several modules need.

use vstd::prelude::*;

verus! {

/// Filtering a sequence with one more element filters the rest, and keeps that
/// element if it passes.
pub proof fn lemma_filter_push<T>(s: Seq<T>, x: T, pred: spec_fn(T) -> bool)
    ensures
        s.push(x).filter(pred) == if pred(x) {
            s.filter(pred).push(x)
        } else {
            s.filter(pred)
        },
{
    reveal(Seq::filter);
    assert(s.push(x).drop_last() == s);
}

} // verus!
