//! Facts about sequences.

use vstd::prelude::*;

verus! {

/// The sum of a sequence of counts.
pub open spec fn total(counts: Seq<nat>) -> nat
    decreases counts.len(),
{
    if counts.len() == 0 {
        0
    } else {
        total(counts.drop_last()) + counts.last()
    }
}

/// The sum of one more count is the sum so far plus that count.
pub proof fn lemma_total_step(counts: Seq<nat>, k: int)
    requires
        0 <= k < counts.len(),
    ensures
        total(counts.take(k + 1)) == total(counts.take(k)) + counts[k],
{
    assert(counts.take(k + 1).drop_last() =~= counts.take(k));
}

/// The sum of a prefix is no more than the sum of all.
pub proof fn lemma_total_prefix(counts: Seq<nat>, k: int)
    requires
        0 <= k <= counts.len(),
    ensures
        total(counts.take(k)) <= total(counts),
    decreases counts.len(),
{
    if k == counts.len() {
        assert(counts.take(k) =~= counts);
    } else {
        lemma_total_prefix(counts.drop_last(), k);
        assert(counts.drop_last().take(k) =~= counts.take(k));
    }
}

/// The filter of a list with one more element at its end.
pub proof fn lemma_filter_push<A>(s: Seq<A>, last: A, keep: spec_fn(A) -> bool)
    ensures
        s.push(last).filter(keep) == if keep(last) {
            s.filter(keep).push(last)
        } else {
            s.filter(keep)
        },
{
    reveal(Seq::filter);
    assert(s.push(last).drop_last() =~= s);
}

} // verus!
