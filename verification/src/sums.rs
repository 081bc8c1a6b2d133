//! Sums over sequences of pool amounts, and the facts the accounting
//! contracts need about them.

use vstd::prelude::*;

verus! {

/// The sum of a sequence of stake amounts, as an unbounded integer.
pub open spec fn pool_sum(s: Seq<u64>) -> int
    decreases s.len(),
{
    if s.len() == 0 {
        0
    } else {
        pool_sum(s.drop_last()) + s.last()
    }
}

/// A sum of unsigned amounts is never negative.
pub proof fn lemma_pool_sum_nonneg(s: Seq<u64>)
    ensures
        pool_sum(s) >= 0,
    decreases s.len(),
{
    if s.len() > 0 {
        lemma_pool_sum_nonneg(s.drop_last());
    }
}

/// A sequence of zeros sums to zero.
pub proof fn lemma_pool_sum_zeros(s: Seq<u64>)
    requires
        forall|i: int| 0 <= i < s.len() ==> s[i] == 0,
    ensures
        pool_sum(s) == 0,
    decreases s.len(),
{
    if s.len() > 0 {
        lemma_pool_sum_zeros(s.drop_last());
    }
}

/// Replacing one element changes the sum by the difference.
pub proof fn lemma_pool_sum_update(s: Seq<u64>, i: int, v: u64)
    requires
        0 <= i < s.len(),
    ensures
        pool_sum(s.update(i, v)) == pool_sum(s) - s[i] + v,
    decreases s.len(),
{
    if i == s.len() - 1 {
        assert(s.update(i, v).drop_last() =~= s.drop_last());
    } else {
        assert(s.update(i, v).drop_last() =~= s.drop_last().update(i, v));
        assert(s.update(i, v).last() == s.last());
        lemma_pool_sum_update(s.drop_last(), i, v);
    }
}

} // verus!
