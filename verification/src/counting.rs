//! Counting the two cell colours in a sequence of binary cells.
//!
//! A cell holds `true` for white (unmarked) and `false` for black (marked).

use vstd::prelude::*;

verus! {

/// The number of white (`true`) cells in `s`.
pub open spec fn count_trues(s: Seq<bool>) -> nat
    decreases s.len(),
{
    if s.len() == 0 {
        0
    } else {
        count_trues(s.drop_last()) + if s.last() {
            1nat
        } else {
            0nat
        }
    }
}

/// The number of black (`false`) cells in `s`.
pub open spec fn count_blacks(s: Seq<bool>) -> nat
    decreases s.len(),
{
    if s.len() == 0 {
        0
    } else {
        count_blacks(s.drop_last()) + if s.last() {
            0nat
        } else {
            1nat
        }
    }
}

/// Every cell is either white or black, so the two counts partition the
/// sequence.
pub proof fn lemma_counts_sum(s: Seq<bool>)
    ensures
        count_trues(s) + count_blacks(s) == s.len(),
    decreases s.len(),
{
    if s.len() > 0 {
        lemma_counts_sum(s.drop_last());
    }
}

/// Cells known to be white contribute nothing to the black count: dropping
/// an all-white tail keeps the count of black cells.
pub proof fn lemma_count_blacks_white_tail(s: Seq<bool>, n: int)
    requires
        0 <= n <= s.len(),
        forall|i: int| n <= i < s.len() ==> s[i],
    ensures
        count_blacks(s) == count_blacks(s.take(n)),
    decreases s.len() - n,
{
    if n == s.len() {
        assert(s.take(n) =~= s);
    } else {
        let t = s.drop_last();
        assert(s.last());
        lemma_count_blacks_white_tail(t, n);
        assert(t.take(n) =~= s.take(n));
    }
}

} // verus!
