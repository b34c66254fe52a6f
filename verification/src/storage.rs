//! Bit-packed boolean storage, provided by the `boolvec` crate.
//!
//! `boolvec::BoolVec` is opaque to the verifier, so its contents are named by
//! `bools_of`: the sequence of booleans the vector stores, in order. The
//! vector packs eight booleans per byte and may carry unused padding bits in
//! its last byte; `padding_clear` names the fact that every such padding bit
//! is zero, which the contract of `bv_count_ones` needs.

use vstd::prelude::*;

use crate::counting::count_trues;

verus! {

#[verifier::external_type_specification]
#[verifier::external_body]
pub struct ExBoolVec(boolvec::BoolVec);

/// The booleans stored in `v`, in order.
pub uninterp spec fn bools_of(v: boolvec::BoolVec) -> Seq<bool>;

/// Every unused bit in the byte storage behind `v` is zero.
pub uninterp spec fn padding_clear(v: boolvec::BoolVec) -> bool;

/// How many booleans `boolvec::BoolVec::filled_with(count, _)` stores: when
/// `count` is a positive multiple of eight it appends one byte too many and
/// so stores eight extra booleans, each set to the same fill value.
pub open spec fn spec_stored_len(count: int) -> int {
    if count == 0 {
        0
    } else if count % 8 == 0 {
        count + 8
    } else {
        count
    }
}

/// Relies on boolvec::BoolVec::filled_with: it builds `count / 8` bytes of
/// the fill value plus one byte holding the remaining bits of the fill value
/// followed by zero padding. Every stored boolean equals `value`, and for a
/// positive `count` divisible by eight the final byte is extra, so eight more
/// booleans (also `value`) are stored.
#[verifier::external_body]
pub(crate) fn bv_filled(count: usize, value: bool) -> (r: boolvec::BoolVec)
    ensures
        bools_of(r).len() == spec_stored_len(count as int),
        forall|i: int| 0 <= i < bools_of(r).len() ==> bools_of(r)[i] == value,
        padding_clear(r),
{
    boolvec::BoolVec::filled_with(count, value)
}

/// Relies on boolvec::BoolVec::count: it returns the number of stored
/// booleans, computed from the byte length and the position of the last bit.
/// That computation stays within `usize` only while the rounded-up bit count
/// fits, hence the bound required here.
#[verifier::external_body]
pub(crate) fn bv_count(v: &boolvec::BoolVec) -> (r: usize)
    requires
        bools_of(*v).len() + 7 <= usize::MAX,
    ensures
        r as int == bools_of(*v).len(),
{
    v.count()
}

/// Relies on boolvec::BoolVec::get: it returns `Some` of the `nth` stored
/// boolean exactly when `nth` is below the stored count, so the in-bounds
/// requirement makes the unwrap safe.
#[verifier::external_body]
pub(crate) fn bv_get(v: &boolvec::BoolVec, nth: usize) -> (r: bool)
    requires
        nth < bools_of(*v).len(),
        bools_of(*v).len() + 7 <= usize::MAX,
    ensures
        r == bools_of(*v)[nth as int],
{
    v.get(nth).unwrap()
}

/// Relies on boolvec::BoolVec::set: it overwrites the single bit that holds
/// the `nth` stored boolean and panics only when `nth` is out of bounds,
/// which the in-bounds requirement rules out. No other bit changes, so the
/// padding bits keep their values.
#[verifier::external_body]
pub(crate) fn bv_set(v: &mut boolvec::BoolVec, nth: usize, value: bool)
    requires
        nth < bools_of(*old(v)).len(),
        bools_of(*old(v)).len() + 7 <= usize::MAX,
    ensures
        bools_of(*final(v)) == bools_of(*old(v)).update(nth as int, value),
        padding_clear(*old(v)) ==> padding_clear(*final(v)),
{
    v.set(nth, value)
}

/// Relies on boolvec::BoolVec::count_ones: it sums the set bits of every
/// byte, padding included; with all padding bits zero that sum is exactly
/// the number of stored booleans that are true. The sum stays within `usize`
/// because it is at most the rounded-up bit count, which the bound required
/// here keeps representable.
#[verifier::external_body]
pub(crate) fn bv_count_ones(v: &boolvec::BoolVec) -> (r: usize)
    requires
        padding_clear(*v),
        bools_of(*v).len() + 7 <= usize::MAX,
    ensures
        r as int == count_trues(bools_of(*v)),
{
    v.count_ones()
}

} // verus!
