//! Generic bitfield arithmetic over one 32-bit sub-register word.
//!
//! A field is an inclusive bit-range `lo ..= hi` inside a 32-bit word. A read
//! shifts the word right by `lo` and masks to the field's width; a write
//! clears exactly the field's bits and ORs the new value, truncated to the
//! field's width, into position. The lemmas at the end state the bit-level
//! laws the register accessors are built on: a written value reads back, and
//! writing one field leaves every disjoint field and every bit outside the
//! range untouched.

use vstd::prelude::*;

verus! {

/// A well-formed inclusive bit-range inside a 32-bit word. A field of width
/// zero cannot be written down: `lo ..= hi` always spans `hi - lo + 1` bits.
pub open spec fn valid_range(lo: u32, hi: u32) -> bool {
    lo <= hi && hi < 32
}

/// Mask with the low `hi - lo + 1` bits set: the width mask of the range.
pub open spec fn width_mask(lo: u32, hi: u32) -> u32 {
    u32::MAX >> ((31 - (hi - lo)) as u32)
}

/// Mask with exactly the bits `lo ..= hi` set.
pub open spec fn range_mask(lo: u32, hi: u32) -> u32 {
    width_mask(lo, hi) << lo
}

/// `v` fits the field: truncating it to the field's width changes nothing.
pub open spec fn fits(v: u32, lo: u32, hi: u32) -> bool {
    v & width_mask(lo, hi) == v
}

/// The value of the field `lo ..= hi` of `word`, shifted down to bit 0.
pub open spec fn spec_field_get(word: u32, lo: u32, hi: u32) -> u32 {
    (word >> lo) & width_mask(lo, hi)
}

/// `word` with the field `lo ..= hi` replaced by `v`, truncated to the
/// field's width; every bit outside the range is kept.
pub open spec fn spec_field_set(word: u32, lo: u32, hi: u32, v: u32) -> u32 {
    (word & !range_mask(lo, hi)) | ((v & width_mask(lo, hi)) << lo)
}

/// Read the field `lo ..= hi` of `word`; what is read always fits the field.
pub fn field_get(word: u32, lo: u32, hi: u32) -> (r: u32)
    requires
        valid_range(lo, hi),
    ensures
        r == spec_field_get(word, lo, hi),
        fits(r, lo, hi),
{
    proof {
        assert(((word >> lo) & (u32::MAX >> ((31 - (hi - lo)) as u32))) & (u32::MAX >> ((31 - (hi
            - lo)) as u32)) == (word >> lo) & (u32::MAX >> ((31 - (hi - lo)) as u32)))
            by (bit_vector)
            requires
                lo <= hi && hi < 32,
        ;
    }
    let shift: u32 = 31 - (hi - lo);
    (word >> lo) & (u32::MAX >> shift)
}

/// Replace the field `lo ..= hi` of `word` by `v` (truncated to the field's
/// width), leaving all other bits of the word as they were.
pub fn field_set(word: u32, lo: u32, hi: u32, v: u32) -> (r: u32)
    requires
        valid_range(lo, hi),
    ensures
        r == spec_field_set(word, lo, hi, v),
{
    let shift: u32 = 31 - (hi - lo);
    let wm: u32 = u32::MAX >> shift;
    (word & !(wm << lo)) | ((v & wm) << lo)
}

/// A value that fits the field reads back exactly after a write.
pub proof fn lemma_set_then_get(word: u32, lo: u32, hi: u32, v: u32)
    requires
        valid_range(lo, hi),
        fits(v, lo, hi),
    ensures
        spec_field_get(spec_field_set(word, lo, hi, v), lo, hi) == v,
{
    lemma_set_then_get_truncated(word, lo, hi, v);
}

/// A write reads back as the written value truncated to the field's width.
pub proof fn lemma_set_then_get_truncated(word: u32, lo: u32, hi: u32, v: u32)
    requires
        valid_range(lo, hi),
    ensures
        spec_field_get(spec_field_set(word, lo, hi, v), lo, hi) == v & width_mask(lo, hi),
{
    assert(spec_field_get(spec_field_set(word, lo, hi, v), lo, hi) == v & width_mask(lo, hi))
        by (bit_vector)
        requires
            lo <= hi && hi < 32,
    ;
}

/// Writing one field does not alter any disjoint field of the same word.
pub proof fn lemma_set_preserves_disjoint(
    word: u32,
    lo: u32,
    hi: u32,
    v: u32,
    lo2: u32,
    hi2: u32,
)
    requires
        valid_range(lo, hi),
        valid_range(lo2, hi2),
        hi < lo2 || hi2 < lo,
    ensures
        spec_field_get(spec_field_set(word, lo, hi, v), lo2, hi2) == spec_field_get(
            word,
            lo2,
            hi2,
        ),
{
    assert(spec_field_get(spec_field_set(word, lo, hi, v), lo2, hi2) == spec_field_get(
        word,
        lo2,
        hi2,
    )) by (bit_vector)
        requires
            lo <= hi && hi < 32 && lo2 <= hi2 && hi2 < 32 && (hi < lo2 || hi2 < lo),
    ;
}

/// Writing a field leaves every bit outside the field's range unchanged.
pub proof fn lemma_set_preserves_outside(word: u32, lo: u32, hi: u32, v: u32)
    requires
        valid_range(lo, hi),
    ensures
        spec_field_set(word, lo, hi, v) & !range_mask(lo, hi) == word & !range_mask(lo, hi),
{
    assert(spec_field_set(word, lo, hi, v) & !(width_mask(lo, hi) << lo) == word & !(width_mask(
        lo,
        hi,
    ) << lo)) by (bit_vector)
        requires
            lo <= hi && hi < 32,
    ;
}

} // verus!
