//! Rounding of offsets to a multiple of an alignment.

use vstd::arithmetic::div_mod::{
    lemma_fundamental_div_mod, lemma_mod_decreases, lemma_mod_multiples_basic,
};
use vstd::prelude::*;

verus! {

/// The least multiple of `alignment` that is not below `value`.
pub open spec fn spec_align_up(value: int, alignment: int) -> int {
    if value % alignment == 0 {
        value
    } else {
        value + alignment - value % alignment
    }
}

/// The greatest multiple of `alignment` that is not above `value`.
pub open spec fn spec_align_down(value: int, alignment: int) -> int {
    value - value % alignment
}

/// Rounding up yields a multiple of the alignment that lies at or above
/// the value and less than one alignment above it.
pub proof fn lemma_align_up_bounds(value: int, alignment: int)
    requires
        0 <= value,
        0 < alignment,
    ensures
        value <= spec_align_up(value, alignment) < value + alignment,
        spec_align_up(value, alignment) % alignment == 0,
{
    let rounded = spec_align_up(value, alignment);
    if value % alignment != 0 {
        lemma_fundamental_div_mod(value, alignment);
        assert(rounded == alignment * (value / alignment + 1)) by (nonlinear_arith)
            requires
                rounded == value + alignment - value % alignment,
                value == alignment * (value / alignment) + value % alignment,
        ;
        lemma_mod_multiples_basic(value / alignment + 1, alignment);
        assert(alignment * (value / alignment + 1) == (value / alignment + 1) * alignment)
            by (nonlinear_arith);
    }
}

/// Rounding down yields a multiple of the alignment that lies at or below
/// the value and less than one alignment below it.
pub proof fn lemma_align_down_bounds(value: int, alignment: int)
    requires
        0 <= value,
        0 < alignment,
    ensures
        value - alignment < spec_align_down(value, alignment) <= value,
        spec_align_down(value, alignment) % alignment == 0,
{
    lemma_fundamental_div_mod(value, alignment);
    assert(spec_align_down(value, alignment) == (value / alignment) * alignment)
        by (nonlinear_arith)
        requires
            spec_align_down(value, alignment) == value - value % alignment,
            value == alignment * (value / alignment) + value % alignment,
    ;
    lemma_mod_multiples_basic(value / alignment, alignment);
}

/// Rounds `value` up to a multiple of `alignment`.
pub fn align_up(value: u64, alignment: u64) -> (rounded: u64)
    requires
        alignment > 0,
        spec_align_up(value as int, alignment as int) <= u64::MAX,
    ensures
        rounded == spec_align_up(value as int, alignment as int),
{
    let remainder: u64 = value % alignment;
    if remainder == 0 {
        value
    } else {
        value + (alignment - remainder)
    }
}

/// Rounds `value` down to a multiple of `alignment`.
pub fn align_down(value: u64, alignment: u64) -> (rounded: u64)
    requires
        alignment > 0,
    ensures
        rounded == spec_align_down(value as int, alignment as int),
{
    proof {
        lemma_mod_decreases(value as nat, alignment as nat);
    }
    value - value % alignment
}

} // verus!
