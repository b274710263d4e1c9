//! Usage percentages as reported by the App Server.
//!
//! The server reports `usedPercent` as a JSON number, read as an IEEE-754
//! binary64 value. The library keeps that value as its exact 64-bit encoding
//! and clamps it to `0.0 ..= 100.0` on the encoding itself, so that a value
//! passes through unchanged, bit for bit, whenever it is already in range.
use vstd::prelude::*;

verus! {

/// Encoding of `+0.0`.
pub const PERCENT_ZERO: u64 = 0x0000_0000_0000_0000;

/// Encoding of `100.0`.
pub const PERCENT_HUNDRED: u64 = 0x4059_0000_0000_0000;

/// Encoding of `-0.0`: the sign bit alone.
pub const NEGATIVE_ZERO: u64 = 0x8000_0000_0000_0000;

/// The exponent field of a binary64 encoding.
pub const EXPONENT_MASK: u64 = 0x7ff0_0000_0000_0000;

/// The fraction field of a binary64 encoding.
pub const FRACTION_MASK: u64 = 0x000f_ffff_ffff_ffff;

/// The encoding is a NaN: all exponent bits set and a nonzero fraction.
pub open spec fn is_nan_encoding(bits: u64) -> bool {
    (bits & EXPONENT_MASK) == EXPONENT_MASK && (bits & FRACTION_MASK) != 0
}

/// The encoding is a value strictly below zero: the sign bit is set and the
/// magnitude is not zero (`-0.0` is not below zero).
pub open spec fn is_below_zero_encoding(bits: u64) -> bool {
    !is_nan_encoding(bits) && bits > NEGATIVE_ZERO
}

/// The encoding is a value strictly above `100.0`. Non-negative binary64
/// values (infinity included) are ordered as their encodings are.
pub open spec fn is_above_hundred_encoding(bits: u64) -> bool {
    !is_nan_encoding(bits) && PERCENT_HUNDRED < bits < NEGATIVE_ZERO
}

/// The encoding is a value in `0.0 ..= 100.0` (either zero counts).
pub open spec fn is_percent_encoding(bits: u64) -> bool {
    bits <= PERCENT_HUNDRED || bits == NEGATIVE_ZERO
}

/// What clamping to `0.0 ..= 100.0` gives: a NaN stays as it is, a value
/// below zero becomes `0.0`, a value above a hundred becomes `100.0`, and any
/// other value stays as it is.
pub open spec fn clamped_percent(bits: u64) -> u64 {
    if is_nan_encoding(bits) {
        bits
    } else if is_below_zero_encoding(bits) {
        PERCENT_ZERO
    } else if is_above_hundred_encoding(bits) {
        PERCENT_HUNDRED
    } else {
        bits
    }
}

/// Clamps a percentage, given by its binary64 encoding, to `0.0 ..= 100.0`.
pub fn clamp_percent(bits: u64) -> (clamped: u64)
    ensures
        clamped == clamped_percent(bits),
{
    let is_nan = (bits & EXPONENT_MASK) == EXPONENT_MASK && (bits & FRACTION_MASK) != 0;
    if is_nan {
        bits
    } else if bits > NEGATIVE_ZERO {
        PERCENT_ZERO
    } else if PERCENT_HUNDRED < bits && bits < NEGATIVE_ZERO {
        PERCENT_HUNDRED
    } else {
        bits
    }
}

/// All bits but the sign bit.
pub const MAGNITUDE_MASK: u64 = 0x7fff_ffff_ffff_ffff;

/// The two encodings stand for equal binary64 values: neither is a NaN, and
/// they are the same encoding or both are zeros (`0.0 == -0.0`).
pub open spec fn same_percent(a: u64, b: u64) -> bool {
    &&& !is_nan_encoding(a)
    &&& !is_nan_encoding(b)
    &&& (a == b || ((a & MAGNITUDE_MASK) == 0 && (b & MAGNITUDE_MASK) == 0))
}

/// Compares two percentages, given by their encodings, as binary64 values.
pub fn percent_equal(a: u64, b: u64) -> (equal: bool)
    ensures
        equal == same_percent(a, b),
{
    let a_is_nan = (a & EXPONENT_MASK) == EXPONENT_MASK && (a & FRACTION_MASK) != 0;
    let b_is_nan = (b & EXPONENT_MASK) == EXPONENT_MASK && (b & FRACTION_MASK) != 0;
    !a_is_nan && !b_is_nan && (a == b || ((a & MAGNITUDE_MASK) == 0 && (b & MAGNITUDE_MASK)
        == 0))
}

/// Every percentage that is not a NaN is in range once clamped, and clamping
/// a clamped percentage changes nothing.
pub proof fn lemma_clamp_lands_in_range(bits: u64)
    ensures
        !is_nan_encoding(bits) ==> is_percent_encoding(clamped_percent(bits)),
        clamped_percent(clamped_percent(bits)) == clamped_percent(bits),
{
    assert(PERCENT_ZERO & EXPONENT_MASK == 0) by (bit_vector);
    assert(PERCENT_HUNDRED & EXPONENT_MASK != EXPONENT_MASK) by (bit_vector);
}

/// Clamping leaves a value that is already in range unchanged.
pub proof fn lemma_clamp_keeps_in_range(bits: u64)
    requires
        is_percent_encoding(bits),
    ensures
        clamped_percent(bits) == bits,
{
    assert(bits <= PERCENT_HUNDRED ==> bits & EXPONENT_MASK != EXPONENT_MASK) by (bit_vector);
}

} // verus!
