//! The binary64 bit layout: field masks, distinguished patterns, and the
//! classification and sign operations that the format defines exactly.

use vstd::prelude::*;

verus! {

/// The sign bit of a binary64 pattern.
pub const SIGN_MASK: u64 = 0x8000_0000_0000_0000;

/// Everything but the sign bit: exponent and fraction.
pub const MAGNITUDE_MASK: u64 = 0x7FFF_FFFF_FFFF_FFFF;

/// The eleven exponent bits.
pub const EXPONENT_MASK: u64 = 0x7FF0_0000_0000_0000;

/// The fifty-two fraction bits.
pub const FRACTION_MASK: u64 = 0x000F_FFFF_FFFF_FFFF;

/// Positive zero.
pub const POS_ZERO: u64 = 0x0000_0000_0000_0000;

/// Negative zero.
pub const NEG_ZERO: u64 = 0x8000_0000_0000_0000;

/// The number one.
pub const ONE_BITS: u64 = 0x3FF0_0000_0000_0000;

/// The number minus one.
pub const NEG_ONE_BITS: u64 = 0xBFF0_0000_0000_0000;

/// The quiet NaN that the component type's own constant carries.
pub const NAN_BITS: u64 = 0x7FF8_0000_0000_0000;

/// Positive infinity.
pub const POS_INFINITY_BITS: u64 = 0x7FF0_0000_0000_0000;

/// The largest finite binary64 value.
pub const MAX_BITS: u64 = 0x7FEF_FFFF_FFFF_FFFF;

/// The most negative finite binary64 value.
pub const MIN_BITS: u64 = 0xFFEF_FFFF_FFFF_FFFF;

/// A zero of either sign: exactly the patterns that compare equal to zero.
pub open spec fn is_zero_bits(b: u64) -> bool {
    b & MAGNITUDE_MASK == 0
}

/// Exponent all ones with a non-zero fraction.
pub open spec fn is_nan_bits(b: u64) -> bool {
    b & EXPONENT_MASK == EXPONENT_MASK && b & FRACTION_MASK != 0
}

/// Zero, subnormal or normal: the exponent field is not all ones.
pub open spec fn is_finite_bits(b: u64) -> bool {
    b & EXPONENT_MASK != EXPONENT_MASK
}

/// Neither zero, subnormal, infinite nor NaN.
pub open spec fn is_normal_bits(b: u64) -> bool {
    b & EXPONENT_MASK != 0 && b & EXPONENT_MASK != EXPONENT_MASK
}

/// A non-zero pattern whose exponent field is zero.
pub open spec fn is_subnormal_bits(b: u64) -> bool {
    b & EXPONENT_MASK == 0 && b & FRACTION_MASK != 0
}

/// The sign bit is set; holds of negative zero and of NaNs with a set sign.
pub open spec fn is_sign_negative_bits(b: u64) -> bool {
    b & SIGN_MASK != 0
}

/// Negation: the format defines it as flipping the sign bit alone.
pub open spec fn negate_bits(b: u64) -> u64 {
    b ^ SIGN_MASK
}

/// Absolute value: the format defines it as clearing the sign bit alone.
pub open spec fn magnitude_bits(b: u64) -> u64 {
    b & MAGNITUDE_MASK
}

/// The magnitude of `b` under the sign of `s`.
pub open spec fn copysign_bits(b: u64, s: u64) -> u64 {
    (b & MAGNITUDE_MASK) | (s & SIGN_MASK)
}

/// One with the sign of `b`; NaN stays NaN. Zeros count by their sign bit.
pub open spec fn signum_bits(b: u64) -> u64 {
    if is_nan_bits(b) {
        NAN_BITS
    } else {
        ONE_BITS | (b & SIGN_MASK)
    }
}

/// Negating twice restores the pattern.
pub proof fn lemma_negate_involution(b: u64)
    ensures
        negate_bits(negate_bits(b)) == b,
{
    assert((b ^ SIGN_MASK) ^ SIGN_MASK == b) by (bit_vector);
}

} // verus!
