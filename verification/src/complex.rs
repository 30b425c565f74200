//! The complex value type and the operations that the binary64 format
//! fixes exactly: construction, classification, signs, component access
//! and bitwise reinterpretation.

use vstd::prelude::*;

use crate::bits::{
    EXPONENT_MASK, FRACTION_MASK, MAGNITUDE_MASK, MAX_BITS, MIN_BITS, NAN_BITS, ONE_BITS, POS_ZERO,
    SIGN_MASK,
};
use crate::bits::{
    copysign_bits, is_finite_bits, is_normal_bits, is_sign_negative_bits,
    is_subnormal_bits, is_zero_bits, magnitude_bits, negate_bits, signum_bits,
};

verus! {

/// A complex number: an ordered pair of binary64 components, each held as
/// its bit pattern. Any pattern is a valid component, NaNs and infinities
/// included; equality of two values is equality of their patterns.
#[derive(Clone, Copy, PartialEq, Eq, Structural, Debug)]
pub struct Complex {
    pub real: u64,
    pub imaginary: u64,
}

/// Zero in both components.
pub open spec fn spec_zero() -> Complex {
    Complex { real: POS_ZERO, imaginary: POS_ZERO }
}

/// One: the multiplicative identity, a pure-real value.
pub open spec fn spec_one() -> Complex {
    Complex { real: ONE_BITS, imaginary: POS_ZERO }
}

/// The imaginary unit.
pub open spec fn spec_i() -> Complex {
    Complex { real: POS_ZERO, imaginary: ONE_BITS }
}

/// The conjugate: the imaginary component's sign bit flipped.
pub open spec fn spec_conj(a: Complex) -> Complex {
    Complex { real: a.real, imaginary: negate_bits(a.imaginary) }
}

/// Component-wise negation: both sign bits flipped.
pub open spec fn spec_neg(a: Complex) -> Complex {
    Complex { real: negate_bits(a.real), imaginary: negate_bits(a.imaginary) }
}

/// Component-wise absolute value: both sign bits cleared. This is not the
/// modulus of the complex value.
pub open spec fn spec_component_abs(a: Complex) -> Complex {
    Complex { real: magnitude_bits(a.real), imaginary: magnitude_bits(a.imaginary) }
}

/// Component-wise signum.
pub open spec fn spec_signum(a: Complex) -> Complex {
    Complex { real: signum_bits(a.real), imaginary: signum_bits(a.imaginary) }
}

/// Component-wise copysign: each component of `a` under the sign of the
/// matching component of `s`.
pub open spec fn spec_copysign(a: Complex, s: Complex) -> Complex {
    Complex {
        real: copysign_bits(a.real, s.real),
        imaginary: copysign_bits(a.imaginary, s.imaginary),
    }
}

/// Bitwise conjunction of the two raw representations.
pub open spec fn spec_bitand(a: Complex, b: Complex) -> Complex {
    Complex { real: a.real & b.real, imaginary: a.imaginary & b.imaginary }
}

/// Bitwise disjunction of the two raw representations.
pub open spec fn spec_bitor(a: Complex, b: Complex) -> Complex {
    Complex { real: a.real | b.real, imaginary: a.imaginary | b.imaginary }
}

/// Bitwise exclusive disjunction of the two raw representations.
pub open spec fn spec_bitxor(a: Complex, b: Complex) -> Complex {
    Complex { real: a.real ^ b.real, imaginary: a.imaginary ^ b.imaginary }
}

impl Complex {
    /// The pair `(re, im)`, both given as binary64 bit patterns.
    pub fn new(re: u64, im: u64) -> (r: Self)
        ensures
            r == (Complex { real: re, imaginary: im }),
    {
        Self { real: re, imaginary: im }
    }

    /// A pure-real value: the imaginary component is positive zero.
    pub fn from_real(re: u64) -> (r: Self)
        ensures
            r == (Complex { real: re, imaginary: POS_ZERO }),
    {
        Self { real: re, imaginary: POS_ZERO }
    }

    /// The additive identity.
    pub fn zero() -> (r: Self)
        ensures
            r == spec_zero(),
    {
        Self { real: POS_ZERO, imaginary: POS_ZERO }
    }

    /// The multiplicative identity.
    pub fn one() -> (r: Self)
        ensures
            r == spec_one(),
    {
        Self { real: ONE_BITS, imaginary: POS_ZERO }
    }

    /// The imaginary unit.
    pub fn i() -> (r: Self)
        ensures
            r == spec_i(),
    {
        Self { real: POS_ZERO, imaginary: ONE_BITS }
    }

    /// The most negative finite value in both components.
    pub fn min_value() -> (r: Self)
        ensures
            r == (Complex { real: MIN_BITS, imaginary: MIN_BITS }),
    {
        Self { real: MIN_BITS, imaginary: MIN_BITS }
    }

    /// The largest finite value in both components.
    pub fn max_value() -> (r: Self)
        ensures
            r == (Complex { real: MAX_BITS, imaginary: MAX_BITS }),
    {
        Self { real: MAX_BITS, imaginary: MAX_BITS }
    }

    /// The real component alone, as a pure-real value.
    pub fn extract_real(&self) -> (r: Self)
        ensures
            r == (Complex { real: self.real, imaginary: POS_ZERO }),
    {
        Self { real: self.real, imaginary: POS_ZERO }
    }

    /// The imaginary component alone, with a zero real component.
    pub fn extract_imaginary(&self) -> (r: Self)
        ensures
            r == (Complex { real: POS_ZERO, imaginary: self.imaginary }),
    {
        Self { real: POS_ZERO, imaginary: self.imaginary }
    }

    /// Both components compare equal to zero; zeros of either sign count.
    pub fn is_zero(&self) -> (r: bool)
        ensures
            r == (is_zero_bits(self.real) && is_zero_bits(self.imaginary)),
    {
        self.real & MAGNITUDE_MASK == 0 && self.imaginary & MAGNITUDE_MASK == 0
    }

    /// The real component compares equal to one and the imaginary to zero.
    pub fn is_one(&self) -> (r: bool)
        ensures
            r == (self.real == ONE_BITS && is_zero_bits(self.imaginary)),
    {
        self.real == ONE_BITS && self.imaginary & MAGNITUDE_MASK == 0
    }

    /// The real component compares equal to zero and the imaginary to one.
    pub fn is_i(&self) -> (r: bool)
        ensures
            r == (is_zero_bits(self.real) && self.imaginary == ONE_BITS),
    {
        self.real & MAGNITUDE_MASK == 0 && self.imaginary == ONE_BITS
    }

    /// The imaginary component compares equal to zero.
    pub fn is_pure_real(&self) -> (r: bool)
        ensures
            r == is_zero_bits(self.imaginary),
    {
        self.imaginary & MAGNITUDE_MASK == 0
    }

    /// The real component compares equal to zero.
    pub fn is_pure_imaginary(&self) -> (r: bool)
        ensures
            r == is_zero_bits(self.real),
    {
        self.real & MAGNITUDE_MASK == 0
    }

    /// Whether each component is finite: neither infinite nor NaN.
    pub fn is_finite(&self) -> (r: (bool, bool))
        ensures
            r.0 == is_finite_bits(self.real),
            r.1 == is_finite_bits(self.imaginary),
    {
        (
            self.real & EXPONENT_MASK != EXPONENT_MASK,
            self.imaginary & EXPONENT_MASK != EXPONENT_MASK,
        )
    }

    /// Whether each component is normal: neither zero, subnormal,
    /// infinite nor NaN.
    pub fn is_normal(&self) -> (r: (bool, bool))
        ensures
            r.0 == is_normal_bits(self.real),
            r.1 == is_normal_bits(self.imaginary),
    {
        (
            self.real & EXPONENT_MASK != 0 && self.real & EXPONENT_MASK != EXPONENT_MASK,
            self.imaginary & EXPONENT_MASK != 0 && self.imaginary & EXPONENT_MASK
                != EXPONENT_MASK,
        )
    }

    /// Whether each component is subnormal.
    pub fn is_subnormal(&self) -> (r: (bool, bool))
        ensures
            r.0 == is_subnormal_bits(self.real),
            r.1 == is_subnormal_bits(self.imaginary),
    {
        (
            self.real & EXPONENT_MASK == 0 && self.real & FRACTION_MASK != 0,
            self.imaginary & EXPONENT_MASK == 0 && self.imaginary & FRACTION_MASK != 0,
        )
    }

    /// Whether each component carries a clear sign bit.
    pub fn is_sign_positive(&self) -> (r: (bool, bool))
        ensures
            r.0 == !is_sign_negative_bits(self.real),
            r.1 == !is_sign_negative_bits(self.imaginary),
    {
        (self.real & SIGN_MASK == 0, self.imaginary & SIGN_MASK == 0)
    }

    /// Whether each component carries a set sign bit.
    pub fn is_sign_negative(&self) -> (r: (bool, bool))
        ensures
            r.0 == is_sign_negative_bits(self.real),
            r.1 == is_sign_negative_bits(self.imaginary),
    {
        (self.real & SIGN_MASK != 0, self.imaginary & SIGN_MASK != 0)
    }

    /// Overwrites the value with zero.
    pub fn set_zero(&mut self)
        ensures
            *final(self) == spec_zero(),
    {
        *self = Self::zero();
    }

    /// Overwrites the value with one.
    pub fn set_one(&mut self)
        ensures
            *final(self) == spec_one(),
    {
        *self = Self::one();
    }

    /// Overwrites the value with the imaginary unit.
    pub fn set_i(&mut self)
        ensures
            *final(self) == spec_i(),
    {
        *self = Self::i();
    }

    /// The conjugate: the imaginary component's sign flipped, exactly.
    pub fn conj(&self) -> (r: Self)
        ensures
            r == spec_conj(*self),
    {
        Self { real: self.real, imaginary: self.imaginary ^ SIGN_MASK }
    }

    /// Component-wise negation; exact, a sign-bit flip per component.
    pub fn neg(&self) -> (r: Self)
        ensures
            r == spec_neg(*self),
    {
        Self { real: self.real ^ SIGN_MASK, imaginary: self.imaginary ^ SIGN_MASK }
    }

    /// Component-wise absolute value, not the modulus: each sign bit is
    /// cleared, exactly.
    pub fn abs(&self) -> (r: Self)
        ensures
            r == spec_component_abs(*self),
    {
        Self { real: self.real & MAGNITUDE_MASK, imaginary: self.imaginary & MAGNITUDE_MASK }
    }

    /// Component-wise signum: one under the component's sign, NaN for NaN.
    pub fn signum(&self) -> (r: Self)
        ensures
            r == spec_signum(*self),
    {
        let re: u64 = if self.real & EXPONENT_MASK == EXPONENT_MASK && self.real & FRACTION_MASK
            != 0 {
            NAN_BITS
        } else {
            ONE_BITS | (self.real & SIGN_MASK)
        };
        let im: u64 = if self.imaginary & EXPONENT_MASK == EXPONENT_MASK && self.imaginary
            & FRACTION_MASK != 0 {
            NAN_BITS
        } else {
            ONE_BITS | (self.imaginary & SIGN_MASK)
        };
        Self { real: re, imaginary: im }
    }

    /// Component-wise copysign: this value's magnitudes under `sign`'s
    /// sign bits, exactly.
    pub fn copysign(&self, sign: &Self) -> (r: Self)
        ensures
            r == spec_copysign(*self, *sign),
    {
        Self {
            real: (self.real & MAGNITUDE_MASK) | (sign.real & SIGN_MASK),
            imaginary: (self.imaginary & MAGNITUDE_MASK) | (sign.imaginary & SIGN_MASK),
        }
    }

    /// Bitwise conjunction of the raw representations, component by
    /// component. A reinterpretation of the bits, with no numeric meaning.
    pub fn bitand(&self, other: &Self) -> (r: Self)
        ensures
            r == spec_bitand(*self, *other),
    {
        Self { real: self.real & other.real, imaginary: self.imaginary & other.imaginary }
    }

    /// Replaces the value with `self.bitand(other)`.
    pub fn bitand_assign(&mut self, other: &Self)
        ensures
            *final(self) == spec_bitand(*old(self), *other),
    {
        *self = Self::bitand(self, other);
    }

    /// Bitwise disjunction of the raw representations.
    pub fn bitor(&self, other: &Self) -> (r: Self)
        ensures
            r == spec_bitor(*self, *other),
    {
        Self { real: self.real | other.real, imaginary: self.imaginary | other.imaginary }
    }

    /// Replaces the value with `self.bitor(other)`.
    pub fn bitor_assign(&mut self, other: &Self)
        ensures
            *final(self) == spec_bitor(*old(self), *other),
    {
        *self = Self::bitor(self, other);
    }

    /// Bitwise exclusive disjunction of the raw representations.
    pub fn bitxor(&self, other: &Self) -> (r: Self)
        ensures
            r == spec_bitxor(*self, *other),
    {
        Self { real: self.real ^ other.real, imaginary: self.imaginary ^ other.imaginary }
    }

    /// Replaces the value with `self.bitxor(other)`.
    pub fn bitxor_assign(&mut self, other: &Self)
        ensures
            *final(self) == spec_bitxor(*old(self), *other),
    {
        *self = Self::bitxor(self, other);
    }

    /// The component selected by a boolean: `false` the real, `true` the
    /// imaginary.
    pub fn index(&self, index: bool) -> (r: &u64)
        ensures
            *r == (if index {
                self.imaginary
            } else {
                self.real
            }),
    {
        if index {
            &self.imaginary
        } else {
            &self.real
        }
    }

    /// A mutable borrow of the component selected by a boolean.
    pub fn index_mut(&mut self, index: bool) -> (r: &mut u64)
        ensures
            *r == (if index {
                old(self).imaginary
            } else {
                old(self).real
            }),
            index ==> *final(self) == (Complex {
                real: old(self).real,
                imaginary: *final(r),
            }),
            !index ==> *final(self) == (Complex {
                real: *final(r),
                imaginary: old(self).imaginary,
            }),
    {
        if index {
            &mut self.imaginary
        } else {
            &mut self.real
        }
    }
}

impl Default for Complex {
    /// The default value is zero.
    fn default() -> (r: Self)
        ensures
            r == spec_zero(),
    {
        Self::zero()
    }
}

impl From<(u64, u64)> for Complex {
    /// The pair read as `(real, imaginary)`.
    fn from(pair: (u64, u64)) -> (r: Self) {
        Self { real: pair.0, imaginary: pair.1 }
    }
}

impl vstd::std_specs::convert::FromSpecImpl<(u64, u64)> for Complex {
    open spec fn obeys_from_spec() -> bool {
        true
    }

    open spec fn from_spec(pair: (u64, u64)) -> Self {
        Complex { real: pair.0, imaginary: pair.1 }
    }
}

impl From<u64> for Complex {
    /// A single component read as a pure-real value.
    fn from(re: u64) -> (r: Self) {
        Self { real: re, imaginary: POS_ZERO }
    }
}

impl vstd::std_specs::convert::FromSpecImpl<u64> for Complex {
    open spec fn obeys_from_spec() -> bool {
        true
    }

    open spec fn from_spec(re: u64) -> Self {
        Complex { real: re, imaginary: POS_ZERO }
    }
}

/// Conjugating twice restores the value, for every value.
pub proof fn lemma_conj_involution(a: Complex)
    ensures
        spec_conj(spec_conj(a)) == a,
{
    crate::bits::lemma_negate_involution(a.imaginary);
}

/// The bitwise conjunction of a value with itself is the value.
pub proof fn lemma_bitand_self(a: Complex)
    ensures
        spec_bitand(a, a) == a,
{
    assert(a.real & a.real == a.real) by (bit_vector);
    assert(a.imaginary & a.imaginary == a.imaginary) by (bit_vector);
}

/// The bitwise exclusive disjunction of a value with itself is the value
/// with every bit clear: zero in both components.
pub proof fn lemma_bitxor_self(a: Complex)
    ensures
        spec_bitxor(a, a) == spec_zero(),
{
    assert(a.real ^ a.real == 0u64) by (bit_vector);
    assert(a.imaginary ^ a.imaginary == 0u64) by (bit_vector);
}

} // verus!
