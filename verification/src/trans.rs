//! Magnitude, phase and the transcendental functions: every formula is a
//! verified composition of the named component operations, on the
//! principal branch throughout.

use vstd::prelude::*;

use crate::bits::{negate_bits, POS_ZERO, SIGN_MASK};
use crate::complex::Complex;
use crate::arith::{spec_div, spec_mul, spec_mulf};
use crate::scalar::{
    add_bits, atan2_bits, ceil_bits, cos_bits, exp_bits, floor_bits, ln_bits, mul_bits, pow_bits,
    round_bits, sin_bits, sqrt_bits, trunc_bits,
};
use crate::scalar::{
    add64, atan2_64, ceil64, cos64, exp64, floor64, ln64, mul64, pow64, round64, sin64, sqrt64,
    trunc64,
};

verus! {

/// The modulus: the root of the sum of the squared components.
pub open spec fn spec_amplitude(a: Complex) -> u64 {
    sqrt_bits(add_bits(mul_bits(a.real, a.real), mul_bits(a.imaginary, a.imaginary)))
}

/// The phase in `(-pi, pi]`: the four-quadrant arc tangent of the
/// imaginary component over the real one.
pub open spec fn spec_argument(a: Complex) -> u64 {
    atan2_bits(a.imaginary, a.real)
}

/// The principal natural logarithm: the logarithm of the modulus as real
/// component, the phase as imaginary one.
pub open spec fn spec_ln(a: Complex) -> Complex {
    Complex { real: ln_bits(spec_amplitude(a)), imaginary: spec_argument(a) }
}

/// The exponential: the exponential of the real component scales the
/// cosine and sine of the imaginary one.
pub open spec fn spec_exp(a: Complex) -> Complex {
    let scale = exp_bits(a.real);
    Complex {
        real: mul_bits(scale, cos_bits(a.imaginary)),
        imaginary: mul_bits(scale, sin_bits(a.imaginary)),
    }
}

/// The logarithm in a real base, by change of base via complex division.
pub open spec fn spec_log(a: Complex, base: u64) -> Complex {
    spec_div(spec_ln(a), spec_ln(Complex { real: base, imaginary: POS_ZERO }))
}

/// The real power on the principal branch: the exponential of the scaled
/// logarithm.
pub open spec fn spec_powf(a: Complex, exponent: u64) -> Complex {
    spec_exp(spec_mul(spec_ln(a), Complex { real: exponent, imaginary: POS_ZERO }))
}

/// The complex power, from the polar form of the base: the phase turns by
/// the exponent, the modulus is the real power scaled by the exponential
/// of the turned phase.
pub open spec fn spec_pow(a: Complex, o: Complex) -> Complex {
    let amplitude = spec_amplitude(a);
    let argument = spec_argument(a);
    spec_mulf(
        spec_exp(
            Complex {
                real: mul_bits(negate_bits(o.imaginary), argument),
                imaginary: add_bits(
                    mul_bits(o.imaginary, ln_bits(amplitude)),
                    mul_bits(o.real, argument),
                ),
            },
        ),
        pow_bits(amplitude, o.real),
    )
}

/// Polar to rectangular: the amplitude scales the cosine and sine of the
/// argument.
pub open spec fn spec_from_polar(argument: u64, amplitude: u64) -> Complex {
    Complex {
        real: mul_bits(cos_bits(argument), amplitude),
        imaginary: mul_bits(sin_bits(argument), amplitude),
    }
}

/// Component-wise rounding to the nearest integral value, ties away from
/// zero; per axis, blind to the complex-plane geometry.
pub open spec fn spec_naive_round(a: Complex) -> Complex {
    Complex { real: round_bits(a.real), imaginary: round_bits(a.imaginary) }
}

/// Component-wise rounding toward negative infinity.
pub open spec fn spec_naive_floor(a: Complex) -> Complex {
    Complex { real: floor_bits(a.real), imaginary: floor_bits(a.imaginary) }
}

/// Component-wise rounding toward positive infinity.
pub open spec fn spec_naive_ceil(a: Complex) -> Complex {
    Complex { real: ceil_bits(a.real), imaginary: ceil_bits(a.imaginary) }
}

/// Component-wise rounding toward zero.
pub open spec fn spec_naive_trunc(a: Complex) -> Complex {
    Complex { real: trunc_bits(a.real), imaginary: trunc_bits(a.imaginary) }
}

impl Complex {
    /// Polar to rectangular: both arguments are binary64 bit patterns.
    pub fn from_argument_amplitude(argument: u64, amplitude: u64) -> (r: Self)
        ensures
            r == spec_from_polar(argument, amplitude),
    {
        Self {
            real: mul64(cos64(argument), amplitude),
            imaginary: mul64(sin64(argument), amplitude),
        }
    }

    /// The modulus, as a binary64 bit pattern.
    pub fn amplitude(&self) -> (r: u64)
        ensures
            r == spec_amplitude(*self),
    {
        sqrt64(add64(mul64(self.real, self.real), mul64(self.imaginary, self.imaginary)))
    }

    /// The phase in `(-pi, pi]`, as a binary64 bit pattern.
    pub fn argument(&self) -> (r: u64)
        ensures
            r == spec_argument(*self),
    {
        atan2_64(self.imaginary, self.real)
    }

    /// The principal natural logarithm.
    pub fn ln(&self) -> (r: Self)
        ensures
            r == spec_ln(*self),
    {
        Self { real: ln64(self.amplitude()), imaginary: self.argument() }
    }

    /// The exponential.
    pub fn exp(&self) -> (r: Self)
        ensures
            r == spec_exp(*self),
    {
        let scale: u64 = exp64(self.real);
        Self {
            real: mul64(scale, cos64(self.imaginary)),
            imaginary: mul64(scale, sin64(self.imaginary)),
        }
    }

    /// The logarithm in a real base, by change of base.
    pub fn log(&self, base: u64) -> (r: Self)
        ensures
            r == spec_log(*self, base),
    {
        Self::div(&self.ln(), &Self::from_real(base).ln())
    }

    /// The real power on the principal branch.
    pub fn powf(&self, exponent: u64) -> (r: Self)
        ensures
            r == spec_powf(*self, exponent),
    {
        self.ln().mul(&Self::from_real(exponent)).exp()
    }

    /// The complex power, from the polar form of the base.
    pub fn pow(&self, other: &Self) -> (r: Self)
        ensures
            r == spec_pow(*self, *other),
    {
        let amplitude: u64 = self.amplitude();
        let argument: u64 = self.argument();
        Complex::new(
            mul64(other.imaginary ^ SIGN_MASK, argument),
            add64(mul64(other.imaginary, ln64(amplitude)), mul64(other.real, argument)),
        ).exp().mulf(pow64(amplitude, other.real))
    }

    /// Component-wise rounding to the nearest integral value.
    pub fn naive_round(&self) -> (r: Self)
        ensures
            r == spec_naive_round(*self),
    {
        Self { real: round64(self.real), imaginary: round64(self.imaginary) }
    }

    /// Component-wise rounding toward negative infinity.
    pub fn naive_floor(&self) -> (r: Self)
        ensures
            r == spec_naive_floor(*self),
    {
        Self { real: floor64(self.real), imaginary: floor64(self.imaginary) }
    }

    /// Component-wise rounding toward positive infinity.
    pub fn naive_ceil(&self) -> (r: Self)
        ensures
            r == spec_naive_ceil(*self),
    {
        Self { real: ceil64(self.real), imaginary: ceil64(self.imaginary) }
    }

    /// Component-wise rounding toward zero.
    pub fn naive_trunc(&self) -> (r: Self)
        ensures
            r == spec_naive_trunc(*self),
    {
        Self { real: trunc64(self.real), imaginary: trunc64(self.imaginary) }
    }
}

} // verus!
