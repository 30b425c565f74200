//! Arithmetic on complex values: the field operations built from the
//! rounded component operations, scalar variants, reciprocals, integer
//! powers and the checked variants that signal a non-finite outcome.

use vstd::prelude::*;

use crate::bits::{is_finite_bits, negate_bits, EXPONENT_MASK, SIGN_MASK};
use crate::complex::{spec_neg, spec_one, Complex};
use crate::scalar::{add_bits, div_bits, mul_bits, sub_bits};
use crate::scalar::{add64, div64, mul64, sub64};

verus! {

/// Component-wise sum.
pub open spec fn spec_add(a: Complex, b: Complex) -> Complex {
    Complex {
        real: add_bits(a.real, b.real),
        imaginary: add_bits(a.imaginary, b.imaginary),
    }
}

/// A real scalar added to the real component alone: adding a real number
/// shifts only the real axis.
pub open spec fn spec_addf(a: Complex, s: u64) -> Complex {
    Complex { real: add_bits(a.real, s), imaginary: a.imaginary }
}

/// Component-wise difference.
pub open spec fn spec_sub(a: Complex, b: Complex) -> Complex {
    Complex {
        real: sub_bits(a.real, b.real),
        imaginary: sub_bits(a.imaginary, b.imaginary),
    }
}

/// A real scalar subtracted from the real component alone.
pub open spec fn spec_subf(a: Complex, s: u64) -> Complex {
    Complex { real: sub_bits(a.real, s), imaginary: a.imaginary }
}

/// Field multiplication: `(ac - bd, ad + bc)` over the rounded component
/// operations.
pub open spec fn spec_mul(a: Complex, b: Complex) -> Complex {
    Complex {
        real: sub_bits(mul_bits(a.real, b.real), mul_bits(a.imaginary, b.imaginary)),
        imaginary: add_bits(mul_bits(a.real, b.imaginary), mul_bits(a.imaginary, b.real)),
    }
}

/// A real scalar multiplied into both components.
pub open spec fn spec_mulf(a: Complex, s: u64) -> Complex {
    Complex { real: mul_bits(a.real, s), imaginary: mul_bits(a.imaginary, s) }
}

/// Field division: multiplication by the conjugate over the squared
/// amplitude of the divisor. A zero divisor flows into the component
/// division, which yields infinities or NaNs, never an error.
pub open spec fn spec_div(a: Complex, b: Complex) -> Complex {
    let denominator = add_bits(mul_bits(b.real, b.real), mul_bits(b.imaginary, b.imaginary));
    Complex {
        real: div_bits(
            add_bits(mul_bits(a.real, b.real), mul_bits(a.imaginary, b.imaginary)),
            denominator,
        ),
        imaginary: div_bits(
            sub_bits(mul_bits(a.imaginary, b.real), mul_bits(a.real, b.imaginary)),
            denominator,
        ),
    }
}

/// Both components divided by a real scalar.
pub open spec fn spec_divf(a: Complex, s: u64) -> Complex {
    Complex { real: div_bits(a.real, s), imaginary: div_bits(a.imaginary, s) }
}

/// The reciprocal: the conjugate divided by the squared amplitude.
pub open spec fn spec_recip(a: Complex) -> Complex {
    let divisor = add_bits(mul_bits(a.real, a.real), mul_bits(a.imaginary, a.imaginary));
    Complex {
        real: div_bits(a.real, divisor),
        imaginary: div_bits(negate_bits(a.imaginary), divisor),
    }
}

/// One pass of exponentiation by squaring: multiply the accumulator by the
/// base on an odd exponent, square the base, halve the exponent.
pub open spec fn spec_powi_loop(acc: Complex, base: Complex, e: nat) -> Complex
    decreases e,
{
    if e == 0 {
        acc
    } else {
        spec_powi_loop(
            if e % 2 == 1 {
                spec_mul(acc, base)
            } else {
                acc
            },
            spec_mul(base, base),
            e / 2,
        )
    }
}

/// The integer power: squaring from the value itself for a positive
/// exponent, from its reciprocal for a negative one.
pub open spec fn spec_powi(a: Complex, e: int) -> Complex {
    if e > 0 {
        spec_powi_loop(spec_one(), a, e as nat)
    } else {
        spec_powi_loop(spec_one(), spec_recip(a), (-e) as nat)
    }
}

/// A rounded component outcome, kept only when it is finite: the checked
/// operations fail as soon as a component operation leaves the finite
/// range.
pub open spec fn spec_checked(b: u64) -> Option<u64> {
    if is_finite_bits(b) {
        Some(b)
    } else {
        None
    }
}

/// Checked sum: both component sums must stay finite.
pub open spec fn spec_checked_add(a: Complex, b: Complex) -> Option<Complex> {
    let re = add_bits(a.real, b.real);
    let im = add_bits(a.imaginary, b.imaginary);
    if is_finite_bits(re) && is_finite_bits(im) {
        Some(Complex { real: re, imaginary: im })
    } else {
        None
    }
}

/// Checked difference: both component differences must stay finite.
pub open spec fn spec_checked_sub(a: Complex, b: Complex) -> Option<Complex> {
    let re = sub_bits(a.real, b.real);
    let im = sub_bits(a.imaginary, b.imaginary);
    if is_finite_bits(re) && is_finite_bits(im) {
        Some(Complex { real: re, imaginary: im })
    } else {
        None
    }
}

/// Checked product: every intermediate product, the difference and the sum
/// must stay finite.
pub open spec fn spec_checked_mul(a: Complex, b: Complex) -> Option<Complex> {
    let rr = mul_bits(a.real, b.real);
    let ii = mul_bits(a.imaginary, b.imaginary);
    let re = sub_bits(rr, ii);
    let ri = mul_bits(a.real, b.imaginary);
    let ir = mul_bits(a.imaginary, b.real);
    let im = add_bits(ri, ir);
    if is_finite_bits(rr) && is_finite_bits(ii) && is_finite_bits(re) && is_finite_bits(ri)
        && is_finite_bits(ir) && is_finite_bits(im) {
        Some(Complex { real: re, imaginary: im })
    } else {
        None
    }
}

/// Checked quotient: every intermediate step must stay finite; a zero
/// denominator fails through the non-finite component quotient.
pub open spec fn spec_checked_div(a: Complex, b: Complex) -> Option<Complex> {
    let dr = mul_bits(b.real, b.real);
    let di = mul_bits(b.imaginary, b.imaginary);
    let denominator = add_bits(dr, di);
    let nr = mul_bits(a.real, b.real);
    let ni = mul_bits(a.imaginary, b.imaginary);
    let ns = add_bits(nr, ni);
    let re = div_bits(ns, denominator);
    let mr = mul_bits(a.imaginary, b.real);
    let mi = mul_bits(a.real, b.imaginary);
    let ms = sub_bits(mr, mi);
    let im = div_bits(ms, denominator);
    if is_finite_bits(dr) && is_finite_bits(di) && is_finite_bits(denominator)
        && is_finite_bits(nr) && is_finite_bits(ni) && is_finite_bits(ns) && is_finite_bits(re)
        && is_finite_bits(mr) && is_finite_bits(mi) && is_finite_bits(ms) && is_finite_bits(
        im,
    ) {
        Some(Complex { real: re, imaginary: im })
    } else {
        None
    }
}

/// The rounded component outcome if it is finite, `None` otherwise.
fn finite_or_none(b: u64) -> (r: Option<u64>)
    ensures
        r == spec_checked(b),
{
    if b & EXPONENT_MASK != EXPONENT_MASK {
        Some(b)
    } else {
        None
    }
}

impl Complex {
    /// Component-wise sum.
    pub fn add(&self, other: &Self) -> (r: Self)
        ensures
            r == spec_add(*self, *other),
    {
        Self {
            real: add64(self.real, other.real),
            imaginary: add64(self.imaginary, other.imaginary),
        }
    }

    /// Replaces the value with `self.add(other)`.
    pub fn add_assign(&mut self, other: &Self)
        ensures
            *final(self) == spec_add(*old(self), *other),
    {
        *self = Self::add(self, other);
    }

    /// Adds a real scalar: only the real component moves.
    pub fn addf(&self, other: u64) -> (r: Self)
        ensures
            r == spec_addf(*self, other),
    {
        Self { real: add64(self.real, other), imaginary: self.imaginary }
    }

    /// Replaces the value with `self.addf(other)`.
    pub fn addf_assign(&mut self, other: u64)
        ensures
            *final(self) == spec_addf(*old(self), other),
    {
        *self = Self::addf(self, other);
    }

    /// Component-wise difference.
    pub fn sub(&self, other: &Self) -> (r: Self)
        ensures
            r == spec_sub(*self, *other),
    {
        Self {
            real: sub64(self.real, other.real),
            imaginary: sub64(self.imaginary, other.imaginary),
        }
    }

    /// Replaces the value with `self.sub(other)`.
    pub fn sub_assign(&mut self, other: &Self)
        ensures
            *final(self) == spec_sub(*old(self), *other),
    {
        *self = Self::sub(self, other);
    }

    /// Subtracts a real scalar: only the real component moves.
    pub fn subf(&self, other: u64) -> (r: Self)
        ensures
            r == spec_subf(*self, other),
    {
        Self { real: sub64(self.real, other), imaginary: self.imaginary }
    }

    /// Replaces the value with `self.subf(other)`.
    pub fn subf_assign(&mut self, other: u64)
        ensures
            *final(self) == spec_subf(*old(self), other),
    {
        *self = Self::subf(self, other);
    }

    /// Field multiplication.
    pub fn mul(&self, other: &Self) -> (r: Self)
        ensures
            r == spec_mul(*self, *other),
    {
        Self {
            real: sub64(
                mul64(self.real, other.real),
                mul64(self.imaginary, other.imaginary),
            ),
            imaginary: add64(
                mul64(self.real, other.imaginary),
                mul64(self.imaginary, other.real),
            ),
        }
    }

    /// Replaces the value with `self.mul(other)`.
    pub fn mul_assign(&mut self, other: &Self)
        ensures
            *final(self) == spec_mul(*old(self), *other),
    {
        *self = Self::mul(self, other);
    }

    /// Multiplies both components by a real scalar.
    pub fn mulf(&self, other: u64) -> (r: Self)
        ensures
            r == spec_mulf(*self, other),
    {
        Self { real: mul64(self.real, other), imaginary: mul64(self.imaginary, other) }
    }

    /// Replaces the value with `self.mulf(other)`.
    pub fn mulf_assign(&mut self, other: u64)
        ensures
            *final(self) == spec_mulf(*old(self), other),
    {
        *self = Self::mulf(self, other);
    }

    /// Field division by the conjugate over the squared amplitude.
    pub fn div(&self, other: &Self) -> (r: Self)
        ensures
            r == spec_div(*self, *other),
    {
        let denominator: u64 = add64(
            mul64(other.real, other.real),
            mul64(other.imaginary, other.imaginary),
        );
        Self {
            real: div64(
                add64(mul64(self.real, other.real), mul64(self.imaginary, other.imaginary)),
                denominator,
            ),
            imaginary: div64(
                sub64(mul64(self.imaginary, other.real), mul64(self.real, other.imaginary)),
                denominator,
            ),
        }
    }

    /// Replaces the value with `self.div(other)`.
    pub fn div_assign(&mut self, other: &Self)
        ensures
            *final(self) == spec_div(*old(self), *other),
    {
        *self = Self::div(self, other);
    }

    /// Divides both components by a real scalar.
    pub fn divf(&self, other: u64) -> (r: Self)
        ensures
            r == spec_divf(*self, other),
    {
        Self { real: div64(self.real, other), imaginary: div64(self.imaginary, other) }
    }

    /// Replaces the value with `self.divf(other)`.
    pub fn divf_assign(&mut self, other: u64)
        ensures
            *final(self) == spec_divf(*old(self), other),
    {
        *self = Self::divf(self, other);
    }

    /// The reciprocal: the conjugate divided by the squared amplitude.
    pub fn recip(&self) -> (r: Self)
        ensures
            r == spec_recip(*self),
    {
        let divisor: u64 = add64(
            mul64(self.real, self.real),
            mul64(self.imaginary, self.imaginary),
        );
        Self {
            real: div64(self.real, divisor),
            imaginary: div64(self.imaginary ^ SIGN_MASK, divisor),
        }
    }

    /// The reciprocal, under its other customary name.
    pub fn inv(&self) -> (r: Self)
        ensures
            r == spec_recip(*self),
    {
        Self::recip(self)
    }

    /// The integer power, by exponentiation by squaring: O(log e)
    /// multiplications. A negative exponent squares from the reciprocal.
    pub fn powi(&self, exponent: isize) -> (r: Self)
        requires
            exponent != isize::MIN,
        ensures
            r == spec_powi(*self, exponent as int),
    {
        let mut n: Complex = Self::one();
        let mut base: Complex;
        let mut e: isize;
        if exponent > 0 {
            base = *self;
            e = exponent;
        } else {
            base = self.recip();
            e = -exponent;
        }
        while e > 0
            invariant
                0 <= e,
                spec_powi_loop(n, base, e as nat) == spec_powi(*self, exponent as int),
            decreases e,
        {
            if e % 2 == 1 {
                n = n.mul(&base);
            }
            base = base.mul(&base);
            e = e / 2;
        }
        n
    }

    /// Checked sum: `None` as soon as a component sum is not finite.
    pub fn checked_add(&self, other: &Self) -> (r: Option<Self>)
        ensures
            r == spec_checked_add(*self, *other),
    {
        let re: u64 = match finite_or_none(add64(self.real, other.real)) {
            Some(v) => v,
            None => {
                return None;
            },
        };
        let im: u64 = match finite_or_none(add64(self.imaginary, other.imaginary)) {
            Some(v) => v,
            None => {
                return None;
            },
        };
        Some(Self { real: re, imaginary: im })
    }

    /// Checked difference: `None` as soon as a component difference is
    /// not finite.
    pub fn checked_sub(&self, other: &Self) -> (r: Option<Self>)
        ensures
            r == spec_checked_sub(*self, *other),
    {
        let re: u64 = match finite_or_none(sub64(self.real, other.real)) {
            Some(v) => v,
            None => {
                return None;
            },
        };
        let im: u64 = match finite_or_none(sub64(self.imaginary, other.imaginary)) {
            Some(v) => v,
            None => {
                return None;
            },
        };
        Some(Self { real: re, imaginary: im })
    }

    /// Checked product: `None` as soon as any component operation of the
    /// multiplication formula is not finite.
    pub fn checked_mul(&self, other: &Self) -> (r: Option<Self>)
        ensures
            r == spec_checked_mul(*self, *other),
    {
        let rr: u64 = match finite_or_none(mul64(self.real, other.real)) {
            Some(v) => v,
            None => {
                return None;
            },
        };
        let ii: u64 = match finite_or_none(mul64(self.imaginary, other.imaginary)) {
            Some(v) => v,
            None => {
                return None;
            },
        };
        let re: u64 = match finite_or_none(sub64(rr, ii)) {
            Some(v) => v,
            None => {
                return None;
            },
        };
        let ri: u64 = match finite_or_none(mul64(self.real, other.imaginary)) {
            Some(v) => v,
            None => {
                return None;
            },
        };
        let ir: u64 = match finite_or_none(mul64(self.imaginary, other.real)) {
            Some(v) => v,
            None => {
                return None;
            },
        };
        let im: u64 = match finite_or_none(add64(ri, ir)) {
            Some(v) => v,
            None => {
                return None;
            },
        };
        Some(Self { real: re, imaginary: im })
    }

    /// Checked quotient: `None` as soon as any component operation of the
    /// division formula is not finite; a zero divisor fails that way.
    pub fn checked_div(&self, other: &Self) -> (r: Option<Self>)
        ensures
            r == spec_checked_div(*self, *other),
    {
        let dr: u64 = match finite_or_none(mul64(other.real, other.real)) {
            Some(v) => v,
            None => {
                return None;
            },
        };
        let di: u64 = match finite_or_none(mul64(other.imaginary, other.imaginary)) {
            Some(v) => v,
            None => {
                return None;
            },
        };
        let denominator: u64 = match finite_or_none(add64(dr, di)) {
            Some(v) => v,
            None => {
                return None;
            },
        };
        let nr: u64 = match finite_or_none(mul64(self.real, other.real)) {
            Some(v) => v,
            None => {
                return None;
            },
        };
        let ni: u64 = match finite_or_none(mul64(self.imaginary, other.imaginary)) {
            Some(v) => v,
            None => {
                return None;
            },
        };
        let ns: u64 = match finite_or_none(add64(nr, ni)) {
            Some(v) => v,
            None => {
                return None;
            },
        };
        let re: u64 = match finite_or_none(div64(ns, denominator)) {
            Some(v) => v,
            None => {
                return None;
            },
        };
        let mr: u64 = match finite_or_none(mul64(self.imaginary, other.real)) {
            Some(v) => v,
            None => {
                return None;
            },
        };
        let mi: u64 = match finite_or_none(mul64(self.real, other.imaginary)) {
            Some(v) => v,
            None => {
                return None;
            },
        };
        let ms: u64 = match finite_or_none(sub64(mr, mi)) {
            Some(v) => v,
            None => {
                return None;
            },
        };
        let im: u64 = match finite_or_none(div64(ms, denominator)) {
            Some(v) => v,
            None => {
                return None;
            },
        };
        Some(Self { real: re, imaginary: im })
    }

    /// Checked negation: a sign-bit flip is exact for every pattern, so
    /// it always succeeds.
    pub fn checked_neg(&self) -> (r: Option<Self>)
        ensures
            r == Some(spec_neg(*self)),
    {
        Some(Self::neg(self))
    }
}

/// The integer power with exponent zero is one, for every value: the
/// squaring loop never multiplies.
pub proof fn lemma_powi_zero(a: Complex)
    ensures
        spec_powi(a, 0) == spec_one(),
{
}

/// The integer powers with exponent one and minus one perform exactly one
/// multiplication: of the identity by the value, or by its reciprocal.
pub proof fn lemma_powi_unit(a: Complex)
    ensures
        spec_powi(a, 1) == spec_mul(spec_one(), a),
        spec_powi(a, -1) == spec_mul(spec_one(), spec_recip(a)),
{
    reveal_with_fuel(spec_powi_loop, 3);
}

} // verus!
