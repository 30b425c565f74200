//! The trusted boundary: every operation on component values that the
//! binary64 format does not fix at the bit level is reached through the
//! wrappers of this module, and nowhere else.
//!
//! Each wrapper names its result with an uninterpreted spec function over
//! bit patterns. The rounded arithmetic (`+`, `-`, `*`, `/`, `sqrt`) and the
//! roundings to integral values are required by IEEE-754 to be exact
//! functions of their operands, the same on every machine. For the
//! transcendental functions the library calls `libm`, a pure-Rust
//! implementation, so that those results too depend on the arguments alone
//! rather than on a platform's mathematics library. The integer
//! conversions go through `num-traits`, as the rest of the numeric surface
//! does.

use vstd::prelude::*;
use core::primitive::f64 as Binary64;

verus! {

/// The rounded binary64 sum of two components, by their bit patterns.
pub uninterp spec fn add_bits(a: u64, b: u64) -> u64;

/// Relies on `+` for the binary64 type: IEEE-754 requires the correctly
/// rounded sum, which depends on the two operand values alone.
#[verifier::external_body]
pub(crate) fn add64(a: u64, b: u64) -> (r: u64)
    ensures
        r == add_bits(a, b),
{
    (Binary64::from_bits(a) + Binary64::from_bits(b)).to_bits()
}

/// The rounded binary64 difference of two components.
pub uninterp spec fn sub_bits(a: u64, b: u64) -> u64;

/// Relies on `-` for the binary64 type: IEEE-754 requires the correctly
/// rounded difference, which depends on the two operand values alone.
#[verifier::external_body]
pub(crate) fn sub64(a: u64, b: u64) -> (r: u64)
    ensures
        r == sub_bits(a, b),
{
    (Binary64::from_bits(a) - Binary64::from_bits(b)).to_bits()
}

/// The rounded binary64 product of two components.
pub uninterp spec fn mul_bits(a: u64, b: u64) -> u64;

/// Relies on `*` for the binary64 type: IEEE-754 requires the correctly
/// rounded product, which depends on the two operand values alone.
#[verifier::external_body]
pub(crate) fn mul64(a: u64, b: u64) -> (r: u64)
    ensures
        r == mul_bits(a, b),
{
    (Binary64::from_bits(a) * Binary64::from_bits(b)).to_bits()
}

/// The rounded binary64 quotient of two components. Division by a zero
/// gives an infinity or NaN pattern, never an error.
pub uninterp spec fn div_bits(a: u64, b: u64) -> u64;

/// Relies on `/` for the binary64 type: IEEE-754 requires the correctly
/// rounded quotient, which depends on the two operand values alone.
#[verifier::external_body]
pub(crate) fn div64(a: u64, b: u64) -> (r: u64)
    ensures
        r == div_bits(a, b),
{
    (Binary64::from_bits(a) / Binary64::from_bits(b)).to_bits()
}

/// The correctly rounded binary64 square root of a component.
pub uninterp spec fn sqrt_bits(a: u64) -> u64;

/// Relies on the binary64 `sqrt` method: IEEE-754 requires the correctly
/// rounded root, which depends on the operand value alone.
#[verifier::external_body]
pub(crate) fn sqrt64(a: u64) -> (r: u64)
    ensures
        r == sqrt_bits(a),
{
    Binary64::from_bits(a).sqrt().to_bits()
}

/// The nearest integral binary64 value toward negative infinity.
pub uninterp spec fn floor_bits(a: u64) -> u64;

/// Relies on the binary64 `floor` method: the rounding is exactly defined
/// and depends on the operand value alone.
#[verifier::external_body]
pub(crate) fn floor64(a: u64) -> (r: u64)
    ensures
        r == floor_bits(a),
{
    Binary64::from_bits(a).floor().to_bits()
}

/// The nearest integral binary64 value toward positive infinity.
pub uninterp spec fn ceil_bits(a: u64) -> u64;

/// Relies on the binary64 `ceil` method: the rounding is exactly defined
/// and depends on the operand value alone.
#[verifier::external_body]
pub(crate) fn ceil64(a: u64) -> (r: u64)
    ensures
        r == ceil_bits(a),
{
    Binary64::from_bits(a).ceil().to_bits()
}

/// The integral part of a binary64 value: rounding toward zero.
pub uninterp spec fn trunc_bits(a: u64) -> u64;

/// Relies on the binary64 `trunc` method: the rounding is exactly defined
/// and depends on the operand value alone.
#[verifier::external_body]
pub(crate) fn trunc64(a: u64) -> (r: u64)
    ensures
        r == trunc_bits(a),
{
    Binary64::from_bits(a).trunc().to_bits()
}

/// The nearest integral binary64 value, ties away from zero.
pub uninterp spec fn round_bits(a: u64) -> u64;

/// Relies on the binary64 `round` method: the rounding is exactly defined
/// and depends on the operand value alone.
#[verifier::external_body]
pub(crate) fn round64(a: u64) -> (r: u64)
    ensures
        r == round_bits(a),
{
    Binary64::from_bits(a).round().to_bits()
}

/// The sine of a component, as `libm` computes it.
pub uninterp spec fn sin_bits(a: u64) -> u64;

/// Relies on `libm::sin`: a pure function of the argument's value.
#[verifier::external_body]
pub(crate) fn sin64(a: u64) -> (r: u64)
    ensures
        r == sin_bits(a),
{
    libm::sin(Binary64::from_bits(a)).to_bits()
}

/// The cosine of a component, as `libm` computes it.
pub uninterp spec fn cos_bits(a: u64) -> u64;

/// Relies on `libm::cos`: a pure function of the argument's value.
#[verifier::external_body]
pub(crate) fn cos64(a: u64) -> (r: u64)
    ensures
        r == cos_bits(a),
{
    libm::cos(Binary64::from_bits(a)).to_bits()
}

/// The exponential of a component, as `libm` computes it.
pub uninterp spec fn exp_bits(a: u64) -> u64;

/// Relies on `libm::exp`: a pure function of the argument's value.
#[verifier::external_body]
pub(crate) fn exp64(a: u64) -> (r: u64)
    ensures
        r == exp_bits(a),
{
    libm::exp(Binary64::from_bits(a)).to_bits()
}

/// The natural logarithm of a component, as `libm` computes it.
pub uninterp spec fn ln_bits(a: u64) -> u64;

/// Relies on `libm::log`: a pure function of the argument's value.
#[verifier::external_body]
pub(crate) fn ln64(a: u64) -> (r: u64)
    ensures
        r == ln_bits(a),
{
    libm::log(Binary64::from_bits(a)).to_bits()
}

/// The four-quadrant arc tangent of `y / x`, in `(-pi, pi]`, as `libm`
/// computes it.
pub uninterp spec fn atan2_bits(y: u64, x: u64) -> u64;

/// Relies on `libm::atan2`: a pure function of the two argument values.
#[verifier::external_body]
pub(crate) fn atan2_64(y: u64, x: u64) -> (r: u64)
    ensures
        r == atan2_bits(y, x),
{
    libm::atan2(Binary64::from_bits(y), Binary64::from_bits(x)).to_bits()
}

/// The real power `a` raised to `b`, as `libm` computes it.
pub uninterp spec fn pow_bits(a: u64, b: u64) -> u64;

/// Relies on `libm::pow`: a pure function of the two argument values.
#[verifier::external_body]
pub(crate) fn pow64(a: u64, b: u64) -> (r: u64)
    ensures
        r == pow_bits(a, b),
{
    libm::pow(Binary64::from_bits(a), Binary64::from_bits(b)).to_bits()
}

/// The binary64 value nearest to a signed 64-bit integer.
pub uninterp spec fn real_bits_of_i64(n: i64) -> u64;

/// Relies on `num_traits::FromPrimitive` for the binary64 type: its source
/// rounds the integer with a plain cast and always returns a value.
#[verifier::external_body]
pub(crate) fn real_from_i64(n: i64) -> (r: u64)
    ensures
        r == real_bits_of_i64(n),
{
    let x: Option<Binary64> = num_traits::FromPrimitive::from_i64(n);
    x.unwrap().to_bits()
}

/// The binary64 value nearest to an unsigned 64-bit integer.
pub uninterp spec fn real_bits_of_u64(n: u64) -> u64;

/// Relies on `num_traits::FromPrimitive` for the binary64 type: its source
/// rounds the integer with a plain cast and always returns a value.
#[verifier::external_body]
pub(crate) fn real_from_u64(n: u64) -> (r: u64)
    ensures
        r == real_bits_of_u64(n),
{
    let x: Option<Binary64> = num_traits::FromPrimitive::from_u64(n);
    x.unwrap().to_bits()
}

/// The binary64 value nearest to a signed 128-bit integer.
pub uninterp spec fn real_bits_of_i128(n: i128) -> u64;

/// Relies on `num_traits::FromPrimitive` for the binary64 type: its source
/// rounds the integer with a plain cast and always returns a value.
#[verifier::external_body]
pub(crate) fn real_from_i128(n: i128) -> (r: u64)
    ensures
        r == real_bits_of_i128(n),
{
    let x: Option<Binary64> = num_traits::FromPrimitive::from_i128(n);
    x.unwrap().to_bits()
}

/// The binary64 value nearest to an unsigned 128-bit integer.
pub uninterp spec fn real_bits_of_u128(n: u128) -> u64;

/// Relies on `num_traits::FromPrimitive` for the binary64 type: its source
/// rounds the integer with a plain cast and always returns a value.
#[verifier::external_body]
pub(crate) fn real_from_u128(n: u128) -> (r: u64)
    ensures
        r == real_bits_of_u128(n),
{
    let x: Option<Binary64> = num_traits::FromPrimitive::from_u128(n);
    x.unwrap().to_bits()
}

/// The component truncated to a signed 64-bit integer, if representable.
pub uninterp spec fn i64_of_real_bits(b: u64) -> Option<i64>;

/// Relies on `num_traits::ToPrimitive` for the binary64 type: truncation
/// toward zero, `None` outside the integer's range; a pure function of the
/// argument's value.
#[verifier::external_body]
pub(crate) fn real_to_i64(b: u64) -> (r: Option<i64>)
    ensures
        r == i64_of_real_bits(b),
{
    num_traits::ToPrimitive::to_i64(&Binary64::from_bits(b))
}

/// The component truncated to an unsigned 64-bit integer, if representable.
pub uninterp spec fn u64_of_real_bits(b: u64) -> Option<u64>;

/// Relies on `num_traits::ToPrimitive` for the binary64 type: truncation
/// toward zero, `None` outside the integer's range; a pure function of the
/// argument's value.
#[verifier::external_body]
pub(crate) fn real_to_u64(b: u64) -> (r: Option<u64>)
    ensures
        r == u64_of_real_bits(b),
{
    num_traits::ToPrimitive::to_u64(&Binary64::from_bits(b))
}

/// The component truncated to a signed 128-bit integer, if representable.
pub uninterp spec fn i128_of_real_bits(b: u64) -> Option<i128>;

/// Relies on `num_traits::ToPrimitive` for the binary64 type: truncation
/// toward zero, `None` outside the integer's range; a pure function of the
/// argument's value.
#[verifier::external_body]
pub(crate) fn real_to_i128(b: u64) -> (r: Option<i128>)
    ensures
        r == i128_of_real_bits(b),
{
    num_traits::ToPrimitive::to_i128(&Binary64::from_bits(b))
}

/// The component truncated to an unsigned 128-bit integer, if representable.
pub uninterp spec fn u128_of_real_bits(b: u64) -> Option<u128>;

/// Relies on `num_traits::ToPrimitive` for the binary64 type: truncation
/// toward zero, `None` outside the integer's range; a pure function of the
/// argument's value.
#[verifier::external_body]
pub(crate) fn real_to_u128(b: u64) -> (r: Option<u128>)
    ensures
        r == u128_of_real_bits(b),
{
    num_traits::ToPrimitive::to_u128(&Binary64::from_bits(b))
}

} // verus!
