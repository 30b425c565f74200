//! The library under its real component operations: algebraic behaviour,
//! concrete values, classification, bitwise reinterpretation and the byte
//! codec, all through the public surface.

use complex64::bits;
use complex64::codec::ComplexError;
use complex64::consts;
use complex64::Complex;
use std::f64::consts as fc;

/// A complex value from two component values.
fn c(re: f64, im: f64) -> Complex {
    Complex::new(re.to_bits(), im.to_bits())
}

fn re_of(a: &Complex) -> f64 {
    f64::from_bits(a.real)
}

fn im_of(a: &Complex) -> f64 {
    f64::from_bits(a.imaginary)
}

fn approx(x: f64, y: f64, tolerance: f64) -> bool {
    (x - y).abs() <= tolerance
}

#[test]
fn new_keeps_components() {
    let a = c(3.5, -2.0);
    assert_eq!(re_of(&a), 3.5);
    assert_eq!(im_of(&a), -2.0);
}

#[test]
fn add_concrete() {
    assert_eq!(c(1.0, 2.0).add(&c(3.0, -1.0)), c(4.0, 1.0));
}

#[test]
fn add_commutes() {
    let pairs = [
        (c(1.5, -2.25), c(3.0, 7.0)),
        (c(1e300, 1e-300), c(-2.5e299, 4.0)),
        (c(0.1, 0.2), c(0.3, 0.7)),
    ];
    for (a, b) in pairs {
        assert_eq!(a.add(&b), b.add(&a));
    }
}

#[test]
fn mul_commutes() {
    let pairs = [
        (c(1.5, -2.25), c(3.0, 7.0)),
        (c(0.1, 0.2), c(0.3, 0.7)),
        (c(-4.0, 1e-8), c(2.0, 3.5)),
    ];
    for (a, b) in pairs {
        assert_eq!(a.mul(&b), b.mul(&a));
    }
}

#[test]
fn add_associates_on_exact_values() {
    // Small integers: the sums are exact, so association cannot round.
    let (a, b, x) = (c(1.0, 2.0), c(3.0, -4.0), c(5.0, 6.0));
    assert_eq!(a.add(&b).add(&x), a.add(&b.add(&x)));
}

#[test]
fn mul_by_inverse_is_nearly_one() {
    for a in [c(3.0, 4.0), c(-1.5, 0.25), c(0.0, 2.0)] {
        let p = a.mul(&a.inv());
        assert!(approx(re_of(&p), 1.0, 1e-12));
        assert!(approx(im_of(&p), 0.0, 1e-12));
    }
}

#[test]
fn conj_involution() {
    for a in [c(3.0, 4.0), c(-0.0, 0.0), c(f64::NAN, f64::INFINITY)] {
        assert_eq!(a.conj().conj(), a);
    }
}

#[test]
fn amplitude_of_conjugate() {
    for a in [c(3.0, 4.0), c(-1.5, 2.5), c(0.0, -7.0)] {
        assert_eq!(a.amplitude(), a.conj().amplitude());
    }
}

#[test]
fn exp_ln_round_trip() {
    for a in [c(3.0, 4.0), c(-2.0, 5.0), c(0.5, -0.5)] {
        let r = a.ln().exp();
        assert!(approx(re_of(&r), re_of(&a), 1e-12));
        assert!(approx(im_of(&r), im_of(&a), 1e-12));
    }
}

#[test]
fn powi_zero_is_one() {
    for a in [c(3.0, 4.0), c(0.0, 0.0), c(f64::NAN, 1.0)] {
        assert_eq!(a.powi(0), Complex::one());
    }
}

#[test]
fn powi_one_is_identity() {
    for a in [c(3.0, 4.0), c(-1.5, 2.5)] {
        assert_eq!(a.powi(1), a);
    }
}

#[test]
fn powi_minus_one_is_inverse() {
    let a = c(3.0, 4.0);
    assert_eq!(a.powi(-1), a.inv());
}

#[test]
fn powi_fourth_power() {
    // (1 + i)^4 == -4.
    assert_eq!(c(1.0, 1.0).powi(4), c(-4.0, 0.0));
}

#[test]
fn i_squared_is_minus_one() {
    assert_eq!(Complex::i().mul(&Complex::i()), c(-1.0, 0.0));
}

#[test]
fn amplitude_three_four_five() {
    assert_eq!(f64::from_bits(c(3.0, 4.0).amplitude()), 5.0);
}

#[test]
fn pow_two_to_the_two() {
    let r = c(2.0, 0.0).pow(&c(2.0, 0.0));
    assert!(approx(re_of(&r), 4.0, 1e-12));
    assert!(approx(im_of(&r), 0.0, 1e-12));
}

#[test]
fn powf_cube() {
    let r = c(2.0, 0.0).powf(3.0f64.to_bits());
    assert!(approx(re_of(&r), 8.0, 1e-12));
    assert!(approx(im_of(&r), 0.0, 1e-12));
}

#[test]
fn log_base_two() {
    let r = c(8.0, 0.0).log(2.0f64.to_bits());
    assert!(approx(re_of(&r), 3.0, 1e-12));
    assert!(approx(im_of(&r), 0.0, 1e-12));
}

#[test]
fn argument_of_the_unit() {
    assert_eq!(c(0.0, 1.0).argument(), consts::FRAC_PI_2_BITS);
    assert_eq!(c(1.0, 0.0).argument(), 0.0f64.to_bits());
}

#[test]
fn from_argument_amplitude_quarter_turn() {
    let r = Complex::from_argument_amplitude(
        std::f64::consts::FRAC_PI_2.to_bits(),
        2.0f64.to_bits(),
    );
    assert!(approx(re_of(&r), 0.0, 1e-15));
    assert!(approx(im_of(&r), 2.0, 1e-15));
}

#[test]
fn sub_and_scalar_variants() {
    assert_eq!(c(4.0, 1.0).sub(&c(3.0, -1.0)), c(1.0, 2.0));
    // The scalar touches the real axis alone.
    assert_eq!(c(1.0, 2.0).addf(10.0f64.to_bits()), c(11.0, 2.0));
    assert_eq!(c(1.0, 2.0).subf(10.0f64.to_bits()), c(-9.0, 2.0));
    // Multiplication and division scale both components.
    assert_eq!(c(1.0, 2.0).mulf(10.0f64.to_bits()), c(10.0, 20.0));
    assert_eq!(c(1.0, 2.0).divf(2.0f64.to_bits()), c(0.5, 1.0));
}

#[test]
fn assign_variants_match() {
    let b = c(3.0, -1.0);
    let mut x = c(1.0, 2.0);
    x.add_assign(&b);
    assert_eq!(x, c(1.0, 2.0).add(&b));
    let mut x = c(1.0, 2.0);
    x.sub_assign(&b);
    assert_eq!(x, c(1.0, 2.0).sub(&b));
    let mut x = c(1.0, 2.0);
    x.mul_assign(&b);
    assert_eq!(x, c(1.0, 2.0).mul(&b));
    let mut x = c(1.0, 2.0);
    x.div_assign(&b);
    assert_eq!(x, c(1.0, 2.0).div(&b));
    let mut x = c(1.0, 2.0);
    x.addf_assign(4.0f64.to_bits());
    assert_eq!(x, c(5.0, 2.0));
    let mut x = c(1.0, 2.0);
    x.subf_assign(4.0f64.to_bits());
    assert_eq!(x, c(-3.0, 2.0));
    let mut x = c(1.0, 2.0);
    x.mulf_assign(4.0f64.to_bits());
    assert_eq!(x, c(4.0, 8.0));
    let mut x = c(1.0, 2.0);
    x.divf_assign(4.0f64.to_bits());
    assert_eq!(x, c(0.25, 0.5));
}

#[test]
fn div_concrete() {
    assert_eq!(c(4.0, 1.0).div(&c(2.0, 0.0)), c(2.0, 0.5));
}

#[test]
fn div_by_zero_gives_nan_components() {
    let r = c(1.0, 1.0).div(&c(0.0, 0.0));
    assert!(re_of(&r).is_nan());
    assert!(im_of(&r).is_nan());
}

#[test]
fn recip_concrete() {
    assert_eq!(c(3.0, 4.0).recip(), c(3.0 / 25.0, -4.0 / 25.0));
    assert_eq!(c(3.0, 4.0).inv(), c(3.0, 4.0).recip());
}

#[test]
fn neg_and_abs_and_signum() {
    assert_eq!(c(3.0, -4.0).neg(), c(-3.0, 4.0));
    assert_eq!(c(-3.0, -0.0).abs(), c(3.0, 0.0));
    assert_eq!(c(-3.0, 0.0).signum(), c(-1.0, 1.0));
    // The sign bit decides, so negative zero counts as negative.
    assert_eq!(c(-0.0, 5.0).signum(), c(-1.0, 1.0));
    let s = c(f64::NAN, -2.0).signum();
    assert_eq!(s.real, bits::NAN_BITS);
    assert_eq!(im_of(&s), -1.0);
}

#[test]
fn copysign_concrete() {
    assert_eq!(c(3.0, -4.0).copysign(&c(-1.0, 1.0)), c(-3.0, 4.0));
}

#[test]
fn rounding_is_per_component() {
    let a = c(2.5, -2.5);
    assert_eq!(a.naive_round(), c(3.0, -3.0));
    assert_eq!(a.naive_floor(), c(2.0, -3.0));
    assert_eq!(a.naive_ceil(), c(3.0, -2.0));
    assert_eq!(c(2.7, -2.7).naive_trunc(), c(2.0, -2.0));
}

#[test]
fn predicates_on_distinguished_values() {
    assert!(c(0.0, -0.0).is_zero());
    assert!(!c(1.0, 0.0).is_zero());
    assert!(c(1.0, -0.0).is_one());
    assert!(!c(1.0, 1.0).is_one());
    assert!(c(0.0, 1.0).is_i());
    assert!(c(3.0, 0.0).is_pure_real());
    assert!(!c(3.0, 1.0).is_pure_real());
    assert!(c(0.0, 3.0).is_pure_imaginary());
}

#[test]
fn classification_per_component() {
    let a = c(1.0, f64::INFINITY);
    assert_eq!(a.is_finite(), (true, false));
    let b = c(f64::NAN, 2.0);
    assert_eq!(b.is_finite(), (false, true));
    assert_eq!(b.is_normal(), (false, true));
    let s = c(1e-310, 1.0);
    assert_eq!(s.is_subnormal(), (true, false));
    assert_eq!(s.is_normal(), (false, true));
    assert_eq!(c(0.0, 1.0).is_normal(), (false, true));
}

#[test]
fn sign_queries_see_the_sign_bit() {
    let a = c(-0.0, 3.0);
    assert_eq!(a.is_sign_negative(), (true, false));
    assert_eq!(a.is_sign_positive(), (false, true));
}

#[test]
fn setters_overwrite() {
    let mut a = c(3.0, 4.0);
    a.set_zero();
    assert_eq!(a, Complex::zero());
    a.set_one();
    assert_eq!(a, Complex::one());
    a.set_i();
    assert_eq!(a, Complex::i());
}

#[test]
fn constructors_and_default() {
    assert_eq!(Complex::from_real(2.5f64.to_bits()), c(2.5, 0.0));
    assert_eq!(Complex::default(), Complex::zero());
    assert_eq!(Complex::one(), c(1.0, 0.0));
    assert_eq!(Complex::i(), c(0.0, 1.0));
    assert_eq!(Complex::min_value(), c(f64::MIN, f64::MIN));
    assert_eq!(Complex::max_value(), c(f64::MAX, f64::MAX));
    let a = c(3.0, 4.0);
    assert_eq!(a.extract_real(), c(3.0, 0.0));
    assert_eq!(a.extract_imaginary(), c(0.0, 4.0));
    assert_eq!(Complex::from((3.0f64.to_bits(), 4.0f64.to_bits())), a);
    assert_eq!(Complex::from(3.0f64.to_bits()), c(3.0, 0.0));
}

#[test]
fn indexing_by_boolean() {
    let mut a = c(3.0, 4.0);
    assert_eq!(*a.index(false), 3.0f64.to_bits());
    assert_eq!(*a.index(true), 4.0f64.to_bits());
    *a.index_mut(true) = 7.0f64.to_bits();
    assert_eq!(a, c(3.0, 7.0));
    *a.index_mut(false) = 1.0f64.to_bits();
    assert_eq!(a, c(1.0, 7.0));
}

#[test]
fn bitand_with_itself_is_itself() {
    for a in [c(3.0, -4.0), c(f64::NAN, 0.5)] {
        assert_eq!(a.bitand(&a), a);
    }
}

#[test]
fn bitxor_with_itself_clears_every_bit() {
    for a in [c(3.0, -4.0), c(f64::INFINITY, 1e-300)] {
        let r = a.bitxor(&a);
        assert_eq!(r.real, 0);
        assert_eq!(r.imaginary, 0);
        assert_eq!(r, Complex::zero());
    }
}

#[test]
fn bit_operations_combine_patterns() {
    let a = Complex::new(0xF0F0, 0x0123_4567_89AB_CDEF);
    let b = Complex::new(0x0FF0, 0xFFFF_0000_FFFF_0000);
    assert_eq!(a.bitand(&b), Complex::new(0x00F0, 0x0123_0000_89AB_0000));
    assert_eq!(a.bitor(&b), Complex::new(0xFFF0, 0xFFFF_4567_FFFF_CDEF));
    assert_eq!(a.bitxor(&b), Complex::new(0xFF00, 0xFEDC_4567_7654_CDEF));
}

#[test]
fn bit_assign_variants_match() {
    let a = Complex::new(0xF0F0, 0xAAAA);
    let b = Complex::new(0x0FF0, 0x5555);
    let mut x = a;
    x.bitand_assign(&b);
    assert_eq!(x, a.bitand(&b));
    let mut x = a;
    x.bitor_assign(&b);
    assert_eq!(x, a.bitor(&b));
    let mut x = a;
    x.bitxor_assign(&b);
    assert_eq!(x, a.bitxor(&b));
}

#[test]
fn bytes_round_trip() {
    for a in [c(3.0, -4.5), c(f64::NAN, -0.0), Complex::zero()] {
        let v = a.as_bytes();
        assert_eq!(v.len(), 16);
        assert_eq!(Complex::from_bytes(v.as_slice()), Ok(a));
        assert_eq!(a.to_bytes(), v);
    }
}

#[test]
fn bytes_are_little_endian_real_first() {
    let v = c(1.0, -2.0).as_bytes();
    let mut expected = 1.0f64.to_le_bytes().to_vec();
    expected.extend_from_slice(&(-2.0f64).to_le_bytes());
    assert_eq!(v, expected);
}

#[test]
fn from_bytes_refuses_wrong_sizes() {
    assert_eq!(Complex::from_bytes(&[0u8; 15]), Err(ComplexError::SizeMismatch));
    assert_eq!(Complex::from_bytes(&[0u8; 17]), Err(ComplexError::SizeMismatch));
    assert_eq!(Complex::from_bytes(&[]), Err(ComplexError::SizeMismatch));
}

#[test]
fn checked_add_signals_overflow() {
    assert_eq!(
        c(1.0, 2.0).checked_add(&c(3.0, -1.0)),
        Some(c(4.0, 1.0))
    );
    assert_eq!(c(f64::MAX, 0.0).checked_add(&c(f64::MAX, 0.0)), None);
    assert_eq!(c(0.0, f64::NAN).checked_add(&c(0.0, 0.0)), None);
}

#[test]
fn checked_sub_signals_overflow() {
    assert_eq!(c(4.0, 1.0).checked_sub(&c(3.0, -1.0)), Some(c(1.0, 2.0)));
    assert_eq!(c(f64::MAX, 0.0).checked_sub(&c(f64::MIN, 0.0)), None);
}

#[test]
fn checked_mul_signals_overflow() {
    assert_eq!(c(1.0, 2.0).checked_mul(&c(3.0, -1.0)), Some(c(5.0, 5.0)));
    assert_eq!(c(f64::MAX, 0.0).checked_mul(&c(2.0, 0.0)), None);
}

#[test]
fn checked_div_signals_failure() {
    assert_eq!(c(4.0, 0.0).checked_div(&c(2.0, 0.0)), Some(c(2.0, 0.0)));
    assert_eq!(c(1.0, 1.0).checked_div(&c(0.0, 0.0)), None);
}

#[test]
fn checked_neg_always_succeeds() {
    assert_eq!(c(3.0, -4.0).checked_neg(), Some(c(-3.0, 4.0)));
    let r = c(f64::NAN, 0.0).checked_neg().unwrap();
    assert!(re_of(&r).is_nan());
}

#[test]
fn casts_in_read_integers_exactly() {
    assert_eq!(Complex::from_i64(3), Some(c(3.0, 0.0)));
    assert_eq!(Complex::from_i64(-3), Some(c(-3.0, 0.0)));
    assert_eq!(Complex::from_u64(7), Some(c(7.0, 0.0)));
    assert_eq!(Complex::from_i8(-5), Some(c(-5.0, 0.0)));
    assert_eq!(Complex::from_i16(-500), Some(c(-500.0, 0.0)));
    assert_eq!(Complex::from_i32(70_000), Some(c(70_000.0, 0.0)));
    assert_eq!(Complex::from_isize(-9), Some(c(-9.0, 0.0)));
    assert_eq!(Complex::from_u8(200), Some(c(200.0, 0.0)));
    assert_eq!(Complex::from_u16(60_000), Some(c(60_000.0, 0.0)));
    assert_eq!(Complex::from_u32(4_000_000_000), Some(c(4_000_000_000.0, 0.0)));
    assert_eq!(Complex::from_usize(11), Some(c(11.0, 0.0)));
    assert_eq!(Complex::from_i128(1 << 100), Some(c((1u128 << 100) as f64, 0.0)));
    assert_eq!(Complex::from_u128(1 << 101), Some(c((1u128 << 101) as f64, 0.0)));
    // A value beyond the exact range rounds to the nearest binary64.
    assert_eq!(
        Complex::from_u64(u64::MAX),
        Some(c(u64::MAX as f64, 0.0))
    );
}

#[test]
fn casts_out_truncate_and_check_the_range() {
    assert_eq!(c(3.7, 9.9).to_i64(), Some(3));
    assert_eq!(c(-3.7, 0.0).to_i64(), Some(-3));
    assert_eq!(c(1e300, 0.0).to_i64(), None);
    assert_eq!(c(f64::NAN, 0.0).to_i64(), None);
    assert_eq!(c(250.0, 0.0).to_u8(), Some(250));
    assert_eq!(c(300.0, 0.0).to_u8(), None);
    assert_eq!(c(-1.0, 0.0).to_u64(), None);
    assert_eq!(c(-0.5, 0.0).to_u64(), Some(0));
    assert_eq!(c(-129.0, 0.0).to_i8(), None);
    assert_eq!(c(-128.0, 0.0).to_i8(), Some(-128));
    assert_eq!(c(40_000.0, 0.0).to_i16(), None);
    assert_eq!(c(30_000.0, 0.0).to_i16(), Some(30_000));
    assert_eq!(c(3e9, 0.0).to_i32(), None);
    assert_eq!(c(2e9, 0.0).to_i32(), Some(2_000_000_000));
    assert_eq!(c(65_536.0, 0.0).to_u16(), None);
    assert_eq!(c(65_535.0, 0.0).to_u16(), Some(65_535));
    assert_eq!(c(5e9, 0.0).to_u32(), None);
    assert_eq!(c(12.9, 0.0).to_usize(), Some(12));
    assert_eq!(c(-7.2, 0.0).to_isize(), Some(-7));
    assert_eq!(c(1e30, 0.0).to_i128(), Some(1e30 as i128));
    assert_eq!(c(1e30, 0.0).to_u128(), Some(1e30 as u128));
    // The imaginary component is discarded on purpose.
    assert_eq!(c(2.0, 99.0).to_i64(), Some(2));
}

#[test]
fn constants_match_the_component_type() {
    assert_eq!(Complex::E(), c(fc::E, 0.0));
    assert_eq!(Complex::FRAC_1_PI(), c(fc::FRAC_1_PI, 0.0));
    assert_eq!(Complex::FRAC_1_SQRT_2(), c(fc::FRAC_1_SQRT_2, 0.0));
    assert_eq!(Complex::FRAC_2_PI(), c(fc::FRAC_2_PI, 0.0));
    assert_eq!(Complex::FRAC_2_SQRT_PI(), c(fc::FRAC_2_SQRT_PI, 0.0));
    assert_eq!(Complex::FRAC_PI_2(), c(fc::FRAC_PI_2, 0.0));
    assert_eq!(Complex::FRAC_PI_3(), c(fc::FRAC_PI_3, 0.0));
    assert_eq!(Complex::FRAC_PI_4(), c(fc::FRAC_PI_4, 0.0));
    assert_eq!(Complex::FRAC_PI_6(), c(fc::FRAC_PI_6, 0.0));
    assert_eq!(Complex::FRAC_PI_8(), c(fc::FRAC_PI_8, 0.0));
    assert_eq!(Complex::LN_10(), c(fc::LN_10, 0.0));
    assert_eq!(Complex::LN_2(), c(fc::LN_2, 0.0));
    assert_eq!(Complex::LOG10_E(), c(fc::LOG10_E, 0.0));
    assert_eq!(Complex::LOG2_E(), c(fc::LOG2_E, 0.0));
    assert_eq!(Complex::PI(), c(fc::PI, 0.0));
    assert_eq!(Complex::SQRT_2(), c(fc::SQRT_2, 0.0));
    assert_eq!(Complex::TAU(), c(fc::TAU, 0.0));
    assert_eq!(Complex::LOG10_2(), c(fc::LOG10_2, 0.0));
    assert_eq!(Complex::LOG2_10(), c(fc::LOG2_10, 0.0));
}

#[test]
fn exponential_of_an_imaginary_quarter_turn() {
    // exp(i pi) is minus one, up to the tolerance of the turn.
    let r = c(0.0, std::f64::consts::PI).exp();
    assert!(approx(re_of(&r), -1.0, 1e-12));
    assert!(approx(im_of(&r), 0.0, 1e-12));
}

#[test]
fn ln_of_e_is_one() {
    let r = c(std::f64::consts::E, 0.0).ln();
    assert!(approx(re_of(&r), 1.0, 1e-12));
    assert_eq!(im_of(&r), 0.0);
}
