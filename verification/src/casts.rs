//! Conversions between complex values and primitive integers. A cast in
//! reads the integer into the real component, rounded to the nearest
//! binary64 value, and always succeeds. A cast out reads the real
//! component alone — a deliberate, lossy narrowing that discards the
//! imaginary part — truncates it toward zero and fails on anything
//! outside the target range.

use vstd::prelude::*;

use crate::bits::POS_ZERO;
use crate::complex::Complex;
use crate::scalar::{
    i128_of_real_bits, i64_of_real_bits, real_bits_of_i128, real_bits_of_i64, real_bits_of_u128,
    real_bits_of_u64, u128_of_real_bits, u64_of_real_bits,
};
use crate::scalar::{
    real_from_i128, real_from_i64, real_from_u128, real_from_u64, real_to_i128, real_to_i64,
    real_to_u128, real_to_u64,
};

verus! {

/// The real component as a signed 8-bit integer, through the 64-bit read.
pub open spec fn spec_to_i8(b: u64) -> Option<i8> {
    match i64_of_real_bits(b) {
        Some(v) => if i8::MIN <= v && v <= i8::MAX {
            Some(v as i8)
        } else {
            None
        },
        None => None,
    }
}

/// The real component as a signed 16-bit integer.
pub open spec fn spec_to_i16(b: u64) -> Option<i16> {
    match i64_of_real_bits(b) {
        Some(v) => if i16::MIN <= v && v <= i16::MAX {
            Some(v as i16)
        } else {
            None
        },
        None => None,
    }
}

/// The real component as a signed 32-bit integer.
pub open spec fn spec_to_i32(b: u64) -> Option<i32> {
    match i64_of_real_bits(b) {
        Some(v) => if i32::MIN <= v && v <= i32::MAX {
            Some(v as i32)
        } else {
            None
        },
        None => None,
    }
}

/// The real component as a pointer-sized signed integer.
pub open spec fn spec_to_isize(b: u64) -> Option<isize> {
    match i64_of_real_bits(b) {
        Some(v) => if isize::MIN <= v && v <= isize::MAX {
            Some(v as isize)
        } else {
            None
        },
        None => None,
    }
}

/// The real component as an unsigned 8-bit integer.
pub open spec fn spec_to_u8(b: u64) -> Option<u8> {
    match u64_of_real_bits(b) {
        Some(v) => if v <= u8::MAX {
            Some(v as u8)
        } else {
            None
        },
        None => None,
    }
}

/// The real component as an unsigned 16-bit integer.
pub open spec fn spec_to_u16(b: u64) -> Option<u16> {
    match u64_of_real_bits(b) {
        Some(v) => if v <= u16::MAX {
            Some(v as u16)
        } else {
            None
        },
        None => None,
    }
}

/// The real component as an unsigned 32-bit integer.
pub open spec fn spec_to_u32(b: u64) -> Option<u32> {
    match u64_of_real_bits(b) {
        Some(v) => if v <= u32::MAX {
            Some(v as u32)
        } else {
            None
        },
        None => None,
    }
}

/// The real component as a pointer-sized unsigned integer.
pub open spec fn spec_to_usize(b: u64) -> Option<usize> {
    match u64_of_real_bits(b) {
        Some(v) => if v <= usize::MAX {
            Some(v as usize)
        } else {
            None
        },
        None => None,
    }
}

impl Complex {
    /// The nearest pure-real value to a signed 64-bit integer; the
    /// conversion always succeeds.
    pub fn from_i64(n: i64) -> (r: Option<Self>)
        ensures
            r == Some(Complex { real: real_bits_of_i64(n), imaginary: POS_ZERO }),
    {
        Some(Self { real: real_from_i64(n), imaginary: POS_ZERO })
    }

    /// The nearest pure-real value to an unsigned 64-bit integer.
    pub fn from_u64(n: u64) -> (r: Option<Self>)
        ensures
            r == Some(Complex { real: real_bits_of_u64(n), imaginary: POS_ZERO }),
    {
        Some(Self { real: real_from_u64(n), imaginary: POS_ZERO })
    }

    /// The nearest pure-real value to a pointer-sized signed integer.
    pub fn from_isize(n: isize) -> (r: Option<Self>)
        ensures
            r == Some(Complex { real: real_bits_of_i64(n as i64), imaginary: POS_ZERO }),
    {
        Self::from_i64(n as i64)
    }

    /// The nearest pure-real value to a signed 8-bit integer.
    pub fn from_i8(n: i8) -> (r: Option<Self>)
        ensures
            r == Some(Complex { real: real_bits_of_i64(n as i64), imaginary: POS_ZERO }),
    {
        Self::from_i64(n as i64)
    }

    /// The nearest pure-real value to a signed 16-bit integer.
    pub fn from_i16(n: i16) -> (r: Option<Self>)
        ensures
            r == Some(Complex { real: real_bits_of_i64(n as i64), imaginary: POS_ZERO }),
    {
        Self::from_i64(n as i64)
    }

    /// The nearest pure-real value to a signed 32-bit integer.
    pub fn from_i32(n: i32) -> (r: Option<Self>)
        ensures
            r == Some(Complex { real: real_bits_of_i64(n as i64), imaginary: POS_ZERO }),
    {
        Self::from_i64(n as i64)
    }

    /// The nearest pure-real value to a signed 128-bit integer.
    pub fn from_i128(n: i128) -> (r: Option<Self>)
        ensures
            r == Some(Complex { real: real_bits_of_i128(n), imaginary: POS_ZERO }),
    {
        Some(Self { real: real_from_i128(n), imaginary: POS_ZERO })
    }

    /// The nearest pure-real value to a pointer-sized unsigned integer.
    pub fn from_usize(n: usize) -> (r: Option<Self>)
        ensures
            r == Some(Complex { real: real_bits_of_u64(n as u64), imaginary: POS_ZERO }),
    {
        Self::from_u64(n as u64)
    }

    /// The nearest pure-real value to an unsigned 8-bit integer.
    pub fn from_u8(n: u8) -> (r: Option<Self>)
        ensures
            r == Some(Complex { real: real_bits_of_u64(n as u64), imaginary: POS_ZERO }),
    {
        Self::from_u64(n as u64)
    }

    /// The nearest pure-real value to an unsigned 16-bit integer.
    pub fn from_u16(n: u16) -> (r: Option<Self>)
        ensures
            r == Some(Complex { real: real_bits_of_u64(n as u64), imaginary: POS_ZERO }),
    {
        Self::from_u64(n as u64)
    }

    /// The nearest pure-real value to an unsigned 32-bit integer.
    pub fn from_u32(n: u32) -> (r: Option<Self>)
        ensures
            r == Some(Complex { real: real_bits_of_u64(n as u64), imaginary: POS_ZERO }),
    {
        Self::from_u64(n as u64)
    }

    /// The nearest pure-real value to an unsigned 128-bit integer.
    pub fn from_u128(n: u128) -> (r: Option<Self>)
        ensures
            r == Some(Complex { real: real_bits_of_u128(n), imaginary: POS_ZERO }),
    {
        Some(Self { real: real_from_u128(n), imaginary: POS_ZERO })
    }

    /// The real component truncated to a signed 64-bit integer, if it is
    /// representable.
    pub fn to_i64(&self) -> (r: Option<i64>)
        ensures
            r == i64_of_real_bits(self.real),
    {
        real_to_i64(self.real)
    }

    /// The real component truncated to an unsigned 64-bit integer.
    pub fn to_u64(&self) -> (r: Option<u64>)
        ensures
            r == u64_of_real_bits(self.real),
    {
        real_to_u64(self.real)
    }

    /// The real component truncated to a signed 128-bit integer.
    pub fn to_i128(&self) -> (r: Option<i128>)
        ensures
            r == i128_of_real_bits(self.real),
    {
        real_to_i128(self.real)
    }

    /// The real component truncated to an unsigned 128-bit integer.
    pub fn to_u128(&self) -> (r: Option<u128>)
        ensures
            r == u128_of_real_bits(self.real),
    {
        real_to_u128(self.real)
    }

    /// The real component truncated to a pointer-sized signed integer.
    pub fn to_isize(&self) -> (r: Option<isize>)
        ensures
            r == spec_to_isize(self.real),
    {
        match real_to_i64(self.real) {
            Some(v) => if isize::MIN as i64 <= v && v <= isize::MAX as i64 {
                Some(v as isize)
            } else {
                None
            },
            None => None,
        }
    }

    /// The real component truncated to a signed 8-bit integer.
    pub fn to_i8(&self) -> (r: Option<i8>)
        ensures
            r == spec_to_i8(self.real),
    {
        match real_to_i64(self.real) {
            Some(v) => if i8::MIN as i64 <= v && v <= i8::MAX as i64 {
                Some(v as i8)
            } else {
                None
            },
            None => None,
        }
    }

    /// The real component truncated to a signed 16-bit integer.
    pub fn to_i16(&self) -> (r: Option<i16>)
        ensures
            r == spec_to_i16(self.real),
    {
        match real_to_i64(self.real) {
            Some(v) => if i16::MIN as i64 <= v && v <= i16::MAX as i64 {
                Some(v as i16)
            } else {
                None
            },
            None => None,
        }
    }

    /// The real component truncated to a signed 32-bit integer.
    pub fn to_i32(&self) -> (r: Option<i32>)
        ensures
            r == spec_to_i32(self.real),
    {
        match real_to_i64(self.real) {
            Some(v) => if i32::MIN as i64 <= v && v <= i32::MAX as i64 {
                Some(v as i32)
            } else {
                None
            },
            None => None,
        }
    }

    /// The real component truncated to a pointer-sized unsigned integer.
    pub fn to_usize(&self) -> (r: Option<usize>)
        ensures
            r == spec_to_usize(self.real),
    {
        match real_to_u64(self.real) {
            Some(v) => if v <= usize::MAX as u64 {
                Some(v as usize)
            } else {
                None
            },
            None => None,
        }
    }

    /// The real component truncated to an unsigned 8-bit integer.
    pub fn to_u8(&self) -> (r: Option<u8>)
        ensures
            r == spec_to_u8(self.real),
    {
        match real_to_u64(self.real) {
            Some(v) => if v <= u8::MAX as u64 {
                Some(v as u8)
            } else {
                None
            },
            None => None,
        }
    }

    /// The real component truncated to an unsigned 16-bit integer.
    pub fn to_u16(&self) -> (r: Option<u16>)
        ensures
            r == spec_to_u16(self.real),
    {
        match real_to_u64(self.real) {
            Some(v) => if v <= u16::MAX as u64 {
                Some(v as u16)
            } else {
                None
            },
            None => None,
        }
    }

    /// The real component truncated to an unsigned 32-bit integer.
    pub fn to_u32(&self) -> (r: Option<u32>)
        ensures
            r == spec_to_u32(self.real),
    {
        match real_to_u64(self.real) {
            Some(v) => if v <= u32::MAX as u64 {
                Some(v as u32)
            } else {
                None
            },
            None => None,
        }
    }
}

} // verus!
