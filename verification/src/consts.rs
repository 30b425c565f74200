//! The customary mathematical constants, lifted into the complex domain
//! as pure-real values. Each bit pattern is the binary64 value nearest to
//! the mathematical constant, the same patterns the component type's own
//! constants carry; the tests hold each one against those.

use vstd::prelude::*;

use crate::bits::POS_ZERO;
use crate::complex::Complex;

verus! {

/// Euler's number, e.
pub const E_BITS: u64 = 0x4005_BF0A_8B14_5769;

/// 1/pi.
pub const FRAC_1_PI_BITS: u64 = 0x3FD4_5F30_6DC9_C883;

/// 1/sqrt(2).
pub const FRAC_1_SQRT_2_BITS: u64 = 0x3FE6_A09E_667F_3BCD;

/// 2/pi.
pub const FRAC_2_PI_BITS: u64 = 0x3FE4_5F30_6DC9_C883;

/// 2/sqrt(pi).
pub const FRAC_2_SQRT_PI_BITS: u64 = 0x3FF2_0DD7_5042_9B6D;

/// pi/2.
pub const FRAC_PI_2_BITS: u64 = 0x3FF9_21FB_5444_2D18;

/// pi/3.
pub const FRAC_PI_3_BITS: u64 = 0x3FF0_C152_382D_7366;

/// pi/4.
pub const FRAC_PI_4_BITS: u64 = 0x3FE9_21FB_5444_2D18;

/// pi/6.
pub const FRAC_PI_6_BITS: u64 = 0x3FE0_C152_382D_7366;

/// pi/8.
pub const FRAC_PI_8_BITS: u64 = 0x3FD9_21FB_5444_2D18;

/// ln(10).
pub const LN_10_BITS: u64 = 0x4002_6BB1_BBB5_5516;

/// ln(2).
pub const LN_2_BITS: u64 = 0x3FE6_2E42_FEFA_39EF;

/// log10(e).
pub const LOG10_E_BITS: u64 = 0x3FDB_CB7B_1526_E50E;

/// log2(e).
pub const LOG2_E_BITS: u64 = 0x3FF7_1547_652B_82FE;

/// pi.
pub const PI_BITS: u64 = 0x4009_21FB_5444_2D18;

/// sqrt(2).
pub const SQRT_2_BITS: u64 = 0x3FF6_A09E_667F_3BCD;

/// 2 pi.
pub const TAU_BITS: u64 = 0x4019_21FB_5444_2D18;

/// log10(2).
pub const LOG10_2_BITS: u64 = 0x3FD3_4413_509F_79FF;

/// log2(10).
pub const LOG2_10_BITS: u64 = 0x400A_934F_0979_A371;

#[allow(non_snake_case)]
impl Complex {
    /// Euler's number as a pure-real value.
    pub fn E() -> (r: Self)
        ensures
            r == (Complex { real: E_BITS, imaginary: POS_ZERO }),
    {
        Self { real: E_BITS, imaginary: POS_ZERO }
    }

    /// 1/pi as a pure-real value.
    pub fn FRAC_1_PI() -> (r: Self)
        ensures
            r == (Complex { real: FRAC_1_PI_BITS, imaginary: POS_ZERO }),
    {
        Self { real: FRAC_1_PI_BITS, imaginary: POS_ZERO }
    }

    /// 1/sqrt(2) as a pure-real value.
    pub fn FRAC_1_SQRT_2() -> (r: Self)
        ensures
            r == (Complex { real: FRAC_1_SQRT_2_BITS, imaginary: POS_ZERO }),
    {
        Self { real: FRAC_1_SQRT_2_BITS, imaginary: POS_ZERO }
    }

    /// 2/pi as a pure-real value.
    pub fn FRAC_2_PI() -> (r: Self)
        ensures
            r == (Complex { real: FRAC_2_PI_BITS, imaginary: POS_ZERO }),
    {
        Self { real: FRAC_2_PI_BITS, imaginary: POS_ZERO }
    }

    /// 2/sqrt(pi) as a pure-real value.
    pub fn FRAC_2_SQRT_PI() -> (r: Self)
        ensures
            r == (Complex { real: FRAC_2_SQRT_PI_BITS, imaginary: POS_ZERO }),
    {
        Self { real: FRAC_2_SQRT_PI_BITS, imaginary: POS_ZERO }
    }

    /// pi/2 as a pure-real value.
    pub fn FRAC_PI_2() -> (r: Self)
        ensures
            r == (Complex { real: FRAC_PI_2_BITS, imaginary: POS_ZERO }),
    {
        Self { real: FRAC_PI_2_BITS, imaginary: POS_ZERO }
    }

    /// pi/3 as a pure-real value.
    pub fn FRAC_PI_3() -> (r: Self)
        ensures
            r == (Complex { real: FRAC_PI_3_BITS, imaginary: POS_ZERO }),
    {
        Self { real: FRAC_PI_3_BITS, imaginary: POS_ZERO }
    }

    /// pi/4 as a pure-real value.
    pub fn FRAC_PI_4() -> (r: Self)
        ensures
            r == (Complex { real: FRAC_PI_4_BITS, imaginary: POS_ZERO }),
    {
        Self { real: FRAC_PI_4_BITS, imaginary: POS_ZERO }
    }

    /// pi/6 as a pure-real value.
    pub fn FRAC_PI_6() -> (r: Self)
        ensures
            r == (Complex { real: FRAC_PI_6_BITS, imaginary: POS_ZERO }),
    {
        Self { real: FRAC_PI_6_BITS, imaginary: POS_ZERO }
    }

    /// pi/8 as a pure-real value.
    pub fn FRAC_PI_8() -> (r: Self)
        ensures
            r == (Complex { real: FRAC_PI_8_BITS, imaginary: POS_ZERO }),
    {
        Self { real: FRAC_PI_8_BITS, imaginary: POS_ZERO }
    }

    /// ln(10) as a pure-real value.
    pub fn LN_10() -> (r: Self)
        ensures
            r == (Complex { real: LN_10_BITS, imaginary: POS_ZERO }),
    {
        Self { real: LN_10_BITS, imaginary: POS_ZERO }
    }

    /// ln(2) as a pure-real value.
    pub fn LN_2() -> (r: Self)
        ensures
            r == (Complex { real: LN_2_BITS, imaginary: POS_ZERO }),
    {
        Self { real: LN_2_BITS, imaginary: POS_ZERO }
    }

    /// log10(e) as a pure-real value.
    pub fn LOG10_E() -> (r: Self)
        ensures
            r == (Complex { real: LOG10_E_BITS, imaginary: POS_ZERO }),
    {
        Self { real: LOG10_E_BITS, imaginary: POS_ZERO }
    }

    /// log2(e) as a pure-real value.
    pub fn LOG2_E() -> (r: Self)
        ensures
            r == (Complex { real: LOG2_E_BITS, imaginary: POS_ZERO }),
    {
        Self { real: LOG2_E_BITS, imaginary: POS_ZERO }
    }

    /// pi as a pure-real value.
    pub fn PI() -> (r: Self)
        ensures
            r == (Complex { real: PI_BITS, imaginary: POS_ZERO }),
    {
        Self { real: PI_BITS, imaginary: POS_ZERO }
    }

    /// sqrt(2) as a pure-real value.
    pub fn SQRT_2() -> (r: Self)
        ensures
            r == (Complex { real: SQRT_2_BITS, imaginary: POS_ZERO }),
    {
        Self { real: SQRT_2_BITS, imaginary: POS_ZERO }
    }

    /// 2 pi as a pure-real value.
    pub fn TAU() -> (r: Self)
        ensures
            r == (Complex { real: TAU_BITS, imaginary: POS_ZERO }),
    {
        Self { real: TAU_BITS, imaginary: POS_ZERO }
    }

    /// log10(2) as a pure-real value.
    pub fn LOG10_2() -> (r: Self)
        ensures
            r == (Complex { real: LOG10_2_BITS, imaginary: POS_ZERO }),
    {
        Self { real: LOG10_2_BITS, imaginary: POS_ZERO }
    }

    /// log2(10) as a pure-real value.
    pub fn LOG2_10() -> (r: Self)
        ensures
            r == (Complex { real: LOG2_10_BITS, imaginary: POS_ZERO }),
    {
        Self { real: LOG2_10_BITS, imaginary: POS_ZERO }
    }
}

} // verus!
