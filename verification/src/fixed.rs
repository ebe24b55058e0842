//! Decimal fixed-point numbers.
//!
//! A [`Fixed`] holds a non-negative quantity as an integer count of
//! billionths, so `1.5` is stored as `1_500_000_000`.  All operations floor
//! their exact rational result to the representation and saturate at the
//! largest representable value, and each is specified exactly by a spec
//! function over the raw integers.

use vstd::arithmetic::div_mod::lemma_div_pos_is_pos;
use vstd::arithmetic::mul::lemma_mul_nonnegative;
use vstd::prelude::*;

verus! {

/// Number of raw units per whole unit: a raw value of `SCALE` is `1.0`.
pub const SCALE: u64 = 1_000_000_000;

/// Raw units per thousandth of a unit.
pub const MILLI: u64 = 1_000_000;

/// Clamps an integer into the range representable by a `u64`.
pub open spec fn sat64(x: int) -> int {
    if x > u64::MAX {
        u64::MAX as int
    } else if x < 0 {
        0
    } else {
        x
    }
}

/// Raw result of fixed-point multiplication: floor of the exact product,
/// saturated.
pub open spec fn mul_spec(a: int, b: int) -> int {
    sat64((a * b) / (SCALE as int))
}

/// Raw result of fixed-point division: floor of the exact quotient,
/// saturated.
pub open spec fn div_spec(a: int, b: int) -> int {
    sat64((a * (SCALE as int)) / b)
}

/// Raw result of fixed-point addition, saturated.
pub open spec fn add_spec(a: int, b: int) -> int {
    sat64(a + b)
}

/// A non-negative decimal fixed-point number: the represented value is
/// `raw / SCALE`.
#[derive(Clone, Copy, Debug, PartialEq, Eq, Structural)]
pub struct Fixed {
    pub raw: u64,
}

impl Fixed {
    /// The value zero.
    pub fn zero() -> (r: Fixed)
        ensures
            r.raw == 0,
    {
        Fixed { raw: 0 }
    }

    /// Builds a value directly from its raw count of billionths.
    pub fn from_raw(raw: u64) -> (r: Fixed)
        ensures
            r.raw == raw,
    {
        Fixed { raw }
    }

    /// Builds the value `n`, saturating when it is not representable.
    pub fn from_int(n: u64) -> (r: Fixed)
        ensures
            r.raw == sat64(n * SCALE),
    {
        proof {
            assert((n as int) * (SCALE as int) <= u64::MAX * SCALE) by (nonlinear_arith)
                requires
                    n <= u64::MAX,
            ;
            lemma_mul_nonnegative(n as int, SCALE as int);
        }
        let wide: u128 = (n as u128) * (SCALE as u128);
        if wide > u64::MAX as u128 {
            Fixed { raw: u64::MAX }
        } else {
            Fixed { raw: wide as u64 }
        }
    }

    /// Builds the value `m / 1000`, saturating when it is not representable.
    pub fn from_milli(m: u64) -> (r: Fixed)
        ensures
            r.raw == sat64(m * MILLI),
    {
        proof {
            assert((m as int) * (MILLI as int) <= u64::MAX * MILLI) by (nonlinear_arith)
                requires
                    m <= u64::MAX,
            ;
            lemma_mul_nonnegative(m as int, MILLI as int);
        }
        let wide: u128 = (m as u128) * (MILLI as u128);
        if wide > u64::MAX as u128 {
            Fixed { raw: u64::MAX }
        } else {
            Fixed { raw: wide as u64 }
        }
    }
}

/// Fixed-point multiplication.
pub fn fmul(a: Fixed, b: Fixed) -> (r: Fixed)
    ensures
        r.raw == mul_spec(a.raw as int, b.raw as int),
{
    proof {
        assert((a.raw as int) * (b.raw as int) <= u64::MAX * u64::MAX) by (nonlinear_arith)
            requires
                a.raw <= u64::MAX,
                b.raw <= u64::MAX,
        ;
        lemma_mul_nonnegative(a.raw as int, b.raw as int);
        lemma_div_pos_is_pos((a.raw as int) * (b.raw as int), SCALE as int);
    }
    let wide: u128 = ((a.raw as u128) * (b.raw as u128)) / (SCALE as u128);
    if wide > u64::MAX as u128 {
        Fixed { raw: u64::MAX }
    } else {
        Fixed { raw: wide as u64 }
    }
}

/// Fixed-point division.
pub fn fdiv(a: Fixed, b: Fixed) -> (r: Fixed)
    requires
        b.raw >= 1,
    ensures
        r.raw == div_spec(a.raw as int, b.raw as int),
{
    proof {
        lemma_mul_nonnegative(a.raw as int, SCALE as int);
        lemma_div_pos_is_pos((a.raw as int) * (SCALE as int), b.raw as int);
    }
    let wide: u128 = ((a.raw as u128) * (SCALE as u128)) / (b.raw as u128);
    if wide > u64::MAX as u128 {
        Fixed { raw: u64::MAX }
    } else {
        Fixed { raw: wide as u64 }
    }
}

/// Fixed-point addition.
pub fn fadd(a: Fixed, b: Fixed) -> (r: Fixed)
    ensures
        r.raw == add_spec(a.raw as int, b.raw as int),
{
    if a.raw <= u64::MAX - b.raw {
        Fixed { raw: a.raw + b.raw }
    } else {
        Fixed { raw: u64::MAX }
    }
}

} // verus!
