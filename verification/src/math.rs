//! Fixed-point exponential and logarithm.
//!
//! The regression formulas of the weight engine need `exp` and a power with a
//! fractional exponent, which is obtained as `exp` of a multiple of `ln`.
//! Both are computed by truncated series over [`Fixed`] arithmetic, and each
//! executable function is specified exactly by the spec functions below: the
//! contract pins the computed value down to the last raw unit, and the tests
//! pin the accuracy of the series against known reference points.

use crate::fixed::{add_spec, div_spec, fadd, fdiv, fmul, mul_spec, sat64, Fixed, SCALE};
use vstd::prelude::*;

verus! {

/// Number of series terms used for the exponential.
pub const EXP_TERMS: u64 = 60;

/// Number of series terms used for the logarithm, beyond the initial one.
pub const LN_TERMS: u64 = 80;

/// Raw fixed-point value of the natural logarithm of ten.
pub const LN10_RAW: u64 = 2_302_585_093;

/// Largest number of divisions by ten performed while reducing the argument
/// of the logarithm to `[1, 10)`.
pub const LN_REDUCTIONS: u64 = 19;

/// The `k`-th term of the exponential series, `x^k / k!`, as accumulated in
/// fixed point: each term is the previous one multiplied by `x` and divided
/// by `k`, flooring at every step.
pub open spec fn exp_term_spec(x: int, k: nat) -> int
    decreases k,
{
    if k == 0 {
        SCALE as int
    } else {
        mul_spec(exp_term_spec(x, (k - 1) as nat), x) / (k as int)
    }
}

/// Sum of the first `k + 1` terms of the exponential series in fixed point.
pub open spec fn exp_sum_spec(x: int, k: nat) -> int
    decreases k,
{
    if k == 0 {
        SCALE as int
    } else {
        add_spec(exp_sum_spec(x, (k - 1) as nat), exp_term_spec(x, k))
    }
}

/// Raw fixed-point value computed for `e^x`, `x` given in raw units.
pub open spec fn exp_spec(x: int) -> int {
    exp_sum_spec(x, EXP_TERMS as nat)
}

/// Computes `e^x` by the truncated power series.  The result is never below
/// one, since the series starts at the term for `x^0`.
pub fn exp_pos(x: Fixed) -> (r: Fixed)
    ensures
        r.raw == exp_spec(x.raw as int),
        r.raw >= SCALE,
{
    let mut term = Fixed { raw: SCALE };
    let mut sum = Fixed { raw: SCALE };
    let mut k: u64 = 1;
    while k <= EXP_TERMS
        invariant
            1 <= k <= EXP_TERMS + 1,
            term.raw == exp_term_spec(x.raw as int, (k - 1) as nat),
            sum.raw == exp_sum_spec(x.raw as int, (k - 1) as nat),
            sum.raw >= SCALE,
        decreases EXP_TERMS + 1 - k,
    {
        let t = fmul(term, x);
        term = Fixed { raw: t.raw / k };
        sum = fadd(sum, term);
        k = k + 1;
    }
    sum
}

/// Mantissa left after repeatedly dividing `x` by ten, at most `fuel` times,
/// until it falls below ten.
pub open spec fn ln_mant_spec(x: int, fuel: nat) -> int
    decreases fuel,
{
    if fuel == 0 || x < 10 * SCALE {
        x
    } else {
        ln_mant_spec(x / 10, (fuel - 1) as nat)
    }
}

/// Number of divisions by ten performed by the reduction of `x`.
pub open spec fn ln_exp10_spec(x: int, fuel: nat) -> nat
    decreases fuel,
{
    if fuel == 0 || x < 10 * SCALE {
        0
    } else {
        ln_exp10_spec(x / 10, (fuel - 1) as nat) + 1
    }
}

/// The `k`-th odd power of `z` used by the logarithm series, accumulated in
/// fixed point by repeated multiplication with `z^2`.
pub open spec fn ln_term_spec(z: int, zsq: int, k: nat) -> int
    decreases k,
{
    if k == 0 {
        z
    } else {
        mul_spec(ln_term_spec(z, zsq, (k - 1) as nat), zsq)
    }
}

/// Sum of the first `k + 1` terms of the series for the inverse hyperbolic
/// tangent of `z`, in fixed point.
pub open spec fn ln_sum_spec(z: int, zsq: int, k: nat) -> int
    decreases k,
{
    if k == 0 {
        z
    } else {
        add_spec(ln_sum_spec(z, zsq, (k - 1) as nat), ln_term_spec(z, zsq, k) / (2 * (k as int) + 1))
    }
}

/// Raw fixed-point value computed for `ln x`, `x` given in raw units.  The
/// argument is reduced to a mantissa in `[1, 10)` and a power of ten, the
/// logarithm of the mantissa comes from the series for the inverse
/// hyperbolic tangent of `(m - 1) / (m + 1)`, and the logarithm of the
/// power of ten is added back.
pub open spec fn ln_spec(x: int) -> int {
    let m = ln_mant_spec(x, LN_REDUCTIONS as nat);
    let e = ln_exp10_spec(x, LN_REDUCTIONS as nat);
    let z = div_spec(m - SCALE, add_spec(m, SCALE as int));
    let zsq = mul_spec(z, z);
    add_spec(sat64(2 * ln_sum_spec(z, zsq, LN_TERMS as nat)), (e as int) * (LN10_RAW as int))
}

/// Computes the natural logarithm of `x >= 1`.
pub fn ln_pos(x: Fixed) -> (r: Fixed)
    requires
        x.raw >= SCALE,
    ensures
        r.raw == ln_spec(x.raw as int),
{
    let mut y = x;
    let mut e: u64 = 0;
    while y.raw >= 10 * SCALE && e < LN_REDUCTIONS
        invariant
            x.raw >= SCALE,
            y.raw >= SCALE,
            e <= LN_REDUCTIONS,
            ln_mant_spec(x.raw as int, LN_REDUCTIONS as nat) == ln_mant_spec(
                y.raw as int,
                (LN_REDUCTIONS - e) as nat,
            ),
            ln_exp10_spec(x.raw as int, LN_REDUCTIONS as nat) == ln_exp10_spec(
                y.raw as int,
                (LN_REDUCTIONS - e) as nat,
            ) + e,
        decreases LN_REDUCTIONS - e,
    {
        y = Fixed { raw: y.raw / 10 };
        e = e + 1;
    }
    let num = Fixed { raw: y.raw - SCALE };
    let den = fadd(y, Fixed { raw: SCALE });
    let z = fdiv(num, den);
    let zsq = fmul(z, z);
    let mut sum = z;
    let mut term = z;
    let mut k: u64 = 1;
    while k <= LN_TERMS
        invariant
            1 <= k <= LN_TERMS + 1,
            term.raw == ln_term_spec(z.raw as int, zsq.raw as int, (k - 1) as nat),
            sum.raw == ln_sum_spec(z.raw as int, zsq.raw as int, (k - 1) as nat),
        decreases LN_TERMS + 1 - k,
    {
        term = fmul(term, zsq);
        sum = fadd(sum, Fixed { raw: term.raw / (2 * k + 1) });
        k = k + 1;
    }
    let doubled = if sum.raw <= u64::MAX / 2 {
        Fixed { raw: 2 * sum.raw }
    } else {
        Fixed { raw: u64::MAX }
    };
    fadd(doubled, Fixed { raw: e * LN10_RAW })
}

} // verus!
