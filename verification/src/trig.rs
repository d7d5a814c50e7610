//! Integer fixed-point sine and cosine on whole degrees.
//!
//! The half-wave sine is a scaled rational approximation (a classical
//! one) that is exact at 0, 30, 90, 150 and 180 degrees and within a
//! few parts per thousand elsewhere; results are scaled by `TRIG_ONE`.

use vstd::prelude::*;

verus! {

/// Scale of trigonometric results: `sin_fp(90) == TRIG_ONE`.
pub const TRIG_ONE: i64 = 1024;

/// Scaled sine on `0..=180` degrees:
/// `4 d (180 - d) * TRIG_ONE / (40500 - d (180 - d))`.
pub open spec fn spec_sin_half(d: int) -> int {
    (4 * d * (180 - d) * 1024) / (40500 - d * (180 - d))
}

/// Scaled sine on `0..360` degrees: the half-wave, negated on the
/// second half.
pub open spec fn spec_sin(d: int) -> int {
    if d < 180 {
        spec_sin_half(d)
    } else {
        -spec_sin_half(d - 180)
    }
}

/// Scaled cosine on `0..360` degrees: the sine a quarter turn ahead.
pub open spec fn spec_cos(d: int) -> int {
    spec_sin((d + 90) % 360)
}

/// The half-wave sine, computed exactly as `spec_sin_half` states it.
fn sin_half(d: u32) -> (r: u32)
    requires
        d <= 180,
    ensures
        r as int == spec_sin_half(d as int),
        r <= 1024,
{
    proof {
        assert(0 <= d * (180 - d) <= 8100) by (nonlinear_arith)
            requires
                d <= 180,
        ;
    }
    let p: u32 = d * (180 - d);
    let num: u32 = 4 * p * 1024;
    let den: u32 = 40500 - p;
    proof {
        assert(num <= den * 1024) by (nonlinear_arith)
            requires
                num == 4 * p * 1024,
                den == 40500 - p,
                p <= 8100,
        ;
        vstd::arithmetic::div_mod::lemma_multiply_divide_le(num as int, den as int, 1024);
        assert(4 * (d as int) * (180 - d as int) * 1024 == 4 * (p as int) * 1024)
            by (nonlinear_arith)
            requires
                p == d * (180 - d),
        ;
    }
    num / den
}

/// Scaled sine of an angle in whole degrees, `[0, 360)`.
pub fn sin_fp(degrees: u32) -> (r: i64)
    requires
        degrees < 360,
    ensures
        r == spec_sin(degrees as int),
        -1024 <= r <= 1024,
{
    if degrees < 180 {
        sin_half(degrees) as i64
    } else {
        -(sin_half(degrees - 180) as i64)
    }
}

/// Scaled cosine of an angle in whole degrees, `[0, 360)`.
pub fn cos_fp(degrees: u32) -> (r: i64)
    requires
        degrees < 360,
    ensures
        r == spec_cos(degrees as int),
        -1024 <= r <= 1024,
{
    sin_fp((degrees + 90) % 360)
}

} // verus!
