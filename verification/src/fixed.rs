//! Fixed-point scalar arithmetic.
//!
//! A scalar is an `i64` holding a real value scaled by 2^16, so one unit is
//! `FX_ONE`. Every coordinate the pipeline works with is kept inside the
//! range `[-COORD_MAX, COORD_MAX]` (`fx_wf`); the multiplying and dividing
//! operations saturate to that range, which keeps all downstream arithmetic
//! free of overflow while staying exactly specified.

use vstd::prelude::*;
use vstd::arithmetic::div_mod::lemma_div_is_ordered;
use vstd::arithmetic::div_mod::lemma_div_nonincreasing;
use vstd::arithmetic::div_mod::lemma_hoist_over_denominator;
use vstd::arithmetic::mul::lemma_mul_upper_bound;

verus! {

/// One unit: the scale factor 2^16.
pub const FX_ONE: i64 = 65536;

/// Half a unit, used for pixel-center sampling and for rounding.
pub const FX_HALF: i64 = 32768;

/// Largest magnitude a well-formed scalar may take: 2^47. The bound leaves
/// enough headroom that edge functions (differences of products of two
/// coordinates) fit comfortably in an `i128`.
pub const COORD_MAX: i64 = 140737488355328;

/// Magnitude of an integer.
pub open spec fn iabs(a: int) -> int {
    if a >= 0 {
        a
    } else {
        -a
    }
}

/// A well-formed scalar: its magnitude is at most `COORD_MAX`.
pub open spec fn fx_wf(a: int) -> bool {
    -(COORD_MAX as int) <= a <= COORD_MAX as int
}

/// Saturation to the well-formed range.
pub open spec fn sat(v: int) -> int {
    if v > COORD_MAX as int {
        COORD_MAX as int
    } else if v < -(COORD_MAX as int) {
        -(COORD_MAX as int)
    } else {
        v
    }
}

/// Division truncated toward zero.
pub open spec fn tdiv(p: int, q: int) -> int
    recommends
        q != 0,
{
    if (p >= 0) == (q >= 0) {
        iabs(p) / iabs(q)
    } else {
        -(iabs(p) / iabs(q))
    }
}

/// What `fx_mul` returns: the product of two scalars, truncated toward zero
/// and saturated.
pub open spec fn fx_mul_spec(a: int, b: int) -> int {
    sat(tdiv(a * b, FX_ONE as int))
}

/// What `fx_div` returns: the quotient of two scalars, truncated toward zero
/// and saturated.
pub open spec fn fx_div_spec(a: int, b: int) -> int
    recommends
        b != 0,
{
    sat(tdiv(a * (FX_ONE as int), b))
}

/// What `fx_floor` returns: the largest integer at most the real value of
/// the scalar (division by the scale, rounding toward negative infinity).
pub open spec fn fx_floor_spec(a: int) -> int {
    a / (FX_ONE as int)
}

/// Saturate a scalar into the well-formed range.
pub fn fx_sat(a: i64) -> (r: i64)
    ensures
        r as int == sat(a as int),
        fx_wf(r as int),
{
    if a > COORD_MAX {
        COORD_MAX
    } else if a < -COORD_MAX {
        -COORD_MAX
    } else {
        a
    }
}

/// Magnitude of a scalar as an unsigned integer.
fn mag(a: i64) -> (m: u64)
    requires
        a != i64::MIN,
    ensures
        m as int == iabs(a as int),
{
    if a < 0 {
        (-a) as u64
    } else {
        a as u64
    }
}

/// Clamp a magnitude at `COORD_MAX` and apply a sign.
pub(crate) fn apply_sign_sat(q: u128, neg: bool) -> (r: i64)
    ensures
        r as int == (if neg {
            sat(-(q as int))
        } else {
            sat(q as int)
        }),
        fx_wf(r as int),
{
    let c: u128 = if q > COORD_MAX as u128 {
        COORD_MAX as u128
    } else {
        q
    };
    let m = c as i64;
    if neg {
        -m
    } else {
        m
    }
}

/// Fixed-point multiplication, truncated toward zero and saturated.
pub fn fx_mul(a: i64, b: i64) -> (r: i64)
    requires
        fx_wf(a as int),
        fx_wf(b as int),
    ensures
        r as int == fx_mul_spec(a as int, b as int),
        fx_wf(r as int),
{
    let neg = (a < 0) != (b < 0);
    let ma = mag(a) as u128;
    let mb = mag(b) as u128;
    proof {
        lemma_mul_upper_bound(ma as int, COORD_MAX as int, mb as int, COORD_MAX as int);
        assert((ma as int) * (mb as int) == iabs((a as int) * (b as int))) by (nonlinear_arith)
            requires
                ma as int == iabs(a as int),
                mb as int == iabs(b as int),
        ;
        if (a < 0) == (b < 0) {
            assert((a as int) * (b as int) >= 0) by (nonlinear_arith)
                requires
                    (a < 0) == (b < 0),
            ;
        } else {
            assert((a as int) * (b as int) <= 0) by (nonlinear_arith)
                requires
                    (a < 0) != (b < 0),
            ;
        }
    }
    let p = ma * mb;
    let q = p / 65536u128;
    apply_sign_sat(q, neg)
}

/// Fixed-point division, truncated toward zero and saturated.
pub fn fx_div(a: i64, b: i64) -> (r: i64)
    requires
        fx_wf(a as int),
        fx_wf(b as int),
        b != 0,
    ensures
        r as int == fx_div_spec(a as int, b as int),
        fx_wf(r as int),
{
    let neg = (a < 0) != (b < 0);
    let ma = mag(a) as u128 * 65536u128;
    let mb = mag(b) as u128;
    proof {
        assert(ma as int == iabs((a as int) * 65536)) by (nonlinear_arith)
            requires
                ma as int == iabs(a as int) * 65536,
        ;
        assert(((a as int) * 65536 >= 0) == (a >= 0)) by (nonlinear_arith);
    }
    let q = ma / mb;
    apply_sign_sat(q, neg)
}

/// Floor of a scalar: the pixel row or column its real value falls in.
pub fn fx_floor(a: i64) -> (r: i64)
    requires
        fx_wf(a as int),
    ensures
        r as int == fx_floor_spec(a as int),
        fx_wf(r as int),
{
    let shifted: u64 = (a + COORD_MAX) as u64;
    let q: u64 = shifted / 65536;
    proof {
        lemma_hoist_over_denominator(a as int, 2147483648, 65536nat);
        lemma_div_is_ordered(0, shifted as int, 65536);
        lemma_div_is_ordered(shifted as int, 281474976710656, 65536);
    }
    (q as i64) - 2147483648
}

/// Division of a scalar by a positive plain integer, truncated toward zero.
pub fn fx_div_int(a: i64, d: i64) -> (r: i64)
    requires
        fx_wf(a as int),
        d > 0,
    ensures
        r as int == tdiv(a as int, d as int),
        fx_wf(r as int),
{
    let neg = a < 0;
    let q = mag(a) / (d as u64);
    proof {
        lemma_div_nonincreasing(q as int, d as int);
        lemma_div_nonincreasing(iabs(a as int), d as int);
    }
    if neg {
        -(q as i64)
    } else {
        q as i64
    }
}

} // verus!
