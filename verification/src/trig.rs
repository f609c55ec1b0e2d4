//! Fixed-point sine and cosine on the first quadrant, and the focal length
//! of a perspective projection.
//!
//! Sine and cosine are evaluated as truncated power series in Horner form;
//! every step is exact fixed-point arithmetic, so each function returns
//! precisely the value of its specification polynomial, which approximates
//! the real function to a few fixed-point units on the supported range.

use vstd::prelude::*;
use crate::fixed::{
    div_exact, div_fp, div_tr, lemma_div_tr_bounds, lemma_mul_fp_bounds, mul_fp, SCALE,
};
use vstd::arithmetic::div_mod::lemma_div_pos_is_pos;

verus! {

/// A half turn (pi radians) in fixed-point units.
pub const PI_FP: i64 = 205887;

/// Half of `deg` degrees, converted to fixed-point radians.
pub open spec fn spec_half_rad(deg: int) -> int {
    div_tr(deg * PI_FP as int, 360)
}

/// The sine polynomial: Horner form of
/// `x - x^3/6 + x^5/120 - x^7/5040 + x^9/362880 - x^11/39916800`,
/// evaluated in fixed point.
pub open spec fn spec_sin_fp(x: int) -> int {
    let s = SCALE as int;
    let u = div_tr(x * x, s);
    let t5 = s - div_tr(u, 110);
    let t4 = s - div_tr(div_tr(u * t5, s), 72);
    let t3 = s - div_tr(div_tr(u * t4, s), 42);
    let t2 = s - div_tr(div_tr(u * t3, s), 20);
    let t1 = s - div_tr(div_tr(u * t2, s), 6);
    div_tr(x * t1, s)
}

/// The cosine polynomial: Horner form of
/// `1 - x^2/2 + x^4/24 - x^6/720 + x^8/40320 - x^10/3628800`,
/// evaluated in fixed point.
pub open spec fn spec_cos_fp(x: int) -> int {
    let s = SCALE as int;
    let u = div_tr(x * x, s);
    let t5 = s - div_tr(u, 90);
    let t4 = s - div_tr(div_tr(u * t5, s), 56);
    let t3 = s - div_tr(div_tr(u * t4, s), 30);
    let t2 = s - div_tr(div_tr(u * t3, s), 12);
    s - div_tr(div_tr(u * t2, s), 2)
}

/// Focal length of a projection with a field of view of `deg` degrees:
/// the fixed-point cotangent of half the field of view.
pub open spec fn spec_focal(deg: int) -> int {
    let h = spec_half_rad(deg);
    div_tr(spec_cos_fp(h) * SCALE as int, spec_sin_fp(h))
}

/// One Horner step keeps its sign: with `u` and `t` nonnegative, both the
/// rescaled product and its division by the series constant are
/// nonnegative.
proof fn lemma_step_nonneg(u: int, t: int, d: int)
    requires
        u >= 0,
        t >= 0,
        d >= 1,
    ensures
        div_tr(u * t, SCALE as int) >= 0,
        div_tr(div_tr(u * t, SCALE as int), d) >= 0,
{
    assert(u * t >= 0) by (nonlinear_arith)
        requires
            u >= 0,
            t >= 0,
    ;
    lemma_div_pos_is_pos(u * t, SCALE as int);
    lemma_div_pos_is_pos(div_tr(u * t, SCALE as int), d);
}

/// Half of `deg` degrees in fixed-point radians.
pub fn half_rad(deg: u32) -> (r: i64)
    requires
        1 <= deg <= 179,
    ensures
        r == spec_half_rad(deg as int),
        0 <= r <= 2 * SCALE,
{
    let a: i64 = (deg as i64) * PI_FP;
    proof {
        lemma_div_pos_is_pos(a as int, 360);
        lemma_div_tr_bounds(a as int, 360, 179 * PI_FP as int);
    }
    div_exact(a, 360)
}

/// Fixed-point sine on `[0, 2]` radians.
pub fn sin_fp(x: i64) -> (r: i64)
    requires
        0 <= x <= 2 * SCALE,
    ensures
        r == spec_sin_fp(x as int),
        -2 * SCALE <= r <= 2 * SCALE,
{
    let u = mul_fp(x, x);
    proof {
        assert(x as int * x as int >= 0) by (nonlinear_arith)
            requires
                x >= 0,
        ;
        lemma_div_pos_is_pos(x as int * x as int, SCALE as int);
        lemma_mul_fp_bounds(x as int, x as int, 131072, 131072);
    }
    let m5 = div_exact(u, 110);
    proof {
        lemma_div_tr_bounds(u as int, 110, 262144);
        lemma_div_pos_is_pos(u as int, 110);
    }
    let t5 = SCALE - m5;
    let p4 = mul_fp(u, t5);
    proof {
        lemma_mul_fp_bounds(u as int, t5 as int, 262144, 65536);
    }
    let m4 = div_exact(p4, 72);
    proof {
        lemma_step_nonneg(u as int, t5 as int, 72);
        lemma_div_tr_bounds(p4 as int, 72, 262144);
    }
    let t4 = SCALE - m4;
    let p3 = mul_fp(u, t4);
    proof {
        lemma_mul_fp_bounds(u as int, t4 as int, 262144, 65536);
    }
    let m3 = div_exact(p3, 42);
    proof {
        lemma_step_nonneg(u as int, t4 as int, 42);
        lemma_div_tr_bounds(p3 as int, 42, 262144);
    }
    let t3 = SCALE - m3;
    let p2 = mul_fp(u, t3);
    proof {
        lemma_mul_fp_bounds(u as int, t3 as int, 262144, 65536);
    }
    let m2 = div_exact(p2, 20);
    proof {
        lemma_step_nonneg(u as int, t3 as int, 20);
        lemma_div_tr_bounds(p2 as int, 20, 262144);
    }
    let t2 = SCALE - m2;
    let p1 = mul_fp(u, t2);
    proof {
        lemma_mul_fp_bounds(u as int, t2 as int, 262144, 65536);
    }
    let m1 = div_exact(p1, 6);
    proof {
        lemma_step_nonneg(u as int, t2 as int, 6);
        lemma_div_tr_bounds(p1 as int, 6, 262144);
    }
    let t1 = SCALE - m1;
    proof {
        lemma_mul_fp_bounds(x as int, t1 as int, 131072, 65536);
    }
    mul_fp(x, t1)
}

/// Fixed-point cosine on `[0, 2]` radians.
pub fn cos_fp(x: i64) -> (r: i64)
    requires
        0 <= x <= 2 * SCALE,
    ensures
        r == spec_cos_fp(x as int),
        -2 * SCALE <= r <= 2 * SCALE,
{
    let u = mul_fp(x, x);
    proof {
        assert(x as int * x as int >= 0) by (nonlinear_arith)
            requires
                x >= 0,
        ;
        lemma_div_pos_is_pos(x as int * x as int, SCALE as int);
        lemma_mul_fp_bounds(x as int, x as int, 131072, 131072);
    }
    let m5 = div_exact(u, 90);
    proof {
        lemma_div_tr_bounds(u as int, 90, 262144);
        lemma_div_pos_is_pos(u as int, 90);
    }
    let t5 = SCALE - m5;
    let p4 = mul_fp(u, t5);
    proof {
        lemma_mul_fp_bounds(u as int, t5 as int, 262144, 65536);
    }
    let m4 = div_exact(p4, 56);
    proof {
        lemma_step_nonneg(u as int, t5 as int, 56);
        lemma_div_tr_bounds(p4 as int, 56, 262144);
    }
    let t4 = SCALE - m4;
    let p3 = mul_fp(u, t4);
    proof {
        lemma_mul_fp_bounds(u as int, t4 as int, 262144, 65536);
    }
    let m3 = div_exact(p3, 30);
    proof {
        lemma_step_nonneg(u as int, t4 as int, 30);
        lemma_div_tr_bounds(p3 as int, 30, 262144);
    }
    let t3 = SCALE - m3;
    let p2 = mul_fp(u, t3);
    proof {
        lemma_mul_fp_bounds(u as int, t3 as int, 262144, 65536);
    }
    let m2 = div_exact(p2, 12);
    proof {
        lemma_step_nonneg(u as int, t3 as int, 12);
        lemma_div_tr_bounds(p2 as int, 12, 262144);
    }
    let t2 = SCALE - m2;
    let p1 = mul_fp(u, t2);
    proof {
        lemma_mul_fp_bounds(u as int, t2 as int, 262144, 65536);
    }
    let m1 = div_exact(p1, 2);
    proof {
        lemma_step_nonneg(u as int, t2 as int, 2);
        lemma_div_tr_bounds(p1 as int, 2, 262144);
    }
    SCALE - m1
}

/// Focal length for a field of view of `deg` degrees.  The caller must
/// know that the sine of the half angle is positive (part of a camera's
/// validity).
pub fn focal(deg: u32) -> (r: i64)
    requires
        1 <= deg <= 179,
        spec_sin_fp(spec_half_rad(deg as int)) >= 1,
    ensures
        r == spec_focal(deg as int),
{
    let h = half_rad(deg);
    let s = sin_fp(h);
    let c = cos_fp(h);
    div_fp(c, s)
}

} // verus!
