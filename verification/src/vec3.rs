//! Fixed-point 3-vectors and their exact integer model.
//!
//! The executable type `Vec3` stores three fixed-point coordinates.  Its
//! mathematical model `V3` carries the same coordinates as unbounded
//! integers, and every executable operation is specified exactly against the
//! corresponding model operation.

use vstd::prelude::*;
use crate::fixed::{
    div_tr, descale_wide, div_fp, is_sqrt_floor, isqrt, lemma_sqrt_floor, mul_fp, sqrt_floor,
    wide_mul, SCALE,
};
use vstd::arithmetic::div_mod::lemma_div_by_multiple;

verus! {

/// A point or direction with fixed-point coordinates (units of `1 / SCALE`).
#[derive(Clone, Copy, Debug, PartialEq, Eq, Structural)]
pub struct Vec3 {
    pub x: i64,
    pub y: i64,
    pub z: i64,
}

/// Mathematical model of a vector: the same coordinates as unbounded
/// integers.
pub struct V3 {
    pub x: int,
    pub y: int,
    pub z: int,
}

impl View for Vec3 {
    type V = V3;

    open spec fn view(&self) -> V3 {
        V3 { x: self.x as int, y: self.y as int, z: self.z as int }
    }
}

/// All three coordinates lie within `m` in magnitude.
pub open spec fn within(v: V3, m: int) -> bool {
    &&& -m <= v.x <= m
    &&& -m <= v.y <= m
    &&& -m <= v.z <= m
}

/// Componentwise difference.
pub open spec fn sub_v(a: V3, b: V3) -> V3 {
    V3 { x: a.x - b.x, y: a.y - b.y, z: a.z - b.z }
}

/// Componentwise sum.
pub open spec fn add_v(a: V3, b: V3) -> V3 {
    V3 { x: a.x + b.x, y: a.y + b.y, z: a.z + b.z }
}

/// Squared Euclidean length; exact (no rounding), in units of
/// `1 / SCALE^2`.
pub open spec fn norm2_v(v: V3) -> int {
    v.x * v.x + v.y * v.y + v.z * v.z
}

/// Fixed-point Euclidean length: the floor square root of the squared
/// length.
pub open spec fn len_v(v: V3) -> int {
    sqrt_floor(norm2_v(v))
}

/// Fixed-point scaling of each coordinate by the fixed-point factor `s`.
pub open spec fn scale_v(v: V3, s: int) -> V3 {
    V3 {
        x: div_tr(v.x * s, SCALE as int),
        y: div_tr(v.y * s, SCALE as int),
        z: div_tr(v.z * s, SCALE as int),
    }
}

/// Fixed-point unit vector in the direction of `v`: each coordinate divided
/// by the length (zero stays zero).
pub open spec fn norm_v(v: V3) -> V3 {
    let l = len_v(v);
    if l <= 0 {
        V3 { x: 0, y: 0, z: 0 }
    } else {
        V3 {
            x: div_tr(v.x * SCALE as int, l),
            y: div_tr(v.y * SCALE as int, l),
            z: div_tr(v.z * SCALE as int, l),
        }
    }
}

/// Fixed-point cross product.
pub open spec fn cross_v(a: V3, b: V3) -> V3 {
    V3 {
        x: div_tr(a.y * b.z - a.z * b.y, SCALE as int),
        y: div_tr(a.z * b.x - a.x * b.z, SCALE as int),
        z: div_tr(a.x * b.y - a.y * b.x, SCALE as int),
    }
}

/// Fixed-point dot product.
pub open spec fn dot_v(a: V3, b: V3) -> int {
    div_tr(a.x * b.x + a.y * b.y + a.z * b.z, SCALE as int)
}

/// Magnitude bound accepted by the vector operations below.
pub const VEC_LIMIT: i64 = 0x4_0000_0000;

impl Vec3 {
    /// Builds a vector from its three fixed-point coordinates.
    pub fn new(x: i64, y: i64, z: i64) -> (r: Vec3)
        ensures
            r@ == (V3 { x: x as int, y: y as int, z: z as int }),
    {
        Vec3 { x, y, z }
    }

    /// Componentwise difference.
    pub fn sub(self, o: Vec3) -> (r: Vec3)
        requires
            within(self@, VEC_LIMIT as int),
            within(o@, VEC_LIMIT as int),
        ensures
            r@ == sub_v(self@, o@),
            within(r@, 2 * VEC_LIMIT as int),
    {
        Vec3 { x: self.x - o.x, y: self.y - o.y, z: self.z - o.z }
    }

    /// Componentwise sum.
    pub fn add(self, o: Vec3) -> (r: Vec3)
        requires
            within(self@, VEC_LIMIT as int),
            within(o@, VEC_LIMIT as int),
        ensures
            r@ == add_v(self@, o@),
            within(r@, 2 * VEC_LIMIT as int),
    {
        Vec3 { x: self.x + o.x, y: self.y + o.y, z: self.z + o.z }
    }

    /// Fixed-point Euclidean length.
    pub fn length(self) -> (r: i64)
        requires
            within(self@, 2 * VEC_LIMIT as int),
        ensures
            r == len_v(self@),
            0 <= r <= 0x10_0000_0000,
            is_sqrt_floor(norm2_v(self@), r as int),
    {
        proof {
            assert(self@.x * self@.x >= 0) by (nonlinear_arith);
            assert(self@.y * self@.y >= 0) by (nonlinear_arith);
            assert(self@.z * self@.z >= 0) by (nonlinear_arith);
        }
        let n2: i128 = wide_mul(self.x, self.x) + wide_mul(self.y, self.y)
            + wide_mul(self.z, self.z);
        let q: u64 = isqrt(n2 as u128);
        proof {
            lemma_sqrt_floor(n2 as int);
            assert(q as int * q as int <= n2 as int);
            assert(q < 0x10_0000_0000) by (nonlinear_arith)
                requires
                    q as int * q as int <= n2 as int,
                    n2 < 0x10_0000_0000int * 0x10_0000_0000int,
            ;
        }
        q as i64
    }

    /// Fixed-point unit vector in the direction of `self`; the caller must
    /// rule out the zero vector.
    pub fn normalized(self) -> (r: Vec3)
        requires
            within(self@, 2 * VEC_LIMIT as int),
            len_v(self@) >= 1,
        ensures
            r@ == norm_v(self@),
            within(r@, SCALE as int),
    {
        let l = self.length();
        proof {
            assert(self@.x * self@.x >= 0) by (nonlinear_arith);
            assert(self@.y * self@.y >= 0) by (nonlinear_arith);
            assert(self@.z * self@.z >= 0) by (nonlinear_arith);
            lemma_component_within_len(self@.x, self@.y * self@.y + self@.z * self@.z, l as int);
            lemma_component_within_len(self@.y, self@.x * self@.x + self@.z * self@.z, l as int);
            lemma_component_within_len(self@.z, self@.x * self@.x + self@.y * self@.y, l as int);
            lemma_unit_coordinate(self@.x, l as int);
            lemma_unit_coordinate(self@.y, l as int);
            lemma_unit_coordinate(self@.z, l as int);
        }
        Vec3 { x: div_fp(self.x, l), y: div_fp(self.y, l), z: div_fp(self.z, l) }
    }

    /// Fixed-point cross product.
    pub fn cross(self, o: Vec3) -> (r: Vec3)
        requires
            within(self@, 2 * VEC_LIMIT as int),
            within(o@, 2 * VEC_LIMIT as int),
        ensures
            r@ == cross_v(self@, o@),
            within(r@, 0x4000_0000_0000_0000),
    {
        let cx: i128 = wide_mul(self.y, o.z) - wide_mul(self.z, o.y);
        let cy: i128 = wide_mul(self.z, o.x) - wide_mul(self.x, o.z);
        let cz: i128 = wide_mul(self.x, o.y) - wide_mul(self.y, o.x);
        Vec3 { x: descale_wide(cx), y: descale_wide(cy), z: descale_wide(cz) }
    }

    /// Fixed-point dot product.
    pub fn dot(self, o: Vec3) -> (r: i64)
        requires
            within(self@, 2 * VEC_LIMIT as int),
            within(o@, 2 * VEC_LIMIT as int),
        ensures
            r == dot_v(self@, o@),
            -0x4000_0000_0000_0000 <= r <= 0x4000_0000_0000_0000,
    {
        let s: i128 = wide_mul(self.x, o.x) + wide_mul(self.y, o.y) + wide_mul(self.z, o.z);
        descale_wide(s)
    }

    /// Each coordinate scaled by the fixed-point factor `s`.
    pub fn scale(self, s: i64) -> (r: Vec3)
        requires
            within(self@, 2 * VEC_LIMIT as int),
            -0x10_0000_0000 <= s <= 0x10_0000_0000,
        ensures
            r@ == scale_v(self@, s as int),
            within(r@, 0x100_0000_0000_0000),
    {
        Vec3 { x: mul_fp(self.x, s), y: mul_fp(self.y, s), z: mul_fp(self.z, s) }
    }
}

/// Scaling a unit-length-bounded vector by a factor within `m` keeps every
/// coordinate within `m`.
pub proof fn lemma_scale_unit_bounds(v: V3, s: int, m: int)
    requires
        within(v, SCALE as int),
        -m <= s <= m,
        0 <= m,
    ensures
        within(scale_v(v, s), m),
{
    crate::fixed::lemma_mul_bounds(v.x, s, SCALE as int, m);
    crate::fixed::lemma_mul_bounds(v.y, s, SCALE as int, m);
    crate::fixed::lemma_mul_bounds(v.z, s, SCALE as int, m);
    assert((SCALE as int) * m == m * (SCALE as int)) by (nonlinear_arith);
    crate::fixed::lemma_div_tr_quotient_bound(v.x * s, SCALE as int, m);
    crate::fixed::lemma_div_tr_quotient_bound(v.y * s, SCALE as int, m);
    crate::fixed::lemma_div_tr_quotient_bound(v.z * s, SCALE as int, m);
}

/// The cross product of two bounded vectors is bounded: each coordinate
/// lies within `2 * ma * mb / SCALE + 1`.
pub proof fn lemma_cross_bounds(a: V3, b: V3, ma: int, mb: int)
    requires
        within(a, ma),
        within(b, mb),
        0 <= ma,
        0 <= mb,
    ensures
        within(cross_v(a, b), 2 * (ma * mb) / (SCALE as int) + 1),
{
    let p = 2 * (ma * mb);
    let k = p / (SCALE as int) + 1;
    assert(ma * mb >= 0) by (nonlinear_arith)
        requires
            0 <= ma,
            0 <= mb,
    ;
    vstd::arithmetic::div_mod::lemma_div_pos_is_pos(p, SCALE as int);
    vstd::arithmetic::div_mod::lemma_fundamental_div_mod(p, SCALE as int);
    vstd::arithmetic::div_mod::lemma_mod_bound(p, SCALE as int);
    assert(p <= k * (SCALE as int)) by (nonlinear_arith)
        requires
            p == (SCALE as int) * (p / (SCALE as int)) + p % (SCALE as int),
            p % (SCALE as int) < (SCALE as int),
            k == p / (SCALE as int) + 1,
    ;
    crate::fixed::lemma_mul_bounds(a.y, b.z, ma, mb);
    crate::fixed::lemma_mul_bounds(a.z, b.y, ma, mb);
    crate::fixed::lemma_mul_bounds(a.z, b.x, ma, mb);
    crate::fixed::lemma_mul_bounds(a.x, b.z, ma, mb);
    crate::fixed::lemma_mul_bounds(a.x, b.y, ma, mb);
    crate::fixed::lemma_mul_bounds(a.y, b.x, ma, mb);
    crate::fixed::lemma_div_tr_quotient_bound(a.y * b.z - a.z * b.y, SCALE as int, k);
    crate::fixed::lemma_div_tr_quotient_bound(a.z * b.x - a.x * b.z, SCALE as int, k);
    crate::fixed::lemma_div_tr_quotient_bound(a.x * b.y - a.y * b.x, SCALE as int, k);
}

/// The fixed-point dot product of two bounded vectors lies within
/// `3 * ma * mb / SCALE + 1`.
pub proof fn lemma_dot_bounds(a: V3, b: V3, ma: int, mb: int)
    requires
        within(a, ma),
        within(b, mb),
        0 <= ma,
        0 <= mb,
    ensures
        -(3 * (ma * mb) / (SCALE as int) + 1) <= dot_v(a, b)
            <= 3 * (ma * mb) / (SCALE as int) + 1,
{
    let p = 3 * (ma * mb);
    let k = p / (SCALE as int) + 1;
    assert(ma * mb >= 0) by (nonlinear_arith)
        requires
            0 <= ma,
            0 <= mb,
    ;
    vstd::arithmetic::div_mod::lemma_div_pos_is_pos(p, SCALE as int);
    vstd::arithmetic::div_mod::lemma_fundamental_div_mod(p, SCALE as int);
    vstd::arithmetic::div_mod::lemma_mod_bound(p, SCALE as int);
    assert(p <= k * (SCALE as int)) by (nonlinear_arith)
        requires
            p == (SCALE as int) * (p / (SCALE as int)) + p % (SCALE as int),
            p % (SCALE as int) < (SCALE as int),
            k == p / (SCALE as int) + 1,
    ;
    crate::fixed::lemma_mul_bounds(a.x, b.x, ma, mb);
    crate::fixed::lemma_mul_bounds(a.y, b.y, ma, mb);
    crate::fixed::lemma_mul_bounds(a.z, b.z, ma, mb);
    crate::fixed::lemma_div_tr_quotient_bound(
        a.x * b.x + a.y * b.y + a.z * b.z,
        SCALE as int,
        k,
    );
}

/// A vector whose coordinates lie within `m` has length at most `2 * m`.
pub proof fn lemma_len_within(x: int, y: int, z: int, m: int, l: int)
    by (nonlinear_arith)
    requires
        -m <= x <= m,
        -m <= y <= m,
        -m <= z <= m,
        0 <= m,
        0 <= l,
        l * l <= x * x + y * y + z * z,
    ensures
        l <= 2 * m,
{
}

/// A coordinate of a vector is never larger in magnitude than the vector's
/// floor-square-root length: `x * x + rest` lies under `(l + 1)^2`, so `x`
/// lies within `l`.
proof fn lemma_component_within_len(x: int, rest: int, l: int)
    by (nonlinear_arith)
    requires
        rest >= 0,
        0 <= l,
        x * x + rest < (l + 1) * (l + 1),
    ensures
        -l <= x <= l,
{
}

/// Dividing `x * SCALE` by `l` stays within one fixed-point unit when
/// `|x| <= l`.
proof fn lemma_unit_coordinate(x: int, l: int)
    requires
        1 <= l,
        -l <= x <= l,
    ensures
        -(SCALE as int) <= div_tr(x * SCALE as int, l) <= SCALE as int,
{
    crate::fixed::lemma_mul_bounds(x, SCALE as int, l, SCALE as int);
    crate::fixed::lemma_div_tr_bounds(x * SCALE as int, l, l * SCALE as int);
    lemma_div_by_multiple(SCALE as int, l);
    assert(l * SCALE as int == SCALE as int * l) by (nonlinear_arith);
}

} // verus!
