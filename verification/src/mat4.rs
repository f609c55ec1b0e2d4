//! Fixed-point 4-vectors and column-major 4x4 matrices, with their exact
//! integer models.

use vstd::prelude::*;
use crate::fixed::{descale_wide, div_tr, wide_mul_big, SCALE};

verus! {

/// A homogeneous coordinate vector in fixed point.
#[derive(Clone, Copy, Debug, PartialEq, Eq, Structural)]
pub struct Vec4 {
    pub x: i64,
    pub y: i64,
    pub z: i64,
    pub w: i64,
}

/// Mathematical model of a 4-vector.
pub struct V4 {
    pub x: int,
    pub y: int,
    pub z: int,
    pub w: int,
}

impl View for Vec4 {
    type V = V4;

    open spec fn view(&self) -> V4 {
        V4 { x: self.x as int, y: self.y as int, z: self.z as int, w: self.w as int }
    }
}

/// A 4x4 matrix stored column-major: `x` to `w` are the columns.
#[derive(Clone, Copy, Debug, PartialEq, Eq, Structural)]
pub struct Mat4 {
    pub x: Vec4,
    pub y: Vec4,
    pub z: Vec4,
    pub w: Vec4,
}

/// Mathematical model of a matrix: four model columns.
pub struct M4 {
    pub x: V4,
    pub y: V4,
    pub z: V4,
    pub w: V4,
}

impl View for Mat4 {
    type V = M4;

    open spec fn view(&self) -> M4 {
        M4 { x: self.x@, y: self.y@, z: self.z@, w: self.w@ }
    }
}

/// All four coordinates lie within `m` in magnitude.
pub open spec fn within4(v: V4, m: int) -> bool {
    &&& -m <= v.x <= m
    &&& -m <= v.y <= m
    &&& -m <= v.z <= m
    &&& -m <= v.w <= m
}

/// Every entry of the matrix lies within `m` in magnitude.
pub open spec fn mat_within(a: M4, m: int) -> bool {
    &&& within4(a.x, m)
    &&& within4(a.y, m)
    &&& within4(a.z, m)
    &&& within4(a.w, m)
}

/// The matrix applied to a column vector, with one fixed-point rounding per
/// coordinate.
pub open spec fn transform_v(a: M4, v: V4) -> V4 {
    V4 {
        x: div_tr(a.x.x * v.x + a.y.x * v.y + a.z.x * v.z + a.w.x * v.w, SCALE as int),
        y: div_tr(a.x.y * v.x + a.y.y * v.y + a.z.y * v.z + a.w.y * v.w, SCALE as int),
        z: div_tr(a.x.z * v.x + a.y.z * v.y + a.z.z * v.z + a.w.z * v.w, SCALE as int),
        w: div_tr(a.x.w * v.x + a.y.w * v.y + a.z.w * v.z + a.w.w * v.w, SCALE as int),
    }
}

/// Matrix product, column by column: each column of `b` is transformed by
/// `a`.
pub open spec fn mat_mul_v(a: M4, b: M4) -> M4 {
    M4 {
        x: transform_v(a, b.x),
        y: transform_v(a, b.y),
        z: transform_v(a, b.z),
        w: transform_v(a, b.w),
    }
}

/// The identity matrix (ones on the diagonal, in fixed point).
pub open spec fn spec_identity() -> M4 {
    M4 {
        x: V4 { x: SCALE as int, y: 0, z: 0, w: 0 },
        y: V4 { x: 0, y: SCALE as int, z: 0, w: 0 },
        z: V4 { x: 0, y: 0, z: SCALE as int, w: 0 },
        w: V4 { x: 0, y: 0, z: 0, w: SCALE as int },
    }
}

/// Entry bound under which a matrix may be applied to a vector.
pub const MAT_LIMIT: i64 = 0x40_0000_0000;

/// Coordinate bound under which a vector may be transformed.
pub const VEC4_LIMIT: i64 = 0x2_0000_0000;

impl Mat4 {
    /// The identity matrix.
    pub fn identity() -> (r: Mat4)
        ensures
            r@ == spec_identity(),
    {
        Mat4 {
            x: Vec4 { x: SCALE, y: 0, z: 0, w: 0 },
            y: Vec4 { x: 0, y: SCALE, z: 0, w: 0 },
            z: Vec4 { x: 0, y: 0, z: SCALE, w: 0 },
            w: Vec4 { x: 0, y: 0, z: 0, w: SCALE },
        }
    }

    /// Applies the matrix to a column vector.
    pub fn transform(&self, v: &Vec4) -> (r: Vec4)
        requires
            mat_within(self@, MAT_LIMIT as int),
            within4(v@, VEC4_LIMIT as int),
        ensures
            r@ == transform_v(self@, v@),
            within4(r@, 0x4000_0000_0000_0000),
    {
        let rx = descale_wide(
            wide_mul_big(self.x.x, v.x) + wide_mul_big(self.y.x, v.y)
                + wide_mul_big(self.z.x, v.z) + wide_mul_big(self.w.x, v.w),
        );
        let ry = descale_wide(
            wide_mul_big(self.x.y, v.x) + wide_mul_big(self.y.y, v.y)
                + wide_mul_big(self.z.y, v.z) + wide_mul_big(self.w.y, v.w),
        );
        let rz = descale_wide(
            wide_mul_big(self.x.z, v.x) + wide_mul_big(self.y.z, v.y)
                + wide_mul_big(self.z.z, v.z) + wide_mul_big(self.w.z, v.w),
        );
        let rw = descale_wide(
            wide_mul_big(self.x.w, v.x) + wide_mul_big(self.y.w, v.y)
                + wide_mul_big(self.z.w, v.z) + wide_mul_big(self.w.w, v.w),
        );
        Vec4 { x: rx, y: ry, z: rz, w: rw }
    }

    /// The matrix product `self * o`.
    pub fn multiply(&self, o: &Mat4) -> (r: Mat4)
        requires
            mat_within(self@, MAT_LIMIT as int),
            mat_within(o@, VEC4_LIMIT as int),
        ensures
            r@ == mat_mul_v(self@, o@),
            mat_within(r@, 0x4000_0000_0000_0000),
    {
        Mat4 {
            x: self.transform(&o.x),
            y: self.transform(&o.y),
            z: self.transform(&o.z),
            w: self.transform(&o.w),
        }
    }
}

} // verus!
