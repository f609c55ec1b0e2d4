//! The camera: eye, target and up vectors plus the projection parameters,
//! the validity conditions under which its matrix and the per-frame update
//! are defined, and the view-projection computation itself.
//!
//! The view-projection matrix is built exactly as the specification of the
//! renderer asks: a right-handed look-at view basis, a right-handed
//! perspective projection, and their product with the projection applied
//! after the view.

use vstd::prelude::*;
use crate::fixed::{
    div_fp, div_tr, lemma_div_tr_quotient_bound, lemma_mul_fp_bounds, mul_fp, SCALE,
};
use crate::mat4::{
    mat_mul_v, mat_within, spec_identity, Mat4, Vec4, M4, V4, MAT_LIMIT, VEC4_LIMIT,
};
use crate::trig::{focal, half_rad, sin_fp, spec_focal, spec_half_rad, spec_sin_fp};
use crate::vec3::{
    cross_v, dot_v, len_v, lemma_cross_bounds, lemma_dot_bounds, norm_v, sub_v, within, Vec3,
    V3,
};

verus! {

/// World-box bound on the camera's position vectors.
pub const COORD_LIMIT: i64 = 0x4000_0000;

/// Upper bound on the far clipping plane.
pub const DEPTH_LIMIT: i64 = 0x400_0000;

/// Smallest accepted aspect ratio (one sixteenth).
pub const ASPECT_MIN: i64 = 0x1000;

/// Largest accepted aspect ratio.
pub const ASPECT_MAX: i64 = 0x400_0000;

/// Upper bound on the focal length of a valid camera.
pub const FOCAL_LIMIT: i64 = 0x800_0000;

/// The viewer: where it stands, what it looks at, which way is up, and the
/// parameters of the perspective projection.  All lengths are fixed-point;
/// the field of view is in whole degrees.
#[derive(Clone, Copy, Debug, PartialEq, Eq, Structural)]
pub struct Camera {
    pub eye: Vec3,
    pub target: Vec3,
    pub up: Vec3,
    pub aspect: i64,
    pub fov: u32,
    pub near: i64,
    pub far: i64,
}

/// The right-handed look-at view matrix: the orthonormal-ish basis built
/// from the viewing direction `f`, the side vector `s` and the true up
/// vector `u`, with the eye translated into that basis.
pub open spec fn spec_look_at(eye: V3, target: V3, up: V3) -> M4 {
    let f = norm_v(sub_v(target, eye));
    let s = norm_v(cross_v(f, up));
    let u = cross_v(s, f);
    M4 {
        x: V4 { x: s.x, y: u.x, z: -f.x, w: 0 },
        y: V4 { x: s.y, y: u.y, z: -f.y, w: 0 },
        z: V4 { x: s.z, y: u.z, z: -f.z, w: 0 },
        w: V4 {
            x: -dot_v(s, eye),
            y: -dot_v(u, eye),
            z: dot_v(f, eye),
            w: SCALE as int,
        },
    }
}

/// The right-handed perspective projection with the given focal length,
/// aspect ratio and clipping planes.
pub open spec fn spec_perspective(fl: int, aspect: int, near: int, far: int) -> M4 {
    M4 {
        x: V4 { x: div_tr(fl * SCALE as int, aspect), y: 0, z: 0, w: 0 },
        y: V4 { x: 0, y: fl, z: 0, w: 0 },
        z: V4 {
            x: 0,
            y: 0,
            z: -div_tr((far + near) * SCALE as int, far - near),
            w: -(SCALE as int),
        },
        w: V4 {
            x: 0,
            y: 0,
            z: -div_tr((2 * div_tr(far * near, SCALE as int)) * SCALE as int, far - near),
            w: 0,
        },
    }
}

/// The combined transform: projection applied after the view.
pub open spec fn spec_view_projection(cam: Camera) -> M4 {
    mat_mul_v(
        spec_perspective(
            spec_focal(cam.fov as int),
            cam.aspect as int,
            cam.near as int,
            cam.far as int,
        ),
        spec_look_at(cam.eye@, cam.target@, cam.up@),
    )
}

/// The view-projection matrix is a function of the camera alone, so
/// computing it twice from an unchanged camera yields the identical
/// matrix.
pub proof fn lemma_view_projection_deterministic(cam: Camera, m1: M4, m2: M4)
    requires
        m1 == spec_view_projection(cam),
        m2 == spec_view_projection(cam),
    ensures
        m1 == m2,
{
}

impl Camera {
    /// Every field lies in the range the fixed-point arithmetic supports:
    /// positions inside the world box, the aspect ratio and the clipping
    /// planes inside their machine-imposed windows, the field of view
    /// strictly between zero and a straight angle, and the far plane at
    /// least twice the near plane.
    pub open spec fn bounded(self) -> bool {
        &&& within(self.eye@, COORD_LIMIT as int)
        &&& within(self.target@, COORD_LIMIT as int)
        &&& within(self.up@, COORD_LIMIT as int)
        &&& ASPECT_MIN <= self.aspect <= ASPECT_MAX
        &&& 1 <= self.fov <= 179
        &&& 1 <= self.near
        &&& 2 * self.near <= self.far <= DEPTH_LIMIT
    }

    /// The viewing geometry is non-degenerate: the eye does not coincide
    /// with the target, and the up vector is not parallel to the viewing
    /// direction (their cross product does not vanish).
    pub open spec fn oriented(self) -> bool {
        &&& len_v(sub_v(self.target@, self.eye@)) >= 1
        &&& len_v(cross_v(norm_v(sub_v(self.target@, self.eye@)), self.up@)) >= 1
    }

    /// The field of view admits a focal length: the sine of the half angle
    /// is positive and the focal length stays in range.
    pub open spec fn focusable(self) -> bool {
        &&& spec_sin_fp(spec_half_rad(self.fov as int)) >= 1
        &&& -FOCAL_LIMIT <= spec_focal(self.fov as int) <= FOCAL_LIMIT
    }

    /// A camera on which the view-projection matrix and the controller
    /// update are defined.
    pub open spec fn valid(self) -> bool {
        self.bounded() && self.oriented() && self.focusable()
    }

    /// Runtime check of `valid`, for callers that assembled the camera
    /// from unchecked values.
    pub fn is_valid(&self) -> (r: bool)
        ensures
            r == self.valid(),
    {
        let b = self.eye.x <= COORD_LIMIT && self.eye.x >= -COORD_LIMIT
            && self.eye.y <= COORD_LIMIT && self.eye.y >= -COORD_LIMIT
            && self.eye.z <= COORD_LIMIT && self.eye.z >= -COORD_LIMIT
            && self.target.x <= COORD_LIMIT && self.target.x >= -COORD_LIMIT
            && self.target.y <= COORD_LIMIT && self.target.y >= -COORD_LIMIT
            && self.target.z <= COORD_LIMIT && self.target.z >= -COORD_LIMIT
            && self.up.x <= COORD_LIMIT && self.up.x >= -COORD_LIMIT
            && self.up.y <= COORD_LIMIT && self.up.y >= -COORD_LIMIT
            && self.up.z <= COORD_LIMIT && self.up.z >= -COORD_LIMIT
            && self.aspect >= ASPECT_MIN && self.aspect <= ASPECT_MAX
            && self.fov >= 1 && self.fov <= 179
            && self.near >= 1 && self.near <= DEPTH_LIMIT && self.far >= 2 * self.near
            && self.far <= DEPTH_LIMIT;
        if !b {
            return false;
        }
        let fwd = self.target.sub(self.eye);
        let l1 = fwd.length();
        if l1 == 0 {
            return false;
        }
        let dir = fwd.normalized();
        let c = dir.cross(self.up);
        proof {
            lemma_cross_bounds(dir@, self.up@, SCALE as int, COORD_LIMIT as int);
        }
        let lc = c.length();
        if lc == 0 {
            return false;
        }
        let s = sin_fp(half_rad(self.fov));
        if s <= 0 {
            return false;
        }
        let fl = focal(self.fov);
        fl >= -FOCAL_LIMIT && fl <= FOCAL_LIMIT
    }

    /// The look-at view matrix of this camera.
    pub fn look_at_matrix(&self) -> (r: Mat4)
        requires
            self.bounded(),
            self.oriented(),
        ensures
            r@ == spec_look_at(self.eye@, self.target@, self.up@),
            mat_within(r@, VEC4_LIMIT as int),
    {
        let fv = self.target.sub(self.eye);
        let f = fv.normalized();
        let c = f.cross(self.up);
        proof {
            lemma_cross_bounds(f@, self.up@, SCALE as int, COORD_LIMIT as int);
        }
        let s = c.normalized();
        let u = s.cross(f);
        proof {
            lemma_cross_bounds(s@, f@, SCALE as int, SCALE as int);
        }
        let se = s.dot(self.eye);
        let ue = u.dot(self.eye);
        let fe = f.dot(self.eye);
        proof {
            lemma_dot_bounds(s@, self.eye@, SCALE as int, COORD_LIMIT as int);
            lemma_dot_bounds(u@, self.eye@, 2 * SCALE as int + 1, COORD_LIMIT as int);
            lemma_dot_bounds(f@, self.eye@, SCALE as int, COORD_LIMIT as int);
        }
        Mat4 {
            x: Vec4 { x: s.x, y: u.x, z: -f.x, w: 0 },
            y: Vec4 { x: s.y, y: u.y, z: -f.y, w: 0 },
            z: Vec4 { x: s.z, y: u.z, z: -f.z, w: 0 },
            w: Vec4 { x: -se, y: -ue, z: fe, w: SCALE },
        }
    }

    /// The perspective projection matrix of this camera.
    pub fn perspective_matrix(&self) -> (r: Mat4)
        requires
            self.bounded(),
            self.focusable(),
        ensures
            r@ == spec_perspective(
                spec_focal(self.fov as int),
                self.aspect as int,
                self.near as int,
                self.far as int,
            ),
            mat_within(r@, MAT_LIMIT as int),
    {
        let fl = focal(self.fov);
        let fa = div_fp(fl, self.aspect);
        proof {
            lemma_div_tr_quotient_bound(
                fl as int * SCALE as int,
                self.aspect as int,
                0x8000_0000,
            );
        }
        let dz = div_fp(self.far + self.near, self.far - self.near);
        proof {
            lemma_div_tr_quotient_bound(
                (self.far + self.near) as int * SCALE as int,
                (self.far - self.near) as int,
                3 * SCALE as int,
            );
        }
        let fn2 = mul_fp(self.far, self.near);
        proof {
            lemma_mul_fp_bounds(
                self.far as int,
                self.near as int,
                DEPTH_LIMIT as int,
                DEPTH_LIMIT as int,
            );
            assert(self.far as int * self.near as int >= 0) by (nonlinear_arith)
                requires
                    self.far >= 1,
                    self.near >= 1,
            ;
            vstd::arithmetic::div_mod::lemma_div_pos_is_pos(
                self.far as int * self.near as int,
                SCALE as int,
            );
            vstd::arithmetic::div_mod::lemma_fundamental_div_mod(
                self.far as int * self.near as int,
                SCALE as int,
            );
            vstd::arithmetic::div_mod::lemma_mod_bound(
                self.far as int * self.near as int,
                SCALE as int,
            );
            assert(2 * (self.far as int * self.near as int)
                <= (4 * self.near as int) * (self.far as int - self.near as int))
                by (nonlinear_arith)
                requires
                    self.far >= 2 * self.near,
                    self.near >= 1,
            ;
        }
        let dw = div_fp(2 * fn2, self.far - self.near);
        proof {
            lemma_div_tr_quotient_bound(
                (2 * fn2) as int * SCALE as int,
                (self.far - self.near) as int,
                4 * self.near as int,
            );
        }
        Mat4 {
            x: Vec4 { x: fa, y: 0, z: 0, w: 0 },
            y: Vec4 { x: 0, y: fl, z: 0, w: 0 },
            z: Vec4 { x: 0, y: 0, z: -dz, w: -SCALE },
            w: Vec4 { x: 0, y: 0, z: -dw, w: 0 },
        }
    }

    /// The combined view-projection matrix, exactly as specified: the
    /// perspective projection multiplied onto the look-at view.
    pub fn compute_view_projection(&self) -> (r: Mat4)
        requires
            self.valid(),
        ensures
            r@ == spec_view_projection(*self),
            mat_within(r@, 0x4000_0000_0000_0000),
    {
        let p = self.perspective_matrix();
        let v = self.look_at_matrix();
        p.multiply(&v)
    }
}

/// The camera matrix in the exact shape the GPU uniform buffer carries:
/// one combined view-projection matrix, recomputed from the camera every
/// frame and never mutated independently.
#[derive(Clone, Copy, Debug, PartialEq, Eq, Structural)]
pub struct CameraUniform {
    pub view_proj: Mat4,
}

impl CameraUniform {
    /// Starts as the identity transform.
    pub fn new() -> (r: CameraUniform)
        ensures
            r.view_proj@ == spec_identity(),
    {
        CameraUniform { view_proj: Mat4::identity() }
    }

    /// Replaces the stored matrix by the camera's current view-projection
    /// transform.
    pub fn update_view_proj(&mut self, camera: &Camera)
        requires
            camera.valid(),
        ensures
            final(self).view_proj@ == spec_view_projection(*camera),
    {
        self.view_proj = camera.compute_view_projection();
    }
}

} // verus!
