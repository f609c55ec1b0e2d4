//! The fly-camera controller: key events set movement flags, and once per
//! frame `update_camera` nudges the camera's eye.
//!
//! The per-frame step is deliberately orbit-like: forward motion is
//! clamped so the eye never reaches the target, backward motion is
//! unclamped, and strafing moves the eye sideways and then pulls it back
//! onto the sphere of the current distance around the target.

use vstd::prelude::*;
use crate::camera::{Camera, COORD_LIMIT};
use crate::events::{InputEvent, Key};
use crate::fixed::SCALE;
use crate::vec3::{
    add_v, cross_v, len_v, lemma_cross_bounds, lemma_len_within, lemma_scale_unit_bounds,
    norm_v, scale_v, sub_v, within, V3,
};

verus! {

/// Upper bound on the movement speed.
pub const SPEED_LIMIT: i64 = 0x400_0000;

/// Movement state: one fixed-point step length and one flag per held
/// movement key.  The flags persist until the matching release event.
#[derive(Clone, Copy, Debug, PartialEq, Eq, Structural)]
pub struct CameraController {
    pub speed: i64,
    pub forward_pressed: bool,
    pub backward_pressed: bool,
    pub left_pressed: bool,
    pub right_pressed: bool,
}

/// The vector from the eye to the target before the update.
pub open spec fn spec_forward(cam: Camera) -> V3 {
    sub_v(cam.target@, cam.eye@)
}

/// The eye after the forward and backward branches.  Forward motion only
/// fires while the target is strictly farther away than one step; backward
/// motion always fires.  Both move along the initial viewing direction.
pub open spec fn spec_eye_axial(ctl: CameraController, cam: Camera) -> V3 {
    let fwd = spec_forward(cam);
    let dir = norm_v(fwd);
    let step = scale_v(dir, ctl.speed as int);
    let e1 = if ctl.forward_pressed && len_v(fwd) > ctl.speed {
        add_v(cam.eye@, step)
    } else {
        cam.eye@
    };
    if ctl.backward_pressed {
        sub_v(e1, step)
    } else {
        e1
    }
}

/// The eye after the whole update.  Strafing uses the eye-to-target vector
/// recomputed after the axial branches, moves it sideways along the right
/// vector, and rescales the result to the recomputed distance, so a pure
/// strafe orbits the target.  When both strafe flags are held the left
/// branch overwrites the right branch's result.
pub open spec fn spec_eye_final(ctl: CameraController, cam: Camera) -> V3 {
    let dir = norm_v(spec_forward(cam));
    let right = norm_v(cross_v(dir, cam.up@));
    let e2 = spec_eye_axial(ctl, cam);
    let f2 = sub_v(cam.target@, e2);
    let radius = len_v(f2);
    let off = scale_v(right, ctl.speed as int);
    let e3 = if ctl.right_pressed {
        sub_v(cam.target@, scale_v(norm_v(add_v(f2, off)), radius))
    } else {
        e2
    };
    if ctl.left_pressed {
        sub_v(cam.target@, scale_v(norm_v(sub_v(f2, off)), radius))
    } else {
        e3
    }
}

/// The update is defined: the eye is away from the target, the up vector is
/// not parallel to the viewing direction whenever a strafe needs the right
/// vector, the strafed directions do not vanish, and the resulting eye
/// stays inside the world box.
pub open spec fn spec_step_ok(ctl: CameraController, cam: Camera) -> bool {
    let fwd = spec_forward(cam);
    let dir = norm_v(fwd);
    let rcross = cross_v(dir, cam.up@);
    let e2 = spec_eye_axial(ctl, cam);
    let f2 = sub_v(cam.target@, e2);
    let off = scale_v(norm_v(rcross), ctl.speed as int);
    &&& len_v(fwd) >= 1
    &&& ((ctl.left_pressed || ctl.right_pressed) ==> len_v(rcross) >= 1)
    &&& (ctl.right_pressed ==> len_v(add_v(f2, off)) >= 1)
    &&& (ctl.left_pressed ==> len_v(sub_v(f2, off)) >= 1)
    &&& within(spec_eye_final(ctl, cam), COORD_LIMIT as int)
}

/// Forward approach is clamped: with only the forward key held and the
/// target at most one step away, the update leaves the eye exactly where
/// it stands, so the eye never reaches or crosses the target.
pub proof fn lemma_forward_clamp(ctl: CameraController, cam: Camera)
    requires
        ctl.forward_pressed,
        !ctl.backward_pressed,
        !ctl.left_pressed,
        !ctl.right_pressed,
        len_v(spec_forward(cam)) <= ctl.speed,
    ensures
        spec_eye_final(ctl, cam) == cam.eye@,
{
}

/// Forward motion only ever happens toward the target: with only the
/// forward key held and the target strictly farther away than one step,
/// the update adds exactly the rounded step along the unit viewing
/// direction to the eye.
pub proof fn lemma_forward_step(ctl: CameraController, cam: Camera)
    requires
        ctl.forward_pressed,
        !ctl.backward_pressed,
        !ctl.left_pressed,
        !ctl.right_pressed,
        len_v(spec_forward(cam)) > ctl.speed,
    ensures
        spec_eye_final(ctl, cam) == add_v(
            cam.eye@,
            scale_v(norm_v(spec_forward(cam)), ctl.speed as int),
        ),
{
}

/// A pure strafe orbits: with only the right strafe key held, the new eye
/// stands at the target minus the sideways-displaced viewing direction,
/// renormalised and rescaled to the eye-to-target distance measured before
/// the strafe.  The distance to the target is therefore preserved up to
/// the rounding of the renormalisation.
pub proof fn lemma_strafe_keeps_radius(ctl: CameraController, cam: Camera)
    requires
        !ctl.forward_pressed,
        !ctl.backward_pressed,
        !ctl.left_pressed,
        ctl.right_pressed,
    ensures
        spec_eye_final(ctl, cam) == sub_v(
            cam.target@,
            scale_v(
                norm_v(add_v(
                    spec_forward(cam),
                    scale_v(
                        norm_v(cross_v(norm_v(spec_forward(cam)), cam.up@)),
                        ctl.speed as int,
                    ),
                )),
                len_v(spec_forward(cam)),
            ),
        ),
{
}

impl CameraController {
    /// The speed is a nonnegative fixed-point step length within the
    /// supported range.
    pub open spec fn wf(self) -> bool {
        0 <= self.speed <= SPEED_LIMIT
    }

    /// A controller with the given speed and no key held.
    pub fn new(speed: i64) -> (r: CameraController)
        requires
            0 <= speed <= SPEED_LIMIT,
        ensures
            r.speed == speed,
            !r.forward_pressed,
            !r.backward_pressed,
            !r.left_pressed,
            !r.right_pressed,
            r.wf(),
    {
        CameraController {
            speed,
            forward_pressed: false,
            backward_pressed: false,
            left_pressed: false,
            right_pressed: false,
        }
    }

    /// The flag state after one key event: each movement key drives exactly
    /// one flag; any other key leaves the state unchanged.
    pub open spec fn spec_flags_after(self, key: Key, pressed: bool) -> CameraController {
        match key {
            Key::KeyW | Key::ArrowUp => CameraController { forward_pressed: pressed, ..self },
            Key::KeyA | Key::ArrowLeft => CameraController { left_pressed: pressed, ..self },
            Key::KeyS | Key::ArrowDown => CameraController { backward_pressed: pressed, ..self },
            Key::KeyD | Key::ArrowRight => CameraController { right_pressed: pressed, ..self },
            _ => self,
        }
    }

    /// Whether the controller consumes a key.
    pub open spec fn spec_consumes(key: Key) -> bool {
        match key {
            Key::KeyW | Key::ArrowUp | Key::KeyA | Key::ArrowLeft | Key::KeyS | Key::ArrowDown
                | Key::KeyD | Key::ArrowRight => true,
            _ => false,
        }
    }

    /// Follows the press and release of the four movement keys and reports
    /// whether the event was consumed; every other event is left to the
    /// caller and changes nothing.
    pub fn process_events(&mut self, event: &InputEvent) -> (r: bool)
        ensures
            match *event {
                InputEvent::Keyboard { key, pressed } => {
                    &&& *final(self) == old(self).spec_flags_after(key, pressed)
                    &&& r == Self::spec_consumes(key)
                },
                _ => *final(self) == *old(self) && !r,
            },
    {
        match *event {
            InputEvent::Keyboard { key, pressed } => match key {
                Key::KeyW | Key::ArrowUp => {
                    self.forward_pressed = pressed;
                    true
                },
                Key::KeyA | Key::ArrowLeft => {
                    self.left_pressed = pressed;
                    true
                },
                Key::KeyS | Key::ArrowDown => {
                    self.backward_pressed = pressed;
                    true
                },
                Key::KeyD | Key::ArrowRight => {
                    self.right_pressed = pressed;
                    true
                },
                _ => false,
            },
            _ => false,
        }
    }

    /// One frame's worth of movement.  When the step is defined the eye is
    /// replaced by `spec_eye_final` and every other camera field is kept;
    /// otherwise the camera is left untouched and `false` comes back.
    pub fn update_camera(&self, camera: &mut Camera) -> (r: bool)
        requires
            old(camera).bounded(),
            self.wf(),
        ensures
            r == spec_step_ok(*self, *old(camera)),
            r ==> final(camera).eye@ == spec_eye_final(*self, *old(camera)),
            r ==> final(camera).target == old(camera).target,
            r ==> final(camera).up == old(camera).up,
            r ==> final(camera).aspect == old(camera).aspect,
            r ==> final(camera).fov == old(camera).fov,
            r ==> final(camera).near == old(camera).near,
            r ==> final(camera).far == old(camera).far,
            r ==> final(camera).bounded(),
            !r ==> *final(camera) == *old(camera),
    {
        let fwd = camera.target.sub(camera.eye);
        let l1 = fwd.length();
        if l1 == 0 {
            return false;
        }
        let dir = fwd.normalized();
        let mut eye = camera.eye;
        if self.forward_pressed && l1 > self.speed {
            let step = dir.scale(self.speed);
            proof {
                lemma_scale_unit_bounds(dir@, self.speed as int, SPEED_LIMIT as int);
            }
            eye = eye.add(step);
        }
        if self.backward_pressed {
            let step = dir.scale(self.speed);
            proof {
                lemma_scale_unit_bounds(dir@, self.speed as int, SPEED_LIMIT as int);
            }
            eye = eye.sub(step);
        }
        if self.left_pressed || self.right_pressed {
            let rcross = dir.cross(camera.up);
            proof {
                lemma_cross_bounds(dir@, camera.up@, SCALE as int, COORD_LIMIT as int);
            }
            let lc = rcross.length();
            if lc == 0 {
                return false;
            }
            let right = rcross.normalized();
            let off = right.scale(self.speed);
            proof {
                lemma_scale_unit_bounds(right@, self.speed as int, SPEED_LIMIT as int);
            }
            let f2 = camera.target.sub(eye);
            let radius = f2.length();
            proof {
                lemma_len_within(
                    f2@.x,
                    f2@.y,
                    f2@.z,
                    2 * COORD_LIMIT as int + 2 * SPEED_LIMIT as int,
                    radius as int,
                );
            }
            if self.right_pressed {
                let comb = f2.add(off);
                let lcomb = comb.length();
                if lcomb == 0 {
                    return false;
                }
                let n = comb.normalized();
                let disp = n.scale(radius);
                proof {
                    lemma_scale_unit_bounds(
                        n@,
                        radius as int,
                        4 * COORD_LIMIT as int + 4 * SPEED_LIMIT as int,
                    );
                }
                eye = camera.target.sub(disp);
            }
            if self.left_pressed {
                let comb = f2.sub(off);
                let lcomb = comb.length();
                if lcomb == 0 {
                    return false;
                }
                let n = comb.normalized();
                let disp = n.scale(radius);
                proof {
                    lemma_scale_unit_bounds(
                        n@,
                        radius as int,
                        4 * COORD_LIMIT as int + 4 * SPEED_LIMIT as int,
                    );
                }
                eye = camera.target.sub(disp);
            }
        }
        if eye.x > COORD_LIMIT || eye.x < -COORD_LIMIT || eye.y > COORD_LIMIT
            || eye.y < -COORD_LIMIT || eye.z > COORD_LIMIT || eye.z < -COORD_LIMIT {
            return false;
        }
        camera.eye = eye;
        true
    }
}

} // verus!
