//! The camera controller: key handling and the per-frame update.

use voxel_game::camera::Camera;
use voxel_game::controller::CameraController;
use voxel_game::events::{InputEvent, Key};
use voxel_game::vec3::Vec3;

/// The tutorial scene: eye at (0, 1, 1.3), looking at the origin, y up,
/// in fixed-point units.
fn scene_camera() -> Camera {
    Camera {
        eye: Vec3::new(0, 65536, 85197),
        target: Vec3::new(0, 0, 0),
        up: Vec3::new(0, 65536, 0),
        aspect: 78643,
        fov: 70,
        near: 6554,
        far: 65_536_000,
    }
}

fn distance_to_target(c: &Camera) -> i64 {
    c.target.sub(c.eye).length()
}

#[test]
fn new_controller_starts_idle() {
    let c = CameraController::new(13107);
    assert_eq!(c.speed, 13107);
    assert!(!c.forward_pressed);
    assert!(!c.backward_pressed);
    assert!(!c.left_pressed);
    assert!(!c.right_pressed);
}

#[test]
fn movement_keys_set_and_clear_their_flags() {
    let mut c = CameraController::new(13107);
    assert!(c.process_events(&InputEvent::Keyboard { key: Key::KeyW, pressed: true }));
    assert!(c.forward_pressed);
    assert!(c.process_events(&InputEvent::Keyboard { key: Key::KeyW, pressed: false }));
    assert!(!c.forward_pressed);

    assert!(c.process_events(&InputEvent::Keyboard { key: Key::ArrowUp, pressed: true }));
    assert!(c.forward_pressed);

    assert!(c.process_events(&InputEvent::Keyboard { key: Key::KeyA, pressed: true }));
    assert!(c.left_pressed);
    assert!(c.process_events(&InputEvent::Keyboard { key: Key::ArrowLeft, pressed: false }));
    assert!(!c.left_pressed);

    assert!(c.process_events(&InputEvent::Keyboard { key: Key::KeyS, pressed: true }));
    assert!(c.backward_pressed);
    assert!(c.process_events(&InputEvent::Keyboard { key: Key::ArrowDown, pressed: false }));
    assert!(!c.backward_pressed);

    assert!(c.process_events(&InputEvent::Keyboard { key: Key::KeyD, pressed: true }));
    assert!(c.right_pressed);
    assert!(c.process_events(&InputEvent::Keyboard { key: Key::ArrowRight, pressed: false }));
    assert!(!c.right_pressed);
}

#[test]
fn other_events_are_not_consumed() {
    let mut c = CameraController::new(13107);
    let before = c;
    assert!(!c.process_events(&InputEvent::Keyboard { key: Key::Escape, pressed: true }));
    assert!(!c.process_events(&InputEvent::Keyboard { key: Key::Other, pressed: true }));
    assert!(!c.process_events(&InputEvent::CloseRequested));
    assert!(!c.process_events(&InputEvent::Resized { width: 10, height: 10 }));
    assert!(!c.process_events(&InputEvent::RedrawRequested));
    assert!(!c.process_events(&InputEvent::Other));
    assert_eq!(c, before);
}

#[test]
fn forward_update_moves_eye_closer_by_one_step() {
    // Speed 0.2, distance about 1.64: one update takes the eye exactly one
    // step (up to fixed-point rounding) toward the target.
    let mut cam = scene_camera();
    let ctl = CameraController {
        speed: 13107,
        forward_pressed: true,
        backward_pressed: false,
        left_pressed: false,
        right_pressed: false,
    };
    let before = distance_to_target(&cam);
    assert_eq!(before, 107487);
    assert!(ctl.update_camera(&mut cam));
    let after = distance_to_target(&cam);
    assert!(after < before);
    let step = before - after;
    assert!(
        (step - 13107).abs() <= 8,
        "expected a step of 13107 fixed-point units, got {step}"
    );
    // everything but the eye is untouched
    assert_eq!(cam.target, Vec3::new(0, 0, 0));
    assert_eq!(cam.up, Vec3::new(0, 65536, 0));
    assert_eq!(cam.fov, 70);
}

#[test]
fn forward_update_is_clamped_near_the_target() {
    // Distance 13000 is within one step (13107): the eye must not move.
    let mut cam = scene_camera();
    cam.eye = Vec3::new(0, 13000, 0);
    let ctl = CameraController {
        speed: 13107,
        forward_pressed: true,
        backward_pressed: false,
        left_pressed: false,
        right_pressed: false,
    };
    let before = cam;
    assert!(ctl.update_camera(&mut cam));
    assert_eq!(cam, before);
}

#[test]
fn backward_update_moves_eye_away() {
    let mut cam = scene_camera();
    let ctl = CameraController {
        speed: 13107,
        forward_pressed: false,
        backward_pressed: true,
        left_pressed: false,
        right_pressed: false,
    };
    let before = distance_to_target(&cam);
    assert!(ctl.update_camera(&mut cam));
    let after = distance_to_target(&cam);
    let step = after - before;
    assert!(
        (step - 13107).abs() <= 8,
        "expected to recede by 13107 fixed-point units, got {step}"
    );
}

#[test]
fn strafe_preserves_distance_to_target() {
    let mut cam = scene_camera();
    let ctl = CameraController {
        speed: 13107,
        forward_pressed: false,
        backward_pressed: false,
        left_pressed: false,
        right_pressed: true,
    };
    let before = distance_to_target(&cam);
    assert!(ctl.update_camera(&mut cam));
    let after = distance_to_target(&cam);
    assert!(
        (after - before).abs() <= 32,
        "strafing changed the distance from {before} to {after}"
    );
    // the eye really moved sideways
    assert!(cam.eye != scene_camera().eye);

    // the same holds for a left strafe
    let mut cam2 = scene_camera();
    let ctl2 = CameraController { right_pressed: false, left_pressed: true, ..ctl };
    assert!(ctl2.update_camera(&mut cam2));
    let after2 = distance_to_target(&cam2);
    assert!((after2 - before).abs() <= 32);
}

#[test]
fn update_refuses_an_eye_on_the_target() {
    let mut cam = scene_camera();
    cam.eye = cam.target;
    let ctl = CameraController {
        speed: 13107,
        forward_pressed: true,
        backward_pressed: false,
        left_pressed: false,
        right_pressed: false,
    };
    let before = cam;
    assert!(!ctl.update_camera(&mut cam));
    assert_eq!(cam, before);
}

#[test]
fn idle_update_leaves_the_camera_alone() {
    let mut cam = scene_camera();
    let ctl = CameraController::new(13107);
    let before = cam;
    assert!(ctl.update_camera(&mut cam));
    assert_eq!(cam, before);
}
