//! The camera's validity check and its view-projection matrix.

use voxel_game::camera::{Camera, CameraUniform};
use voxel_game::mat4::Vec4;
use voxel_game::vec3::Vec3;

/// The tutorial scene in fixed point: eye (0, 1, 1.3), target at the
/// origin, y up, aspect 1.2, a 70 degree field of view and clipping planes
/// at 0.1 and 1000.
fn scene_camera() -> Camera {
    Camera {
        eye: Vec3::new(0, 65536, 85197),
        target: Vec3::new(0, 0, 0),
        up: Vec3::new(0, 65536, 0),
        aspect: 78643,
        fov: 70,
        near: 6554,
        far: 65_536_000,
    }
}

#[test]
fn the_scene_camera_is_valid() {
    assert!(scene_camera().is_valid());
}

#[test]
fn degenerate_cameras_are_rejected() {
    let mut c = scene_camera();
    c.eye = c.target;
    assert!(!c.is_valid());

    let mut c = scene_camera();
    c.up = Vec3::new(0, 0, 65536);
    c.eye = Vec3::new(0, 0, 85197);
    // up parallel to the viewing direction
    assert!(!c.is_valid());

    let mut c = scene_camera();
    c.fov = 0;
    assert!(!c.is_valid());
    c.fov = 180;
    assert!(!c.is_valid());

    let mut c = scene_camera();
    c.aspect = 0;
    assert!(!c.is_valid());

    let mut c = scene_camera();
    c.near = 0;
    assert!(!c.is_valid());

    let mut c = scene_camera();
    c.far = c.near;
    assert!(!c.is_valid());
}

#[test]
fn view_projection_is_reproducible_bit_for_bit() {
    let cam = scene_camera();
    let m1 = cam.compute_view_projection();
    let m2 = cam.compute_view_projection();
    assert_eq!(m1, m2);
}

#[test]
fn uniform_starts_as_identity_and_follows_the_camera() {
    let mut u = CameraUniform::new();
    assert_eq!(u.view_proj.x.x, 65536);
    assert_eq!(u.view_proj.y.y, 65536);
    assert_eq!(u.view_proj.z.z, 65536);
    assert_eq!(u.view_proj.w.w, 65536);
    assert_eq!(u.view_proj.x.y, 0);
    assert_eq!(u.view_proj.w.z, 0);

    let cam = scene_camera();
    u.update_view_proj(&cam);
    assert_eq!(u.view_proj, cam.compute_view_projection());
}

#[test]
fn the_target_projects_to_a_depth_between_the_planes() {
    // The transformed target's w coordinate is the view-space depth; it
    // must land strictly between the near and the far plane.
    let cam = scene_camera();
    let m = cam.compute_view_projection();
    let clip = m.transform(&Vec4 { x: 0, y: 0, z: 0, w: 65536 });
    assert!(clip.w > cam.near, "depth {} not beyond the near plane", clip.w);
    assert!(clip.w < cam.far, "depth {} not before the far plane", clip.w);
    // and it is in fact the eye-to-target distance, up to rounding
    assert!((clip.w - 107487).abs() <= 8);
}

#[test]
fn moving_the_camera_changes_the_matrix() {
    let cam = scene_camera();
    let mut moved = cam;
    moved.eye = Vec3::new(0, 65536, 131072);
    assert!(moved.is_valid());
    assert!(cam.compute_view_projection() != moved.compute_view_projection());
}
