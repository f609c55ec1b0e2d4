//! Host decisions: resize handling, frame-failure recovery and event
//! routing.

use voxel_game::events::{route_event, HostAction, InputEvent, Key};
use voxel_game::host::{
    aspect_ratio, preferred_format_index, recovery_action, RecoveryAction, RenderFailure,
    SurfaceSize,
};

#[test]
fn resize_with_a_zero_dimension_is_a_no_op() {
    let mut s = SurfaceSize { width: 720, height: 600 };
    assert!(!s.apply_resize(0, 0));
    assert_eq!(s, SurfaceSize { width: 720, height: 600 });
    assert!(!s.apply_resize(0, 480));
    assert_eq!(s, SurfaceSize { width: 720, height: 600 });
    assert!(!s.apply_resize(640, 0));
    assert_eq!(s, SurfaceSize { width: 720, height: 600 });
}

#[test]
fn resize_with_a_proper_size_is_stored() {
    let mut s = SurfaceSize { width: 720, height: 600 };
    assert!(s.apply_resize(1024, 768));
    assert_eq!(s, SurfaceSize { width: 1024, height: 768 });
}

#[test]
fn every_render_failure_has_its_recovery() {
    assert_eq!(recovery_action(&RenderFailure::Lost), RecoveryAction::ReconfigureSurface);
    assert_eq!(recovery_action(&RenderFailure::Outdated), RecoveryAction::ReconfigureSurface);
    assert_eq!(recovery_action(&RenderFailure::OutOfMemory), RecoveryAction::Terminate);
    assert_eq!(recovery_action(&RenderFailure::Timeout), RecoveryAction::SkipFrame);
}

#[test]
fn consumed_events_are_dropped() {
    assert_eq!(route_event(true, &InputEvent::CloseRequested), HostAction::Ignore);
    assert_eq!(route_event(true, &InputEvent::RedrawRequested), HostAction::Ignore);
}

#[test]
fn unconsumed_events_are_routed() {
    assert_eq!(route_event(false, &InputEvent::CloseRequested), HostAction::Exit);
    assert_eq!(
        route_event(false, &InputEvent::Keyboard { key: Key::Escape, pressed: true }),
        HostAction::Exit,
    );
    assert_eq!(
        route_event(false, &InputEvent::Keyboard { key: Key::Escape, pressed: false }),
        HostAction::Ignore,
    );
    assert_eq!(
        route_event(false, &InputEvent::Keyboard { key: Key::KeyW, pressed: true }),
        HostAction::Ignore,
    );
    assert_eq!(
        route_event(false, &InputEvent::Resized { width: 800, height: 600 }),
        HostAction::Resize { width: 800, height: 600 },
    );
    assert_eq!(route_event(false, &InputEvent::RedrawRequested), HostAction::RenderFrame);
    assert_eq!(route_event(false, &InputEvent::Other), HostAction::Ignore);
}

#[test]
fn the_first_srgb_format_wins() {
    assert_eq!(preferred_format_index(&vec![false, true, true]), 1);
    assert_eq!(preferred_format_index(&vec![true, false]), 0);
    assert_eq!(preferred_format_index(&vec![false, false, false]), 0);
    assert_eq!(preferred_format_index(&vec![false]), 0);
}

#[test]
fn aspect_ratio_is_exact() {
    // 720 / 600 == 1.2 == 78643.2 fixed-point units, truncated
    assert_eq!(aspect_ratio(720, 600), 78643);
    assert_eq!(aspect_ratio(1, 3), 21845);
    assert_eq!(aspect_ratio(600, 600), 65536);
    assert_eq!(aspect_ratio(0, 600), 0);
}
