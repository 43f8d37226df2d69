//! Navigation behaviour: determinism of the forward/back formula, the
//! degenerate-forward policy, the orbit property of strafing, and which
//! events are consumed.

use render_core::camera::{Camera, NavCommand};
use render_core::events::{dispatch_event, Key, KeyState, LoopAction, SurfaceEvent};
use render_core::vec::Vec3Fx;

fn fx(v: f64) -> i64 {
    (v * 65536.0).round() as i64
}

fn fl(r: i64) -> f64 {
    (r as f64) / 65536.0
}

fn v3(x: f64, y: f64, z: f64) -> Vec3Fx {
    Vec3Fx { x: fx(x), y: fx(y), z: fx(z) }
}

fn test_camera() -> Camera {
    Camera {
        eye: v3(0.0, 1.0, 2.0),
        target: v3(0.0, 0.0, 0.0),
        up: v3(0.0, 1.0, 0.0),
        aspect: fx(16.0 / 9.0),
        fov_y: fx(45.0),
        z_near: fx(0.1),
        z_far: fx(100.0),
    }
}

fn press(key: Key) -> SurfaceEvent {
    SurfaceEvent::Keyboard { key, state: KeyState::Pressed }
}

#[test]
fn forward_moves_eye_along_normalized_forward() {
    let mut cam = test_camera();
    let speed = 0.5f64;
    let consumed = cam.input_move_camera(&press(Key::W), fx(speed));
    assert!(consumed);
    // expected: eye + normalize(target - eye) * speed, in f64
    let f = (0.0f64, -1.0f64, -2.0f64);
    let len = (f.0 * f.0 + f.1 * f.1 + f.2 * f.2).sqrt();
    let ex = 0.0 + f.0 / len * speed;
    let ey = 1.0 + f.1 / len * speed;
    let ez = 2.0 + f.2 / len * speed;
    assert!((fl(cam.eye.x) - ex).abs() < 1e-3);
    assert!((fl(cam.eye.y) - ey).abs() < 1e-3);
    assert!((fl(cam.eye.z) - ez).abs() < 1e-3);
}

#[test]
fn forward_then_back_returns_eye_within_tolerance() {
    let mut cam = test_camera();
    let start = cam.eye;
    let speed = fx(0.5);
    assert!(cam.input_move_camera(&press(Key::W), speed));
    assert!(cam.input_move_camera(&press(Key::S), speed));
    assert!((fl(cam.eye.x) - fl(start.x)).abs() < 1e-3);
    assert!((fl(cam.eye.y) - fl(start.y)).abs() < 1e-3);
    assert!((fl(cam.eye.z) - fl(start.z)).abs() < 1e-3);
}

#[test]
fn degenerate_forward_produces_no_motion() {
    for key in [Key::W, Key::S, Key::A, Key::D] {
        let mut cam = test_camera();
        cam.eye = v3(3.0, -2.0, 1.5);
        cam.target = cam.eye;
        let before = cam.eye;
        let consumed = cam.input_move_camera(&press(key), fx(5.0));
        assert!(consumed);
        assert_eq!(cam.eye, before);
    }
}

#[test]
fn strafe_keeps_distance_to_target() {
    for key in [Key::A, Key::D] {
        let mut cam = test_camera();
        let f = (0.0f64, -1.0f64, -2.0f64);
        let dist0 = (f.0 * f.0 + f.1 * f.1 + f.2 * f.2).sqrt();
        let consumed = cam.input_move_camera(&press(key), fx(0.75));
        assert!(consumed);
        let dx = fl(cam.eye.x) - fl(cam.target.x);
        let dy = fl(cam.eye.y) - fl(cam.target.y);
        let dz = fl(cam.eye.z) - fl(cam.target.z);
        let dist1 = (dx * dx + dy * dy + dz * dz).sqrt();
        assert!((dist1 - dist0).abs() < 1e-2);
    }
}

#[test]
fn strafe_actually_moves_the_eye() {
    let mut cam = test_camera();
    let before = cam.eye;
    assert!(cam.input_move_camera(&press(Key::A), fx(0.75)));
    assert!(cam.eye != before);
}

#[test]
fn key_release_is_not_consumed() {
    let mut cam = test_camera();
    let before = cam.eye;
    let consumed = cam.input_move_camera(
        &SurfaceEvent::Keyboard { key: Key::W, state: KeyState::Released },
        fx(5.0),
    );
    assert!(!consumed);
    assert_eq!(cam.eye, before);
}

#[test]
fn unrelated_events_are_not_consumed() {
    let mut cam = test_camera();
    let before = cam.eye;
    assert!(!cam.input_move_camera(&press(Key::Escape), fx(5.0)));
    assert!(!cam.input_move_camera(&press(Key::Other), fx(5.0)));
    assert!(!cam.input_move_camera(&SurfaceEvent::RedrawRequested, fx(5.0)));
    assert!(!cam.input_move_camera(&SurfaceEvent::CloseRequested, fx(5.0)));
    assert_eq!(cam.eye, before);
}

#[test]
fn apply_navigation_matches_input_move_camera() {
    let mut by_event = test_camera();
    let mut by_command = test_camera();
    let speed = fx(1.25);
    assert!(by_event.input_move_camera(&press(Key::A), speed));
    by_command.apply_navigation(NavCommand::StrafeLeft, speed);
    assert_eq!(by_event.eye, by_command.eye);
}

#[test]
fn dispatch_maps_each_event_to_its_action() {
    assert_eq!(dispatch_event(&press(Key::W)), LoopAction::Navigate(NavCommand::Forward));
    assert_eq!(dispatch_event(&press(Key::S)), LoopAction::Navigate(NavCommand::Back));
    assert_eq!(dispatch_event(&press(Key::A)), LoopAction::Navigate(NavCommand::StrafeLeft));
    assert_eq!(dispatch_event(&press(Key::D)), LoopAction::Navigate(NavCommand::StrafeRight));
    assert_eq!(dispatch_event(&press(Key::Escape)), LoopAction::Exit);
    assert_eq!(dispatch_event(&SurfaceEvent::CloseRequested), LoopAction::Exit);
    assert_eq!(dispatch_event(&SurfaceEvent::RedrawRequested), LoopAction::Redraw);
    assert_eq!(
        dispatch_event(&SurfaceEvent::Resized { width: 800, height: 600 }),
        LoopAction::Resize { width: 800, height: 600 },
    );
    assert_eq!(
        dispatch_event(&SurfaceEvent::Keyboard { key: Key::W, state: KeyState::Released }),
        LoopAction::Ignore,
    );
    assert_eq!(dispatch_event(&SurfaceEvent::Other), LoopAction::Ignore);
}

#[test]
fn set_aspect_is_width_over_height() {
    let mut cam = test_camera();
    cam.set_aspect(1920, 1080);
    assert!((fl(cam.aspect) - 1920.0 / 1080.0).abs() < 1e-3);
    let eye = cam.eye;
    cam.set_aspect(100, 400);
    assert!((fl(cam.aspect) - 0.25).abs() < 1e-4);
    assert_eq!(cam.eye, eye);
}
