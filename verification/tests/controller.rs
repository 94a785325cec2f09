//! The orbit controller: scenarios on the equator, zoom arithmetic, the
//! clamping invariants, and the router's drag gating.

use orbit_camera::camera::{Camera, Projection};
use orbit_camera::input::{
    CameraController, DeviceEvent, InputServer, Key, ScrollDelta, WindowEvent,
};
use orbit_camera::vec3::Vec3Fx;

const ONE: i64 = 65536;
const HALF_PI: i64 = 102944;
const PI_FX: i64 = 205887;

fn fx(v: f64) -> i64 {
    (v * 65536.0).round() as i64
}

fn to_f(v: i64) -> f64 {
    v as f64 / 65536.0
}

fn test_camera() -> Camera {
    Camera {
        eye: Vec3Fx { x: 0, y: 0, z: 0 },
        target: Vec3Fx { x: 0, y: 0, z: 0 },
        up: Vec3Fx { x: 0, y: 0, z: ONE },
        projection: Projection::perspective(fx(0.1), fx(100.0), fx(800.0), fx(600.0), fx(1.0472)),
    }
}

/// Speed 1, radius 2, about pi/300 radians per count, zoom 0.1.
fn scenario_controller() -> CameraController {
    CameraController::new(ONE, 2 * ONE, 686, 6554)
}

#[test]
fn update_on_equator_places_eye_on_x_axis() {
    let c = scenario_controller();
    assert_eq!(c.theta, HALF_PI);
    assert_eq!(c.phi, 0);
    let mut cam = test_camera();
    c.update_camera(&mut cam);
    assert!((to_f(cam.eye.x) - 2.0).abs() < 1e-3, "eye.x = {}", to_f(cam.eye.x));
    assert!(to_f(cam.eye.y).abs() < 1e-3);
    assert!(to_f(cam.eye.z).abs() < 1e-3);
    assert_eq!(cam.target, Vec3Fx { x: 0, y: 0, z: 0 });
    assert!(to_f(cam.up.x).abs() < 1e-3);
    assert!(to_f(cam.up.y).abs() < 1e-3);
    assert!((to_f(cam.up.z) - 1.0).abs() < 1e-3);
}

#[test]
fn scroll_up_divides_farness_by_factor() {
    let mut c = scenario_controller();
    c.process_scroll(&ScrollDelta::Lines { dx: 0, dy: ONE });
    // factor = 1.1, farness = 2 / 1.1.
    assert!((to_f(c.farness) - 2.0 / 1.1).abs() < 1e-3, "farness = {}", to_f(c.farness));
}

#[test]
fn scroll_down_multiplies_farness_exactly() {
    let mut c = scenario_controller();
    c.process_scroll(&ScrollDelta::Lines { dx: 0, dy: -ONE });
    // factor = 1 + 6554/65536 exactly; 131072 * 72090 / 65536 == 144180.
    assert_eq!(c.farness, 144180);
}

#[test]
fn pixel_scroll_counts_a_tenth_per_pixel() {
    let mut lines = scenario_controller();
    let mut pixels = scenario_controller();
    lines.process_scroll(&ScrollDelta::Lines { dx: 0, dy: ONE });
    pixels.process_scroll(&ScrollDelta::Pixels { x: 0, y: 10 * ONE });
    assert!((to_f(lines.farness) - to_f(pixels.farness)).abs() < 1e-3);
}

#[test]
fn farness_stays_positive_under_heavy_zoom_in() {
    let mut c = scenario_controller();
    for _ in 0..500 {
        c.process_scroll(&ScrollDelta::Lines { dx: 0, dy: 100 * ONE });
    }
    assert!(c.farness >= 1);
}

#[test]
fn mouse_drag_advances_azimuth_and_keeps_theta() {
    let mut c = scenario_controller();
    c.process_mouse(100 * ONE, 0);
    // phi += 100 * (pi/300), about 1.047 radians.
    assert_eq!(c.phi, 68600);
    assert!((to_f(c.phi) - 1.047).abs() < 2e-3);
    assert_eq!(c.theta, HALF_PI);
}

#[test]
fn theta_clamps_at_both_poles() {
    let mut c = scenario_controller();
    c.process_mouse(0, 1_000_000 * ONE);
    assert_eq!(c.theta, 0);
    c.process_mouse(0, -1_000_000 * ONE);
    assert_eq!(c.theta, PI_FX);
    for _ in 0..50 {
        c.process_mouse(0, -12345 * ONE);
        assert!(0 <= c.theta && c.theta <= PI_FX);
    }
}

#[test]
fn phi_wraps_into_one_turn() {
    let mut c = scenario_controller();
    // 4000 counts at pi/300 per count is several turns.
    c.process_mouse(4000 * ONE, 0);
    // 4000 * 686 modulo the fixed-point two-pi.
    assert_eq!(c.phi, 2_744_000 - 6 * 411_775);
    let mut d = scenario_controller();
    d.process_mouse(-100 * ONE, 0);
    // A leftward drag wraps below zero into the top of the turn.
    assert_eq!(d.phi, 411_775 - 68_600);
    assert!(0 <= d.phi && d.phi < 411_775);
}

#[test]
fn keyboard_maps_wasd_and_arrows() {
    let mut c = scenario_controller();
    assert!(c.process_keyboard(Key::KeyW, true));
    assert!(c.forward_pressed);
    assert!(c.process_keyboard(Key::ArrowDown, true));
    assert!(c.backward_pressed);
    assert!(c.process_keyboard(Key::KeyA, true));
    assert!(c.left_pressed);
    assert!(c.process_keyboard(Key::ArrowRight, true));
    assert!(c.right_pressed);
    assert!(!c.process_keyboard(Key::Other, true));
    assert!(c.process_keyboard(Key::KeyW, false));
    assert!(!c.forward_pressed);
}

#[test]
fn panning_forward_moves_target_toward_view() {
    let mut c = scenario_controller();
    c.process_keyboard(Key::KeyW, true);
    let mut cam = test_camera();
    c.update_camera(&mut cam);
    // At phi = 0 the eye sits on +X, so forward pans the target toward -X.
    assert!((to_f(cam.target.x) + 1.0).abs() < 1e-3, "target.x = {}", to_f(cam.target.x));
    assert!(to_f(cam.target.y).abs() < 1e-3);
    assert_eq!(cam.target.z, 0, "panning never changes the vertical component");
}

#[test]
fn diagonal_pan_has_unit_speed() {
    let mut c = scenario_controller();
    c.process_keyboard(Key::KeyW, true);
    c.process_keyboard(Key::KeyA, true);
    let mut cam = test_camera();
    c.update_camera(&mut cam);
    let len = (to_f(cam.target.x).powi(2) + to_f(cam.target.y).powi(2)).sqrt();
    assert!((len - 1.0).abs() < 1e-3, "pan length = {len}");
}

#[test]
fn update_preserves_eye_distance_and_unit_up() {
    let mut c = scenario_controller();
    c.process_mouse(37 * ONE, -23 * ONE);
    c.process_scroll(&ScrollDelta::Lines { dx: 0, dy: -2 * ONE });
    let mut cam = test_camera();
    c.update_camera(&mut cam);
    let d = (
        to_f(cam.eye.x) - to_f(cam.target.x),
        to_f(cam.eye.y) - to_f(cam.target.y),
        to_f(cam.eye.z) - to_f(cam.target.z),
    );
    let dist = (d.0 * d.0 + d.1 * d.1 + d.2 * d.2).sqrt();
    assert!((dist - to_f(c.farness)).abs() < 1e-3, "distance {dist} vs {}", to_f(c.farness));
    let up = (to_f(cam.up.x), to_f(cam.up.y), to_f(cam.up.z));
    let up_len = (up.0 * up.0 + up.1 * up.1 + up.2 * up.2).sqrt();
    assert!((up_len - 1.0).abs() < 1e-3, "up length = {up_len}");
}

#[test]
fn router_defaults_match_the_viewer() {
    let s = InputServer::new();
    assert_eq!(s.camera_controller.speed, 13107);
    assert_eq!(s.camera_controller.farness, 2 * ONE);
    assert_eq!(s.camera_controller.angular_speed, 686);
    assert_eq!(s.camera_controller.zoom_speed, 6554);
    assert!(!s.mouse_pressed);
}

#[test]
fn router_gates_motion_on_drag() {
    let mut s = InputServer::new();
    s.device_input(&DeviceEvent::MouseMotion { dx: 100 * ONE, dy: 0 });
    assert_eq!(s.camera_controller.phi, 0, "motion while idle is discarded");
    assert!(s.window_input(&WindowEvent::MouseLeft { pressed: true }));
    s.device_input(&DeviceEvent::MouseMotion { dx: 100 * ONE, dy: 0 });
    assert_ne!(s.camera_controller.phi, 0, "motion while dragging orbits");
    let phi = s.camera_controller.phi;
    assert!(s.window_input(&WindowEvent::MouseLeft { pressed: false }));
    s.device_input(&DeviceEvent::MouseMotion { dx: 100 * ONE, dy: 0 });
    assert_eq!(s.camera_controller.phi, phi, "release returns to idle");
}

#[test]
fn router_consumes_keys_wheel_and_left_button_only() {
    let mut s = InputServer::new();
    assert!(s.window_input(&WindowEvent::Keyboard { key: Key::KeyD, pressed: true }));
    assert!(s.camera_controller.right_pressed);
    assert!(!s.window_input(&WindowEvent::Keyboard { key: Key::Other, pressed: true }));
    assert!(s.window_input(&WindowEvent::MouseWheel {
        delta: ScrollDelta::Lines { dx: 0, dy: ONE },
    }));
    assert!(s.camera_controller.farness < 2 * ONE);
    assert!(!s.window_input(&WindowEvent::Other));
}

#[test]
fn router_update_delegates_to_controller() {
    let mut s = InputServer::new();
    let mut cam = test_camera();
    s.update(&mut cam);
    let dist = to_f(cam.eye.x) - to_f(cam.target.x);
    assert!((dist - 2.0).abs() < 1e-3);
}
