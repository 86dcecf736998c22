use flyscene::camera::{Camera, CameraController, Key, Vec3, PITCH_LIMIT, YAW_START};
use flyscene::SCALE;

fn controller() -> CameraController {
    CameraController::new(2 * SCALE, 8_000)
}

#[test]
fn new_controller_has_fixed_start() {
    let c = controller();
    assert_eq!(c.yaw, YAW_START);
    assert_eq!(c.yaw, -90 * SCALE);
    assert_eq!(c.pitch, 0);
    assert!(!c.is_up_pressed);
    assert!(!c.is_down_pressed);
    assert!(!c.is_forward_pressed);
    assert!(!c.is_backward_pressed);
    assert!(!c.is_left_pressed);
    assert!(!c.is_right_pressed);
}

#[test]
fn keys_drive_their_flags() {
    let mut c = controller();
    assert!(c.process_window_event(Key::Space, true));
    assert!(c.is_up_pressed);
    assert!(c.process_window_event(Key::LShift, true));
    assert!(c.is_down_pressed);
    assert!(c.process_window_event(Key::Z, true));
    assert!(c.is_forward_pressed);
    assert!(c.process_window_event(Key::Q, true));
    assert!(c.is_left_pressed);
    assert!(c.process_window_event(Key::S, true));
    assert!(c.is_backward_pressed);
    assert!(c.process_window_event(Key::D, true));
    assert!(c.is_right_pressed);
    assert!(c.process_window_event(Key::Z, false));
    assert!(!c.is_forward_pressed);
    assert!(c.process_window_event(Key::Up, true));
    assert!(c.is_forward_pressed);
    assert!(c.process_window_event(Key::Left, true));
    assert!(c.is_left_pressed);
    assert!(c.process_window_event(Key::Down, true));
    assert!(c.is_backward_pressed);
    assert!(c.process_window_event(Key::Right, true));
    assert!(c.is_right_pressed);
}

#[test]
fn unbound_key_is_not_consumed() {
    let mut c = controller();
    assert!(!c.process_window_event(Key::Other, true));
    assert!(!c.is_up_pressed);
    assert!(!c.is_forward_pressed);
}

#[test]
fn mouse_motion_moves_pitch_by_scaled_delta() {
    let mut c = controller();
    // One pixel downward: pitch falls by one pixel times the sensitivity.
    assert!(c.process_device_event(0, SCALE));
    assert_eq!(c.pitch, -8_000);
    // One pixel upward restores it.
    assert!(c.process_device_event(0, -SCALE));
    assert_eq!(c.pitch, 0);
}

#[test]
fn pitch_clamps_at_a_right_angle() {
    let mut c = controller();
    assert!(c.process_device_event(0, 1_000_000 * SCALE));
    assert_eq!(c.pitch, -PITCH_LIMIT);
    assert!(c.process_device_event(0, -1_000_000 * SCALE));
    assert_eq!(c.pitch, PITCH_LIMIT);
}

#[test]
fn pitch_stays_clamped_over_any_sequence() {
    let mut c = controller();
    let deltas: [i64; 7] = [
        3 * SCALE,
        -5_000 * SCALE,
        9_999 * SCALE,
        -1,
        123_456_789,
        -987_654_321,
        40_000 * SCALE,
    ];
    for round in 0..50i64 {
        for (i, d) in deltas.iter().enumerate() {
            let dy = d * ((round + i as i64) % 7 + 1);
            assert!(c.process_device_event(dy / 2, dy));
            assert!(-PITCH_LIMIT <= c.pitch && c.pitch <= PITCH_LIMIT);
        }
    }
}

#[test]
fn yaw_accumulates_without_wrap() {
    let mut c = controller();
    // A sweep of ten thousand pixels: eighty fixed-point radians, added in
    // full to the starting minus ninety.
    assert!(c.process_device_event(10_000 * SCALE, 0));
    assert_eq!(c.yaw, -90 * SCALE + 80_000_000);
    // A second sweep keeps accumulating far past a full turn.
    assert!(c.process_device_event(10_000 * SCALE, 0));
    assert_eq!(c.yaw, -90 * SCALE + 160_000_000);
    // And leftward motion subtracts.
    assert!(c.process_device_event(-20_000 * SCALE, 0));
    assert_eq!(c.yaw, -90 * SCALE);
}

#[test]
fn start_camera_has_fixed_defaults() {
    let c = Camera::start(800, 600);
    assert_eq!(c.eye, Vec3 { x: 0, y: SCALE, z: 2 * SCALE });
    assert_eq!(c.front, Vec3 { x: 0, y: 0, z: -SCALE });
    assert_eq!(c.up, Vec3 { x: 0, y: SCALE, z: 0 });
    assert_eq!(c.aspect, 1_333_333);
    assert_eq!(c.fovy, 45 * SCALE);
    assert_eq!(c.znear, SCALE / 10);
    assert_eq!(c.zfar, 100 * SCALE);
}

#[test]
fn forward_tick_moves_eye_along_front() {
    let mut camera = Camera::start(800, 600);
    let mut c = controller();
    assert!(c.process_window_event(Key::Z, true));
    let front_before = camera.front;
    let right = Vec3 { x: SCALE, y: 0, z: 0 };
    // Sixteen milliseconds at two units per second: 0.032 units forward.
    c.update_camera(&mut camera, 16, right, front_before);
    assert_eq!(camera.eye, Vec3 { x: 0, y: SCALE, z: 2 * SCALE - 32_000 });
    assert_eq!(camera.front, front_before);
}

#[test]
fn strafe_uses_the_given_right_vector() {
    let mut camera = Camera::start(800, 600);
    let mut c = controller();
    assert!(c.process_window_event(Key::D, true));
    let right = Vec3 { x: SCALE, y: 0, z: 0 };
    let front = camera.front;
    c.update_camera(&mut camera, 500, right, front);
    // Half a second at two units per second: one unit to the right.
    assert_eq!(camera.eye, Vec3 { x: SCALE, y: SCALE, z: 2 * SCALE });
}

#[test]
fn opposed_flags_cancel() {
    let mut camera = Camera::start(800, 600);
    let mut c = controller();
    assert!(c.process_window_event(Key::Space, true));
    assert!(c.process_window_event(Key::LShift, true));
    let front = camera.front;
    let right = Vec3 { x: SCALE, y: 0, z: 0 };
    c.update_camera(&mut camera, 250, right, front);
    assert_eq!(camera.eye, Vec3 { x: 0, y: SCALE, z: 2 * SCALE });
}
