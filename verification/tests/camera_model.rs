use render_core::basis::{view_basis, LookBasis};
use render_core::camera::{
    degrees_to_radians, CameraController, CameraData, CameraKey, KeyState, Projection,
    ScrollDelta, Vec3Fix, PITCH_MAX,
};
use render_core::fixed::{fp_mul, SCALE};

fn origin_camera() -> CameraData {
    CameraData::new(Vec3Fix { x: 0, y: 0, z: 0 }, 0, 0)
}

// Looking down the negative z axis: yaw of -90 degrees, level pitch.
fn minus_z_look() -> LookBasis {
    LookBasis { yaw_sin: -SCALE, yaw_cos: 0, pitch_sin: 0, pitch_cos: SCALE }
}

#[test]
fn fp_mul_scales_products() {
    assert_eq!(fp_mul(1_500_000, 2_000_000), 3_000_000);
    assert_eq!(fp_mul(-1_500_000, 2_000_000), -3_000_000);
    assert_eq!(fp_mul(SCALE, 123_456), 123_456);
}

#[test]
fn fp_mul_rounds_toward_zero() {
    assert_eq!(fp_mul(1, 1), 0);
    assert_eq!(fp_mul(-1, 1), 0);
    assert_eq!(fp_mul(999_999, 1), 0);
    assert_eq!(fp_mul(-999_999, -1), 0);
}

#[test]
fn degrees_convert_to_radians() {
    assert_eq!(degrees_to_radians(-90_000_000), -1_570_796);
    assert_eq!(degrees_to_radians(90_000_000), 1_570_796);
    assert_eq!(degrees_to_radians(180_000_000), 3_141_593);
    assert_eq!(degrees_to_radians(0), 0);
}

#[test]
fn camera_from_degrees_matches_radian_constructor() {
    let position = Vec3Fix { x: 0, y: 5_000_000, z: 10_000_000 };
    let cam = CameraData::from_degrees(position, -90_000_000, -20_000_000);
    assert_eq!(cam.position, position);
    assert_eq!(cam.yaw, -1_570_796);
    assert_eq!(cam.pitch, degrees_to_radians(-20_000_000));
}

#[test]
fn keyboard_recognizes_camera_keys() {
    let mut c = CameraController::new(4_000_000, 500_000);
    assert!(c.process_keyboard(CameraKey::W, KeyState::Pressed));
    assert_eq!(c.amount_forward, SCALE);
    assert!(c.process_keyboard(CameraKey::Up, KeyState::Released));
    assert_eq!(c.amount_forward, 0);
    assert!(c.process_keyboard(CameraKey::S, KeyState::Pressed));
    assert!(c.process_keyboard(CameraKey::Down, KeyState::Pressed));
    assert!(c.process_keyboard(CameraKey::A, KeyState::Pressed));
    assert!(c.process_keyboard(CameraKey::Left, KeyState::Pressed));
    assert!(c.process_keyboard(CameraKey::D, KeyState::Pressed));
    assert!(c.process_keyboard(CameraKey::Right, KeyState::Pressed));
    assert!(c.process_keyboard(CameraKey::Space, KeyState::Pressed));
    assert!(c.process_keyboard(CameraKey::LShift, KeyState::Pressed));
    assert_eq!(c.amount_backward, SCALE);
    assert_eq!(c.amount_left, SCALE);
    assert_eq!(c.amount_right, SCALE);
    assert_eq!(c.amount_up, SCALE);
    assert_eq!(c.amount_down, SCALE);
}

#[test]
fn keyboard_reports_unmapped_keys_as_unhandled() {
    let mut c = CameraController::new(4_000_000, 500_000);
    let before = c;
    assert!(!c.process_keyboard(CameraKey::Unmapped, KeyState::Pressed));
    assert_eq!(c, before);
}

#[test]
fn mouse_overwrites_rotation_deltas() {
    let mut c = CameraController::new(4_000_000, 500_000);
    c.process_mouse(10_000_000, -3_000_000);
    assert_eq!(c.rotate_horizontal, 10_000_000);
    assert_eq!(c.rotate_vertical, -3_000_000);
    c.process_mouse(-1_000_000, 2_000_000);
    assert_eq!(c.rotate_horizontal, -1_000_000);
    assert_eq!(c.rotate_vertical, 2_000_000);
}

#[test]
fn scroll_normalizes_lines_and_pixels() {
    let mut c = CameraController::new(4_000_000, 500_000);
    c.process_scroll(ScrollDelta::Lines { x: 0, y: SCALE });
    assert_eq!(c.scroll, -100 * SCALE);
    c.process_scroll(ScrollDelta::Pixels { x: 0, y: 50 });
    assert_eq!(c.scroll, -50);
}

#[test]
fn scroll_last_write_wins() {
    let mut c = CameraController::new(4_000_000, 500_000);
    c.process_scroll(ScrollDelta::Lines { x: 0, y: SCALE });
    c.process_scroll(ScrollDelta::Lines { x: 0, y: SCALE });
    // The second event overwrites the first; nothing accumulates.
    assert_eq!(c.scroll, -100 * SCALE);
}

#[test]
fn forward_key_moves_along_look_direction() {
    // Camera at the origin, yaw -90 degrees, level pitch; forward pressed;
    // one second at speed 4.0. The forward direction is
    // (cos yaw, 0, sin yaw) = (0, 0, -1), so the camera moves to z = -4.
    let mut c = CameraController::new(4_000_000, 500_000);
    let mut cam = CameraData::new(Vec3Fix { x: 0, y: 0, z: 0 }, degrees_to_radians(-90_000_000), 0);
    assert!(c.process_keyboard(CameraKey::W, KeyState::Pressed));
    c.update_camera(&mut cam, 1_000_000, &minus_z_look());
    assert_eq!(cam.position, Vec3Fix { x: 0, y: 0, z: -4_000_000 });
    // The directional amount is level-triggered and still held.
    assert_eq!(c.amount_forward, SCALE);
}

#[test]
fn zero_dt_update_keeps_pose_but_flushes_accumulators() {
    let mut c = CameraController::new(4_000_000, 500_000);
    assert!(c.process_keyboard(CameraKey::W, KeyState::Pressed));
    c.process_mouse(7_000_000, -2_000_000);
    c.process_scroll(ScrollDelta::Pixels { x: 0, y: 40 });
    let mut cam = CameraData::new(Vec3Fix { x: 1_000_000, y: 2_000_000, z: 3_000_000 }, 250_000, -400_000);
    let pose_before = cam;
    c.update_camera(&mut cam, 0, &minus_z_look());
    assert_eq!(cam, pose_before);
    assert_eq!(c.rotate_horizontal, 0);
    assert_eq!(c.rotate_vertical, 0);
    assert_eq!(c.scroll, 0);
    assert_eq!(c.amount_forward, SCALE);
}

#[test]
fn pitch_stays_clamped_under_any_rotation() {
    let mut c = CameraController::new(4_000_000, 500_000);
    let mut cam = origin_camera();
    let look = minus_z_look();
    for turn in 0..16 {
        let dy: i64 = if turn % 2 == 0 { 1_000_000_000 } else { -1_000_000_000 };
        c.process_mouse(0, dy);
        c.update_camera(&mut cam, 100_000_000, &look);
        assert!(cam.pitch <= PITCH_MAX);
        assert!(cam.pitch >= -PITCH_MAX);
    }
    // The last delta was a huge upward rotation: pitch sits on the clamp.
    assert_eq!(cam.pitch, PITCH_MAX);
}

#[test]
fn scroll_translates_along_full_look_direction() {
    // Level pitch looking down -z, one line of scroll, one second:
    // displacement = scroll * speed * sensitivity = -100 * 4.0 * 0.5 = -200
    // along (0, 0, -1), so z moves to +200.
    let mut c = CameraController::new(4_000_000, 500_000);
    let mut cam = origin_camera();
    c.process_scroll(ScrollDelta::Lines { x: 0, y: SCALE });
    c.update_camera(&mut cam, 1_000_000, &minus_z_look());
    assert_eq!(cam.position, Vec3Fix { x: 0, y: 0, z: 200_000_000 });
    assert_eq!(c.scroll, 0);
}

#[test]
fn resize_replaces_aspect_ratio() {
    let mut p = Projection::new(800, 600, 785_398, 100_000, 100_000_000);
    p.resize(1600, 900);
    assert_eq!(p.aspect_width, 1600);
    assert_eq!(p.aspect_height, 900);
    assert_eq!(p.fovy, 785_398);
    assert_eq!(p.znear, 100_000);
    assert_eq!(p.zfar, 100_000_000);
}

#[test]
fn view_basis_is_orthonormal_on_exact_samples() {
    // A scaled 3-4-5 triple keeps the Pythagorean identity exact.
    let look = LookBasis {
        yaw_sin: 600_000,
        yaw_cos: 800_000,
        pitch_sin: -600_000,
        pitch_cos: 800_000,
    };
    let b = view_basis(&look);
    let f = [b.forward.x as i128, b.forward.y as i128, b.forward.z as i128];
    let r = [b.right.x as i128, b.right.y as i128, b.right.z as i128];
    let u = [b.up.x as i128, b.up.y as i128, b.up.z as i128];
    let dot = |a: [i128; 3], b: [i128; 3]| a[0] * b[0] + a[1] * b[1] + a[2] * b[2];
    let unit = (SCALE as i128).pow(4);
    assert_eq!(dot(f, r), 0);
    assert_eq!(dot(f, u), 0);
    assert_eq!(dot(r, u), 0);
    assert_eq!(dot(f, f), unit);
    assert_eq!(dot(r, r), unit);
    assert_eq!(dot(u, u), unit);
}

#[test]
fn view_basis_components_match_yaw_and_pitch() {
    let look = minus_z_look();
    let b = view_basis(&look);
    // Forward is (0, 0, -1), right is (1, 0, 0), up is (0, 1, 0),
    // at squared scale.
    let s2 = SCALE * SCALE;
    assert_eq!((b.forward.x, b.forward.y, b.forward.z), (0, 0, -s2));
    assert_eq!((b.right.x, b.right.y, b.right.z), (s2, 0, 0));
    assert_eq!((b.up.x, b.up.y, b.up.z), (0, s2, 0));
}
