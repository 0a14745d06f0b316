use render_core::basis::LookBasis;
use render_core::camera::{CameraData, Vec3Fix};
use render_core::engine::{apply_resize, instance_grid, SurfaceExtent, NUM_INSTANCES};
use render_core::fixed::SCALE;
use render_core::matrix::{
    identity, mat_mul, mat_vec, opengl_to_wgpu_matrix, CameraUniform, Mat4, Vec4Fix, HALF_SCALE,
};

fn sample_matrix() -> Mat4 {
    Mat4 {
        c0: Vec4Fix { x: SCALE, y: 250_000, z: 0, w: 0 },
        c1: Vec4Fix { x: -500_000, y: SCALE, z: 125_000, w: 0 },
        c2: Vec4Fix { x: 0, y: 750_000, z: -SCALE, w: 0 },
        c3: Vec4Fix { x: 2_000_000, y: -3_000_000, z: 1_000_000, w: SCALE },
    }
}

#[test]
fn uniform_starts_as_identity() {
    let u = CameraUniform::new();
    assert_eq!(u.view_proj, identity());
}

#[test]
fn identity_product_recovers_view_matrix() {
    // The provable kernel of the round trip: against the identity
    // projection the stored view-projection is the view matrix itself.
    let view = sample_matrix();
    let mut u = CameraUniform::new();
    u.update_view_proj(&view, &identity());
    assert_eq!(u.view_proj, view);
}

#[test]
fn matrix_product_scales_entries() {
    // Doubling matrix times tripling matrix: every diagonal entry is 6.0.
    let two = Mat4 {
        c0: Vec4Fix { x: 2 * SCALE, y: 0, z: 0, w: 0 },
        c1: Vec4Fix { x: 0, y: 2 * SCALE, z: 0, w: 0 },
        c2: Vec4Fix { x: 0, y: 0, z: 2 * SCALE, w: 0 },
        c3: Vec4Fix { x: 0, y: 0, z: 0, w: 2 * SCALE },
    };
    let three = Mat4 {
        c0: Vec4Fix { x: 3 * SCALE, y: 0, z: 0, w: 0 },
        c1: Vec4Fix { x: 0, y: 3 * SCALE, z: 0, w: 0 },
        c2: Vec4Fix { x: 0, y: 0, z: 3 * SCALE, w: 0 },
        c3: Vec4Fix { x: 0, y: 0, z: 0, w: 3 * SCALE },
    };
    let p = mat_mul(&two, &three);
    assert_eq!(p.c0.x, 6 * SCALE);
    assert_eq!(p.c1.y, 6 * SCALE);
    assert_eq!(p.c2.z, 6 * SCALE);
    assert_eq!(p.c3.w, 6 * SCALE);
    assert_eq!(p.c0.y, 0);
    assert_eq!(p.c3.x, 0);
}

#[test]
fn correction_halves_and_biases_depth() {
    let corr = opengl_to_wgpu_matrix();
    assert_eq!(corr.c2.z, HALF_SCALE);
    assert_eq!(corr.c3.z, HALF_SCALE);
    assert_eq!(corr.c0.x, SCALE);
    // Depth -1 maps to 0, depth +1 maps to 1 (with unit w).
    let near = mat_vec(&corr, &Vec4Fix { x: 0, y: 0, z: -SCALE, w: SCALE });
    assert_eq!(near.z, 0);
    let far = mat_vec(&corr, &Vec4Fix { x: 0, y: 0, z: SCALE, w: SCALE });
    assert_eq!(far.z, SCALE);
}

#[test]
fn view_matrix_of_origin_pose() {
    // Origin, yaw -90 degrees, level pitch: right is +x, up is +y,
    // forward is -z, and the translation column is empty.
    let cam = CameraData::new(Vec3Fix { x: 0, y: 0, z: 0 }, -1_570_796, 0);
    let look = LookBasis { yaw_sin: -SCALE, yaw_cos: 0, pitch_sin: 0, pitch_cos: SCALE };
    let m = cam.calc_matrix(&look);
    assert_eq!((m.c0.x, m.c0.y, m.c0.z, m.c0.w), (SCALE, 0, 0, 0));
    assert_eq!((m.c1.x, m.c1.y, m.c1.z, m.c1.w), (0, SCALE, 0, 0));
    assert_eq!((m.c2.x, m.c2.y, m.c2.z, m.c2.w), (0, 0, SCALE, 0));
    assert_eq!((m.c3.x, m.c3.y, m.c3.z, m.c3.w), (0, 0, 0, SCALE));
}

#[test]
fn view_matrix_translation_tracks_eye() {
    // Identity orientation (yaw 0, pitch 0): right is -z... the frame is
    // s = (0, 0, 1), u = (0, 1, 0), f = (1, 0, 0); the translation column
    // carries the eye projected onto that frame, negated for s and u.
    let eye = Vec3Fix { x: 2_000_000, y: 3_000_000, z: 5_000_000 };
    let cam = CameraData::new(eye, 0, 0);
    let look = LookBasis { yaw_sin: 0, yaw_cos: SCALE, pitch_sin: 0, pitch_cos: SCALE };
    let m = cam.calc_matrix(&look);
    assert_eq!(m.c3.x, -5_000_000);
    assert_eq!(m.c3.y, -3_000_000);
    assert_eq!(m.c3.z, 2_000_000);
    assert_eq!(m.c3.w, SCALE);
}

#[test]
fn projection_matrix_is_corrected_perspective() {
    // 800x600 surface, 45-degree vertical field of view, near 0.1 and
    // far 100. The caller supplies cot(fovy / 2) = 2.414214.
    let p = render_core::camera::Projection::new(800, 600, 785_398, 100_000, 100_000_000);
    let m = p.calc_matrix(2_414_214);
    // cot / aspect with aspect = 800/600 = 1.333333.
    assert_eq!(m.c0.x, 1_810_660);
    assert_eq!(m.c1.y, 2_414_214);
    // Corrected depth entries: far/(near-far) and far*near/(near-far).
    assert_eq!(m.c2.z, -1_001_001);
    assert_eq!(m.c2.w, -SCALE);
    assert_eq!(m.c3.z, -100_100);
    assert_eq!(m.c3.w, 0);
    assert_eq!((m.c0.y, m.c0.z, m.c0.w), (0, 0, 0));
    assert_eq!((m.c1.x, m.c1.z, m.c1.w), (0, 0, 0));
}

#[test]
fn uniform_composes_projection_and_view() {
    // At the origin with yaw -90 degrees the view matrix is the identity,
    // so the stored view-projection equals the projection exactly.
    let cam = CameraData::new(Vec3Fix { x: 0, y: 0, z: 0 }, -1_570_796, 0);
    let look = LookBasis { yaw_sin: -SCALE, yaw_cos: 0, pitch_sin: 0, pitch_cos: SCALE };
    let view = cam.calc_matrix(&look);
    let p = render_core::camera::Projection::new(800, 600, 785_398, 100_000, 100_000_000);
    let proj = p.calc_matrix(2_414_214);
    let mut u = CameraUniform::new();
    u.update_view_proj(&view, &proj);
    assert_eq!(u.view_proj, proj);
}

#[test]
fn grid_has_a_hundred_spaced_slots() {
    let g = instance_grid();
    assert_eq!(g.len(), NUM_INSTANCES as usize);
    assert_eq!(g[0].position, Vec3Fix { x: -5_000_000, y: 0, z: -5_000_000 });
    // Row-major: slot 3 is column 3 of row 0.
    assert_eq!(g[3].position, Vec3Fix { x: 25_000_000, y: 0, z: -5_000_000 });
    assert_eq!(g[99].position, Vec3Fix { x: 85_000_000, y: 0, z: 85_000_000 });
    for slot in &g {
        assert_eq!(slot.position.y, 0);
        // No slot of this displaced grid sits at the origin, so none
        // needs the identity-rotation special case.
        assert!(!slot.identity_rotation);
    }
}

#[test]
fn resize_guard_rejects_zero_dimensions() {
    let current = SurfaceExtent { width: 800, height: 600 };
    assert_eq!(apply_resize(current, 1600, 900), SurfaceExtent { width: 1600, height: 900 });
    assert_eq!(apply_resize(current, 0, 900), current);
    assert_eq!(apply_resize(current, 1600, 0), current);
    assert_eq!(apply_resize(current, 0, 0), current);
}
