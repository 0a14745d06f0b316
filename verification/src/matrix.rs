//! Fixed-point 4x4 matrices and the camera uniform built from them.
//!
//! Matrices are held column-major, as the GPU-side shading convention
//! expects, with entries in micro-units ([`crate::fixed::SCALE`] is 1.0).
//! [`CameraData::calc_matrix`] assembles the view matrix from the camera
//! pose and an orientation sample, [`mat_mul`] multiplies two matrices with
//! every entry rescaled by [`crate::fixed::fp`], and [`CameraUniform`] holds
//! the view-projection product that is uploaded to the GPU each frame.

use crate::basis::LookBasis;
use crate::camera::{CameraData, Projection};
use crate::fixed::{
    fp, fp_div, fp_mul, fq, lemma_fp_bound, lemma_fp_unit, lemma_fp_zero, lemma_fq_bound,
    lemma_mul_bound, SCALE,
};
use vstd::arithmetic::div_mod::lemma_div_multiples_vanish;
use vstd::prelude::*;

verus! {

/// Largest entry magnitude accepted by the matrix product; keeps every
/// four-term entry sum inside an `i64`.
pub const MAT_LIM: i64 = 1_000_000_000_000;

/// Half of the fixed-point unit: the depth-halving coefficient of the
/// clip-space correction.
pub const HALF_SCALE: i64 = 500_000;

/// Largest position component accepted by the view-matrix assembly.
pub const VIEW_POS_LIM: i64 = 1_000_000_000_000_000_000;

/// A column of a fixed-point matrix.
#[derive(Clone, Copy, Debug, PartialEq, Eq, Structural)]
pub struct Vec4Fix {
    pub x: i64,
    pub y: i64,
    pub z: i64,
    pub w: i64,
}

/// A 4x4 fixed-point matrix, column-major: `c0` is the first column.
#[derive(Clone, Copy, Debug, PartialEq, Eq, Structural)]
pub struct Mat4 {
    pub c0: Vec4Fix,
    pub c1: Vec4Fix,
    pub c2: Vec4Fix,
    pub c3: Vec4Fix,
}

/// A column as unbounded integers.
pub open spec fn colv(v: Vec4Fix) -> (int, int, int, int) {
    (v.x as int, v.y as int, v.z as int, v.w as int)
}

/// The rows of a column-major matrix, as unbounded integers.
pub open spec fn row0(m: Mat4) -> (int, int, int, int) {
    (m.c0.x as int, m.c1.x as int, m.c2.x as int, m.c3.x as int)
}

pub open spec fn row1(m: Mat4) -> (int, int, int, int) {
    (m.c0.y as int, m.c1.y as int, m.c2.y as int, m.c3.y as int)
}

pub open spec fn row2(m: Mat4) -> (int, int, int, int) {
    (m.c0.z as int, m.c1.z as int, m.c2.z as int, m.c3.z as int)
}

pub open spec fn row3(m: Mat4) -> (int, int, int, int) {
    (m.c0.w as int, m.c1.w as int, m.c2.w as int, m.c3.w as int)
}

/// Fixed-point dot product of a row and a column.
pub open spec fn fx4(r: (int, int, int, int), c: (int, int, int, int)) -> int {
    fp(r.0, c.0) + fp(r.1, c.1) + fp(r.2, c.2) + fp(r.3, c.3)
}

/// A matrix applied to a column.
pub open spec fn mat_vec_spec(m: Mat4, v: Vec4Fix) -> (int, int, int, int) {
    (
        fx4(row0(m), colv(v)),
        fx4(row1(m), colv(v)),
        fx4(row2(m), colv(v)),
        fx4(row3(m), colv(v)),
    )
}

/// Every entry of the column is within the product limit.
pub open spec fn bounded_col(v: Vec4Fix) -> bool {
    &&& -MAT_LIM <= v.x <= MAT_LIM
    &&& -MAT_LIM <= v.y <= MAT_LIM
    &&& -MAT_LIM <= v.z <= MAT_LIM
    &&& -MAT_LIM <= v.w <= MAT_LIM
}

/// Every entry of the matrix is within the product limit.
pub open spec fn bounded(m: Mat4) -> bool {
    bounded_col(m.c0) && bounded_col(m.c1) && bounded_col(m.c2) && bounded_col(m.c3)
}

/// Fixed-point dot product of four entry pairs.
fn dot4(a0: i64, a1: i64, a2: i64, a3: i64, b0: i64, b1: i64, b2: i64, b3: i64) -> (r: i64)
    requires
        -MAT_LIM <= a0 <= MAT_LIM,
        -MAT_LIM <= a1 <= MAT_LIM,
        -MAT_LIM <= a2 <= MAT_LIM,
        -MAT_LIM <= a3 <= MAT_LIM,
        -MAT_LIM <= b0 <= MAT_LIM,
        -MAT_LIM <= b1 <= MAT_LIM,
        -MAT_LIM <= b2 <= MAT_LIM,
        -MAT_LIM <= b3 <= MAT_LIM,
    ensures
        r as int == fp(a0 as int, b0 as int) + fp(a1 as int, b1 as int) + fp(
            a2 as int,
            b2 as int,
        ) + fp(a3 as int, b3 as int),
{
    proof {
        lemma_mul_bound(a0 as int, b0 as int, MAT_LIM as int, MAT_LIM as int);
        lemma_fp_bound(a0 as int, b0 as int, 1_000_000_000_000_000_000);
        lemma_mul_bound(a1 as int, b1 as int, MAT_LIM as int, MAT_LIM as int);
        lemma_fp_bound(a1 as int, b1 as int, 1_000_000_000_000_000_000);
        lemma_mul_bound(a2 as int, b2 as int, MAT_LIM as int, MAT_LIM as int);
        lemma_fp_bound(a2 as int, b2 as int, 1_000_000_000_000_000_000);
        lemma_mul_bound(a3 as int, b3 as int, MAT_LIM as int, MAT_LIM as int);
        lemma_fp_bound(a3 as int, b3 as int, 1_000_000_000_000_000_000);
    }
    fp_mul(a0, b0) + fp_mul(a1, b1) + fp_mul(a2, b2) + fp_mul(a3, b3)
}

/// A matrix applied to a column, executably.
pub fn mat_vec(m: &Mat4, v: &Vec4Fix) -> (r: Vec4Fix)
    requires
        bounded(*m),
        bounded_col(*v),
    ensures
        colv(r) == mat_vec_spec(*m, *v),
{
    Vec4Fix {
        x: dot4(m.c0.x, m.c1.x, m.c2.x, m.c3.x, v.x, v.y, v.z, v.w),
        y: dot4(m.c0.y, m.c1.y, m.c2.y, m.c3.y, v.x, v.y, v.z, v.w),
        z: dot4(m.c0.z, m.c1.z, m.c2.z, m.c3.z, v.x, v.y, v.z, v.w),
        w: dot4(m.c0.w, m.c1.w, m.c2.w, m.c3.w, v.x, v.y, v.z, v.w),
    }
}

/// The fixed-point matrix product `a * b`: each column of the result is
/// `a` applied to the corresponding column of `b`.
pub fn mat_mul(a: &Mat4, b: &Mat4) -> (r: Mat4)
    requires
        bounded(*a),
        bounded(*b),
    ensures
        colv(r.c0) == mat_vec_spec(*a, b.c0),
        colv(r.c1) == mat_vec_spec(*a, b.c1),
        colv(r.c2) == mat_vec_spec(*a, b.c2),
        colv(r.c3) == mat_vec_spec(*a, b.c3),
{
    Mat4 {
        c0: mat_vec(a, &b.c0),
        c1: mat_vec(a, &b.c1),
        c2: mat_vec(a, &b.c2),
        c3: mat_vec(a, &b.c3),
    }
}

/// The fixed-point identity matrix.
pub open spec fn identity_spec() -> Mat4 {
    Mat4 {
        c0: Vec4Fix { x: SCALE, y: 0i64, z: 0i64, w: 0i64 },
        c1: Vec4Fix { x: 0i64, y: SCALE, z: 0i64, w: 0i64 },
        c2: Vec4Fix { x: 0i64, y: 0i64, z: SCALE, w: 0i64 },
        c3: Vec4Fix { x: 0i64, y: 0i64, z: 0i64, w: SCALE },
    }
}

/// Builds the identity matrix.
pub fn identity() -> (r: Mat4)
    ensures
        r == identity_spec(),
{
    Mat4 {
        c0: Vec4Fix { x: SCALE, y: 0, z: 0, w: 0 },
        c1: Vec4Fix { x: 0, y: SCALE, z: 0, w: 0 },
        c2: Vec4Fix { x: 0, y: 0, z: SCALE, w: 0 },
        c3: Vec4Fix { x: 0, y: 0, z: 0, w: SCALE },
    }
}

/// The clip-space correction: remaps the depth range of a right-handed
/// perspective projection from `[-1, 1]` to the `[0, 1]` the target
/// graphics interface expects, by halving and biasing the third row.
/// A target whose native depth range is already `[0, 1]` needs no such
/// correction.
pub open spec fn correction_spec() -> Mat4 {
    Mat4 {
        c0: Vec4Fix { x: SCALE, y: 0i64, z: 0i64, w: 0i64 },
        c1: Vec4Fix { x: 0i64, y: SCALE, z: 0i64, w: 0i64 },
        c2: Vec4Fix { x: 0i64, y: 0i64, z: HALF_SCALE, w: 0i64 },
        c3: Vec4Fix { x: 0i64, y: 0i64, z: HALF_SCALE, w: SCALE },
    }
}

/// Builds the clip-space correction matrix.
pub fn opengl_to_wgpu_matrix() -> (r: Mat4)
    ensures
        r == correction_spec(),
{
    Mat4 {
        c0: Vec4Fix { x: SCALE, y: 0, z: 0, w: 0 },
        c1: Vec4Fix { x: 0, y: SCALE, z: 0, w: 0 },
        c2: Vec4Fix { x: 0, y: 0, z: HALF_SCALE, w: 0 },
        c3: Vec4Fix { x: 0, y: 0, z: HALF_SCALE, w: SCALE },
    }
}

/// Applying the identity matrix returns the column unchanged: the
/// exactly provable kernel of recovering the view matrix from the
/// view-projection product.
pub proof fn lemma_identity_mul_recovers(v: Vec4Fix)
    ensures
        mat_vec_spec(identity_spec(), v) == colv(v),
{
    lemma_fp_unit(v.x as int);
    lemma_fp_unit(v.y as int);
    lemma_fp_unit(v.z as int);
    lemma_fp_unit(v.w as int);
    lemma_fp_zero(v.x as int);
    lemma_fp_zero(v.y as int);
    lemma_fp_zero(v.z as int);
    lemma_fp_zero(v.w as int);
}

/// The clip-space correction keeps the depth of a point with unit `w`
/// inside `[0, SCALE]` whenever the incoming depth lies in
/// `[-SCALE, SCALE]`.
pub proof fn lemma_correction_depth_range(x: int, y: int, z: int)
    requires
        -(SCALE as int) <= z <= SCALE as int,
    ensures
        0 <= fx4(row2(correction_spec()), (x, y, z, SCALE as int)) <= SCALE as int,
{
    lemma_fp_zero(x);
    lemma_fp_zero(y);
    lemma_fp_bound(HALF_SCALE as int, z, HALF_SCALE as int);
    lemma_div_multiples_vanish(HALF_SCALE as int, SCALE as int);
    assert((SCALE as int) * (HALF_SCALE as int) == (HALF_SCALE as int) * (SCALE as int));
}

/// The GPU-transferable camera uniform: the view-projection matrix,
/// recomputed as a whole every frame.
#[derive(Clone, Copy, Debug, PartialEq, Eq, Structural)]
pub struct CameraUniform {
    pub view_proj: Mat4,
}

impl CameraUniform {
    /// A fresh uniform holding the identity matrix.
    pub fn new() -> (r: CameraUniform)
        ensures
            r.view_proj == identity_spec(),
    {
        CameraUniform { view_proj: identity() }
    }

    /// Overwrites the stored matrix with `projection * view`; never a
    /// partial update.
    pub fn update_view_proj(&mut self, view: &Mat4, projection: &Mat4)
        requires
            bounded(*view),
            bounded(*projection),
        ensures
            colv(final(self).view_proj.c0) == mat_vec_spec(*projection, view.c0),
            colv(final(self).view_proj.c1) == mat_vec_spec(*projection, view.c1),
            colv(final(self).view_proj.c2) == mat_vec_spec(*projection, view.c2),
            colv(final(self).view_proj.c3) == mat_vec_spec(*projection, view.c3),
    {
        self.view_proj = mat_mul(projection, view);
    }
}

/// The clip-space correction applied to a column: the first two entries
/// and the homogeneous entry pass through, the depth entry is halved and
/// biased by half the homogeneous entry.
pub proof fn lemma_correction_application(v: Vec4Fix)
    ensures
        mat_vec_spec(correction_spec(), v) == (
            v.x as int,
            v.y as int,
            fp(HALF_SCALE as int, v.z as int) + fp(HALF_SCALE as int, v.w as int),
            v.w as int,
        ),
{
    lemma_fp_unit(v.x as int);
    lemma_fp_unit(v.y as int);
    lemma_fp_unit(v.w as int);
    lemma_fp_zero(v.x as int);
    lemma_fp_zero(v.y as int);
    lemma_fp_zero(v.z as int);
    lemma_fp_zero(v.w as int);
}

impl Projection {
    /// The projection matrix: the clip-space correction times the
    /// right-handed perspective projection of these parameters. The
    /// cotangent of half the vertical field of view is trigonometry, so
    /// the caller supplies it in micro-units; everything else is computed
    /// here, and by [`lemma_correction_application`] each stated entry is
    /// exactly the correction applied to the perspective column.
    pub fn calc_matrix(&self, cot_half_fovy: i64) -> (r: Mat4)
        requires
            1 <= self.aspect_width <= 100_000,
            1 <= self.aspect_height <= 100_000,
            0 < self.znear < self.zfar <= 1_000_000_000,
            -MAT_LIM <= cot_half_fovy <= MAT_LIM,
        ensures
            r.c0.x as int == fq(cot_half_fovy as int, self.aspect_micro()),
            r.c0.y == 0 && r.c0.z == 0 && r.c0.w == 0,
            r.c1.y == cot_half_fovy,
            r.c1.x == 0 && r.c1.z == 0 && r.c1.w == 0,
            r.c2.z as int == fp(
                HALF_SCALE as int,
                fq(
                    self.zfar as int + self.znear as int,
                    self.znear as int - self.zfar as int,
                ),
            ) + fp(HALF_SCALE as int, -(SCALE as int)),
            r.c2.w == -SCALE,
            r.c2.x == 0 && r.c2.y == 0,
            r.c3.z as int == fp(
                HALF_SCALE as int,
                fq(
                    2 * fp(self.zfar as int, self.znear as int),
                    self.znear as int - self.zfar as int,
                ),
            ),
            r.c3.x == 0 && r.c3.y == 0 && r.c3.w == 0,
    {
        let aw: u64 = (self.aspect_width as u64) * 1_000_000;
        let asp64: u64 = aw / (self.aspect_height as u64);
        let asp: i64 = asp64 as i64;
        proof {
            let h = self.aspect_height as int;
            vstd::arithmetic::div_mod::lemma_div_is_ordered(1_000_000, aw as int, h);
            vstd::arithmetic::div_mod::lemma_div_is_ordered_by_denominator(1_000_000, h, 100_000);
            lemma_div_multiples_vanish(10, 100_000);
            assert(100_000 * 10 == 1_000_000int);
            assert(asp64 >= 10);
            lemma_fq_bound(cot_half_fovy as int, asp as int, MAT_LIM as int);
        }
        let e00: i64 = fp_div(cot_half_fovy, asp);
        let sum_fn: i64 = self.zfar + self.znear;
        let nf: i64 = self.znear - self.zfar;
        proof {
            lemma_fq_bound(sum_fn as int, nf as int, 2_000_000_000);
        }
        let e22raw: i64 = fp_div(sum_fn, nf);
        proof {
            lemma_mul_bound(self.zfar as int, self.znear as int, 1_000_000_000, 1_000_000_000);
            lemma_fp_bound(self.zfar as int, self.znear as int, 1_000_000_000_000);
        }
        let t: i64 = fp_mul(self.zfar, self.znear);
        let t2: i64 = 2 * t;
        proof {
            lemma_fq_bound(t2 as int, nf as int, 2_000_000_000_000);
        }
        let e23raw: i64 = fp_div(t2, nf);
        proof {
            lemma_mul_bound(HALF_SCALE as int, e22raw as int, 500_000, 2_000_000_000_000_000);
            lemma_fp_bound(HALF_SCALE as int, e22raw as int, 1_000_000_000_000_000);
            lemma_mul_bound(HALF_SCALE as int, -(SCALE as int), 500_000, 1_000_000);
            lemma_fp_bound(HALF_SCALE as int, -(SCALE as int), 500_000);
            lemma_mul_bound(HALF_SCALE as int, e23raw as int, 500_000, 2_000_000_000_000_000_000);
            lemma_fp_bound(HALF_SCALE as int, e23raw as int, 1_000_000_000_000_000_000);
        }
        let e22: i64 = fp_mul(HALF_SCALE, e22raw) + fp_mul(HALF_SCALE, -SCALE);
        let e23: i64 = fp_mul(HALF_SCALE, e23raw);
        Mat4 {
            c0: Vec4Fix { x: e00, y: 0, z: 0, w: 0 },
            c1: Vec4Fix { x: 0, y: cot_half_fovy, z: 0, w: 0 },
            c2: Vec4Fix { x: 0, y: 0, z: e22, w: -SCALE },
            c3: Vec4Fix { x: 0, y: 0, z: e23, w: 0 },
        }
    }
}

impl CameraData {
    /// The right-handed look-to view matrix of this pose, assembled from
    /// an orientation sample of its yaw and pitch: the rows are the
    /// right/up/forward frame of [`crate::basis::view_basis`] and the
    /// last column carries the eye position projected onto that frame.
    pub fn calc_matrix(&self, look: &LookBasis) -> (r: Mat4)
        requires
            look.wf(),
            -VIEW_POS_LIM <= self.position.x <= VIEW_POS_LIM,
            -VIEW_POS_LIM <= self.position.y <= VIEW_POS_LIM,
            -VIEW_POS_LIM <= self.position.z <= VIEW_POS_LIM,
        ensures
            r.c0.x as int == -(look.yaw_sin as int),
            r.c0.y as int == fp(-(look.pitch_sin as int), look.yaw_cos as int),
            r.c0.z as int == -fp(look.yaw_cos as int, look.pitch_cos as int),
            r.c0.w == 0,
            r.c1.x == 0,
            r.c1.y as int == look.pitch_cos as int,
            r.c1.z as int == -(look.pitch_sin as int),
            r.c1.w == 0,
            r.c2.x as int == look.yaw_cos as int,
            r.c2.y as int == fp(-(look.pitch_sin as int), look.yaw_sin as int),
            r.c2.z as int == -fp(look.yaw_sin as int, look.pitch_cos as int),
            r.c2.w == 0,
            r.c3.x as int == -(fp(-(look.yaw_sin as int), self.position.x as int) + fp(
                look.yaw_cos as int,
                self.position.z as int,
            )),
            r.c3.y as int == -(fp(
                fp(-(look.pitch_sin as int), look.yaw_cos as int),
                self.position.x as int,
            ) + fp(look.pitch_cos as int, self.position.y as int) + fp(
                fp(-(look.pitch_sin as int), look.yaw_sin as int),
                self.position.z as int,
            )),
            r.c3.z as int == fp(
                fp(look.yaw_cos as int, look.pitch_cos as int),
                self.position.x as int,
            ) + fp(look.pitch_sin as int, self.position.y as int) + fp(
                fp(look.yaw_sin as int, look.pitch_cos as int),
                self.position.z as int,
            ),
            r.c3.w == SCALE,
    {
        let ys: i64 = look.yaw_sin;
        let yc: i64 = look.yaw_cos;
        let ps: i64 = look.pitch_sin;
        let pc: i64 = look.pitch_cos;
        let neg_ps: i64 = -ps;
        proof {
            lemma_mul_bound(neg_ps as int, yc as int, SCALE as int, SCALE as int);
            lemma_fp_bound(neg_ps as int, yc as int, SCALE as int);
            lemma_mul_bound(neg_ps as int, ys as int, SCALE as int, SCALE as int);
            lemma_fp_bound(neg_ps as int, ys as int, SCALE as int);
            lemma_mul_bound(yc as int, pc as int, SCALE as int, SCALE as int);
            lemma_fp_bound(yc as int, pc as int, SCALE as int);
            lemma_mul_bound(ys as int, pc as int, SCALE as int, SCALE as int);
            lemma_fp_bound(ys as int, pc as int, SCALE as int);
        }
        let u_x: i64 = fp_mul(neg_ps, yc);
        let u_z: i64 = fp_mul(neg_ps, ys);
        let f_x: i64 = fp_mul(yc, pc);
        let f_z: i64 = fp_mul(ys, pc);
        let px: i64 = self.position.x;
        let py: i64 = self.position.y;
        let pz: i64 = self.position.z;
        let neg_ys: i64 = -ys;
        proof {
            lemma_mul_bound(neg_ys as int, px as int, SCALE as int, VIEW_POS_LIM as int);
            lemma_fp_bound(neg_ys as int, px as int, VIEW_POS_LIM as int);
            lemma_mul_bound(yc as int, pz as int, SCALE as int, VIEW_POS_LIM as int);
            lemma_fp_bound(yc as int, pz as int, VIEW_POS_LIM as int);
            lemma_mul_bound(u_x as int, px as int, SCALE as int, VIEW_POS_LIM as int);
            lemma_fp_bound(u_x as int, px as int, VIEW_POS_LIM as int);
            lemma_mul_bound(pc as int, py as int, SCALE as int, VIEW_POS_LIM as int);
            lemma_fp_bound(pc as int, py as int, VIEW_POS_LIM as int);
            lemma_mul_bound(u_z as int, pz as int, SCALE as int, VIEW_POS_LIM as int);
            lemma_fp_bound(u_z as int, pz as int, VIEW_POS_LIM as int);
            lemma_mul_bound(f_x as int, px as int, SCALE as int, VIEW_POS_LIM as int);
            lemma_fp_bound(f_x as int, px as int, VIEW_POS_LIM as int);
            lemma_mul_bound(ps as int, py as int, SCALE as int, VIEW_POS_LIM as int);
            lemma_fp_bound(ps as int, py as int, VIEW_POS_LIM as int);
            lemma_mul_bound(f_z as int, pz as int, SCALE as int, VIEW_POS_LIM as int);
            lemma_fp_bound(f_z as int, pz as int, VIEW_POS_LIM as int);
        }
        let dot_s: i64 = fp_mul(neg_ys, px) + fp_mul(yc, pz);
        let dot_u: i64 = fp_mul(u_x, px) + fp_mul(pc, py) + fp_mul(u_z, pz);
        let dot_f: i64 = fp_mul(f_x, px) + fp_mul(ps, py) + fp_mul(f_z, pz);
        Mat4 {
            c0: Vec4Fix { x: neg_ys, y: u_x, z: -f_x, w: 0 },
            c1: Vec4Fix { x: 0, y: pc, z: neg_ps, w: 0 },
            c2: Vec4Fix { x: yc, y: u_z, z: -f_z, w: 0 },
            c3: Vec4Fix { x: -dot_s, y: -dot_u, z: dot_f, w: SCALE },
        }
    }
}

} // verus!
