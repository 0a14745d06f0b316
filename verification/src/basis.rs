//! Orientation basis of the camera.
//!
//! The camera's orientation enters the library as a [`LookBasis`]: the sine
//! and cosine of the yaw and pitch angles, in fixed-point micro-units. The
//! caller samples them from whatever trigonometry it has; the library never
//! computes a sine itself. From such a sample [`view_basis`] builds the
//! right/up/forward frame of the view, held at scale `SCALE * SCALE` so that
//! every component is an exact product, and
//! [`lemma_view_basis_orthonormal`] shows that frame mutually orthogonal
//! and of equal length whenever the sample satisfies the Pythagorean
//! identities exactly.

use crate::camera::Vec3Fix;
use crate::fixed::{lemma_mul_bound, SCALE};
use vstd::prelude::*;

verus! {

/// Sines and cosines of the camera's yaw and pitch, in micro-units
/// (`SCALE` stands for 1.0).
#[derive(Clone, Copy, Debug, PartialEq, Eq, Structural)]
pub struct LookBasis {
    pub yaw_sin: i64,
    pub yaw_cos: i64,
    pub pitch_sin: i64,
    pub pitch_cos: i64,
}

impl LookBasis {
    /// Every component lies in `[-SCALE, SCALE]`, as a sine or cosine does.
    pub open spec fn wf(self) -> bool {
        &&& -(SCALE as int) <= self.yaw_sin as int <= SCALE as int
        &&& -(SCALE as int) <= self.yaw_cos as int <= SCALE as int
        &&& -(SCALE as int) <= self.pitch_sin as int <= SCALE as int
        &&& -(SCALE as int) <= self.pitch_cos as int <= SCALE as int
    }

    /// The two sine/cosine pairs satisfy the Pythagorean identity exactly.
    /// Trigonometric samples rounded to micro-units satisfy it only up to
    /// rounding; exact integer samples (such as axis-aligned directions or
    /// scaled Pythagorean triples) satisfy it on the nose.
    pub open spec fn exact(self) -> bool {
        &&& self.yaw_sin as int * self.yaw_sin as int + self.yaw_cos as int * self.yaw_cos as int
            == (SCALE as int) * (SCALE as int)
        &&& self.pitch_sin as int * self.pitch_sin as int + self.pitch_cos as int
            * self.pitch_cos as int == (SCALE as int) * (SCALE as int)
    }
}

/// The right/up/forward frame of the view, at scale `SCALE * SCALE`.
#[derive(Clone, Copy, Debug, PartialEq, Eq, Structural)]
pub struct ViewBasis {
    pub right: Vec3Fix,
    pub up: Vec3Fix,
    pub forward: Vec3Fix,
}

/// Forward direction at scale `SCALE * SCALE`: the look direction built
/// from yaw and pitch.
pub open spec fn forward_of(lk: LookBasis) -> (int, int, int) {
    (
        lk.yaw_cos as int * lk.pitch_cos as int,
        lk.pitch_sin as int * SCALE as int,
        lk.yaw_sin as int * lk.pitch_cos as int,
    )
}

/// Right direction at scale `SCALE * SCALE`: horizontal, from yaw alone.
pub open spec fn right_of(lk: LookBasis) -> (int, int, int) {
    (-(lk.yaw_sin as int * SCALE as int), 0int, lk.yaw_cos as int * SCALE as int)
}

/// Up direction at scale `SCALE * SCALE`: the cross product of right and
/// forward.
pub open spec fn up_of(lk: LookBasis) -> (int, int, int) {
    (
        -(lk.pitch_sin as int * lk.yaw_cos as int),
        lk.pitch_cos as int * SCALE as int,
        -(lk.pitch_sin as int * lk.yaw_sin as int),
    )
}

/// Dot product of two integer vectors.
pub open spec fn dot3(a: (int, int, int), b: (int, int, int)) -> int {
    a.0 * b.0 + a.1 * b.1 + a.2 * b.2
}

/// Squared length of the unit directions at scale `SCALE * SCALE`.
pub open spec fn unit_norm2() -> int {
    (SCALE as int) * (SCALE as int) * (SCALE as int) * (SCALE as int)
}

/// Builds the view frame from an orientation sample.
pub fn view_basis(look: &LookBasis) -> (b: ViewBasis)
    requires
        look.wf(),
    ensures
        (b.forward.x as int, b.forward.y as int, b.forward.z as int) == forward_of(*look),
        (b.right.x as int, b.right.y as int, b.right.z as int) == right_of(*look),
        (b.up.x as int, b.up.y as int, b.up.z as int) == up_of(*look),
{
    proof {
        lemma_mul_bound(look.yaw_cos as int, look.pitch_cos as int, SCALE as int, SCALE as int);
        lemma_mul_bound(look.pitch_sin as int, SCALE as int, SCALE as int, SCALE as int);
        lemma_mul_bound(look.yaw_sin as int, look.pitch_cos as int, SCALE as int, SCALE as int);
        lemma_mul_bound(look.yaw_sin as int, SCALE as int, SCALE as int, SCALE as int);
        lemma_mul_bound(look.yaw_cos as int, SCALE as int, SCALE as int, SCALE as int);
        lemma_mul_bound(look.pitch_sin as int, look.yaw_cos as int, SCALE as int, SCALE as int);
        lemma_mul_bound(look.pitch_cos as int, SCALE as int, SCALE as int, SCALE as int);
        lemma_mul_bound(look.pitch_sin as int, look.yaw_sin as int, SCALE as int, SCALE as int);
    }
    ViewBasis {
        right: Vec3Fix {
            x: -(look.yaw_sin * SCALE),
            y: 0,
            z: look.yaw_cos * SCALE,
        },
        up: Vec3Fix {
            x: -(look.pitch_sin * look.yaw_cos),
            y: look.pitch_cos * SCALE,
            z: -(look.pitch_sin * look.yaw_sin),
        },
        forward: Vec3Fix {
            x: look.yaw_cos * look.pitch_cos,
            y: look.pitch_sin * SCALE,
            z: look.yaw_sin * look.pitch_cos,
        },
    }
}

/// For every exact orientation sample, the view frame is orthonormal:
/// right, up and forward are mutually orthogonal and all three have the
/// squared length of a unit direction.
pub proof fn lemma_view_basis_orthonormal(lk: LookBasis)
    requires
        lk.exact(),
    ensures
        dot3(forward_of(lk), right_of(lk)) == 0,
        dot3(forward_of(lk), up_of(lk)) == 0,
        dot3(right_of(lk), up_of(lk)) == 0,
        dot3(forward_of(lk), forward_of(lk)) == unit_norm2(),
        dot3(right_of(lk), right_of(lk)) == unit_norm2(),
        dot3(up_of(lk), up_of(lk)) == unit_norm2(),
{
    let ys = lk.yaw_sin as int;
    let yc = lk.yaw_cos as int;
    let ps = lk.pitch_sin as int;
    let pc = lk.pitch_cos as int;
    let s = SCALE as int;
    lemma_ortho_forward_right(ys, yc, ps, pc, s);
    lemma_ortho_forward_up(ys, yc, ps, pc, s);
    lemma_ortho_right_up(ys, yc, ps, pc, s);
    lemma_norm_forward(ys, yc, ps, pc, s);
    lemma_norm_right(ys, yc, ps, pc, s);
    lemma_norm_up(ys, yc, ps, pc, s);
}

/// Forward and right are orthogonal.
proof fn lemma_ortho_forward_right(ys: int, yc: int, ps: int, pc: int, s: int)
    by (nonlinear_arith)
    ensures
        (yc * pc) * (-(ys * s)) + (ps * s) * 0 + (ys * pc) * (yc * s) == 0,
{
}

/// Forward and up are orthogonal.
proof fn lemma_ortho_forward_up(ys: int, yc: int, ps: int, pc: int, s: int)
    requires
        ys * ys + yc * yc == s * s,
    ensures
        (yc * pc) * (-(ps * yc)) + (ps * s) * (pc * s) + (ys * pc) * (-(ps * ys)) == 0,
{
    assert((yc * pc) * (-(ps * yc)) == -((ps * pc) * (yc * yc))) by (nonlinear_arith);
    assert((ps * s) * (pc * s) == (ps * pc) * (s * s)) by (nonlinear_arith);
    assert((ys * pc) * (-(ps * ys)) == -((ps * pc) * (ys * ys))) by (nonlinear_arith);
    assert(-((ps * pc) * (yc * yc)) + (ps * pc) * (s * s) + (-((ps * pc) * (ys * ys))) == 0)
        by (nonlinear_arith)
        requires
            ys * ys + yc * yc == s * s,
    ;
}

/// Right and up are orthogonal.
proof fn lemma_ortho_right_up(ys: int, yc: int, ps: int, pc: int, s: int)
    by (nonlinear_arith)
    ensures
        (-(ys * s)) * (-(ps * yc)) + 0 * (pc * s) + (yc * s) * (-(ps * ys)) == 0,
{
}

/// Forward has unit squared length.
proof fn lemma_norm_forward(ys: int, yc: int, ps: int, pc: int, s: int)
    requires
        ys * ys + yc * yc == s * s,
        ps * ps + pc * pc == s * s,
    ensures
        (yc * pc) * (yc * pc) + (ps * s) * (ps * s) + (ys * pc) * (ys * pc) == s * s * s * s,
{
    assert((yc * pc) * (yc * pc) == (yc * yc) * (pc * pc)) by (nonlinear_arith);
    assert((ys * pc) * (ys * pc) == (ys * ys) * (pc * pc)) by (nonlinear_arith);
    assert((ps * s) * (ps * s) == (ps * ps) * (s * s)) by (nonlinear_arith);
    assert((yc * yc) * (pc * pc) + (ys * ys) * (pc * pc) == (s * s) * (pc * pc))
        by (nonlinear_arith)
        requires
            ys * ys + yc * yc == s * s,
    ;
    assert((s * s) * (pc * pc) + (ps * ps) * (s * s) == (s * s) * (s * s)) by (nonlinear_arith)
        requires
            ps * ps + pc * pc == s * s,
    ;
    assert((s * s) * (s * s) == s * s * s * s) by (nonlinear_arith);
}

/// Right has unit squared length.
proof fn lemma_norm_right(ys: int, yc: int, ps: int, pc: int, s: int)
    by (nonlinear_arith)
    requires
        ys * ys + yc * yc == s * s,
    ensures
        (-(ys * s)) * (-(ys * s)) + 0 * 0 + (yc * s) * (yc * s) == s * s * s * s,
{
}

/// Up has unit squared length.
proof fn lemma_norm_up(ys: int, yc: int, ps: int, pc: int, s: int)
    requires
        ys * ys + yc * yc == s * s,
        ps * ps + pc * pc == s * s,
    ensures
        (-(ps * yc)) * (-(ps * yc)) + (pc * s) * (pc * s) + (-(ps * ys)) * (-(ps * ys)) == s * s
            * s * s,
{
    assert((-(ps * yc)) * (-(ps * yc)) == (ps * ps) * (yc * yc)) by (nonlinear_arith);
    assert((-(ps * ys)) * (-(ps * ys)) == (ps * ps) * (ys * ys)) by (nonlinear_arith);
    assert((pc * s) * (pc * s) == (pc * pc) * (s * s)) by (nonlinear_arith);
    assert((ps * ps) * (yc * yc) + (ps * ps) * (ys * ys) == (ps * ps) * (s * s))
        by (nonlinear_arith)
        requires
            ys * ys + yc * yc == s * s,
    ;
    assert((ps * ps) * (s * s) + (pc * pc) * (s * s) == (s * s) * (s * s)) by (nonlinear_arith)
        requires
            ps * ps + pc * pc == s * s,
    ;
    assert((s * s) * (s * s) == s * s * s * s) by (nonlinear_arith);
}

} // verus!
