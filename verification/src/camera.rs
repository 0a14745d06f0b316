//! Free-fly camera state and the controller that drives it.
//!
//! All quantities are fixed-point micro-units ([`crate::fixed::SCALE`] is
//! 1.0): positions in micro-world-units, angles in micro-radians, durations
//! in micro-seconds. [`CameraController`] accumulates discrete input events
//! and [`CameraController::update_camera`] integrates them into a
//! [`CameraData`] once per frame. The controller never computes a sine or
//! cosine; the caller samples them into a [`LookBasis`] from the camera's
//! angles before the update, so the frame's translation uses the orientation
//! from before that frame's rotation, as the per-frame sequence demands.

use crate::basis::LookBasis;
use crate::fixed::{fp, fp_mul, lemma_fp_bound, lemma_fp_zero, lemma_mul_bound, SCALE};
use vstd::prelude::*;

verus! {

/// Pi in micro-radians, rounded to the nearest micro-unit.
pub const PI_MICRO: i64 = 3_141_593;

/// Half pi in micro-radians, rounded toward zero: the pitch clamp bound.
pub const PITCH_MAX: i64 = 1_570_796;

/// Largest magnitude the controller accepts for speed, sensitivity,
/// rotation deltas and scroll (1000.0 in real units).
pub const CTRL_LIM: i64 = 1_000_000_000;

/// Largest frame duration the update accepts (100 seconds).
pub const DT_LIM: i64 = 100_000_000;

/// Largest position component magnitude the update accepts; keeps every
/// translation free of overflow.
pub const POS_LIM: i64 = 4_000_000_000_000_000_000;

/// Largest yaw or pitch magnitude the update accepts.
pub const ANG_LIM: i64 = 4_000_000_000_000_000_000;

/// A point or vector in micro-world-units.
#[derive(Clone, Copy, Debug, PartialEq, Eq, Structural)]
pub struct Vec3Fix {
    pub x: i64,
    pub y: i64,
    pub z: i64,
}

/// Camera pose: position in micro-units, yaw and pitch in micro-radians.
#[derive(Clone, Copy, Debug, PartialEq, Eq, Structural)]
pub struct CameraData {
    pub position: Vec3Fix,
    pub yaw: i64,
    pub pitch: i64,
}

/// The camera pose as unbounded integers, for specifications.
pub struct CameraState {
    pub x: int,
    pub y: int,
    pub z: int,
    pub yaw: int,
    pub pitch: int,
}

/// Reads a [`CameraData`] into its mathematical state.
pub open spec fn camera_state(c: CameraData) -> CameraState {
    CameraState {
        x: c.position.x as int,
        y: c.position.y as int,
        z: c.position.z as int,
        yaw: c.yaw as int,
        pitch: c.pitch as int,
    }
}

/// Micro-degrees to micro-radians, rounded toward zero.
pub open spec fn deg_to_rad(deg: int) -> int {
    let p = deg * (PI_MICRO as int);
    if p >= 0 {
        p / 180_000_000
    } else {
        -((-p) / 180_000_000)
    }
}

/// Converts an angle in micro-degrees to micro-radians.
pub fn degrees_to_radians(deg: i64) -> (r: i64)
    requires
        -360_000_000_000 <= deg <= 360_000_000_000,
    ensures
        r as int == deg_to_rad(deg as int),
{
    if deg >= 0 {
        proof {
            assert((deg as int) * (PI_MICRO as int) <= 1_200_000_000_000_000_000)
                by (nonlinear_arith)
                requires
                    0 <= deg <= 360_000_000_000,
                    PI_MICRO as int == 3_141_593,
            ;
        }
        let p: u64 = (deg as u64) * (PI_MICRO as u64);
        let q: u64 = p / 180_000_000;
        proof {
            vstd::arithmetic::div_mod::lemma_div_is_ordered_by_denominator(
                p as int,
                1,
                180_000_000,
            );
            vstd::arithmetic::div_mod::lemma_div_basics(p as int);
        }
        q as i64
    } else {
        let m: u64 = (-(deg as i128)) as u64;
        proof {
            assert(m <= 360_000_000_000);
            assert((m as int) * (PI_MICRO as int) <= 1_200_000_000_000_000_000) by (nonlinear_arith)
                requires
                    m <= 360_000_000_000,
                    PI_MICRO as int == 3_141_593,
            ;
        }
        let p: u64 = m * (PI_MICRO as u64);
        let q: u64 = p / 180_000_000;
        proof {
            vstd::arithmetic::div_mod::lemma_div_is_ordered_by_denominator(
                p as int,
                1,
                180_000_000,
            );
            vstd::arithmetic::div_mod::lemma_div_basics(p as int);
        }
        -(q as i64)
    }
}

impl CameraData {
    /// A camera at `position` with the given yaw and pitch in
    /// micro-radians.
    pub fn new(position: Vec3Fix, yaw: i64, pitch: i64) -> (r: CameraData)
        ensures
            r.position == position,
            r.yaw == yaw,
            r.pitch == pitch,
    {
        CameraData { position, yaw, pitch }
    }

    /// A camera at `position` with yaw and pitch given in micro-degrees.
    pub fn from_degrees(position: Vec3Fix, yaw_deg: i64, pitch_deg: i64) -> (r: CameraData)
        requires
            -360_000_000_000 <= yaw_deg <= 360_000_000_000,
            -360_000_000_000 <= pitch_deg <= 360_000_000_000,
        ensures
            r.position == position,
            r.yaw as int == deg_to_rad(yaw_deg as int),
            r.pitch as int == deg_to_rad(pitch_deg as int),
    {
        CameraData {
            position,
            yaw: degrees_to_radians(yaw_deg),
            pitch: degrees_to_radians(pitch_deg),
        }
    }
}

/// Perspective projection parameters. The aspect ratio is kept as the
/// width/height pair itself, so resizing is exact and needs no division.
#[derive(Clone, Copy, Debug, PartialEq, Eq, Structural)]
pub struct Projection {
    pub aspect_width: u32,
    pub aspect_height: u32,
    pub fovy: i64,
    pub znear: i64,
    pub zfar: i64,
}

impl Projection {
    /// The aspect ratio in micro-units: width over height, rounded toward
    /// zero.
    pub open spec fn aspect_micro(self) -> int {
        (self.aspect_width as int * (SCALE as int)) / (self.aspect_height as int)
    }

    /// A projection for a surface of the given pixel size, with the
    /// vertical field of view in micro-radians and near/far clip
    /// distances in micro-units.
    pub fn new(width: u32, height: u32, fovy: i64, znear: i64, zfar: i64) -> (r: Projection)
        requires
            width >= 1,
            height >= 1,
            0 < znear < zfar,
        ensures
            r.aspect_width == width,
            r.aspect_height == height,
            r.fovy == fovy,
            r.znear == znear,
            r.zfar == zfar,
    {
        Projection { aspect_width: width, aspect_height: height, fovy, znear, zfar }
    }

    /// Updates the aspect ratio to the new pixel size; the result does not
    /// depend on the previous aspect ratio. A zero dimension is the
    /// caller's responsibility to guard against.
    pub fn resize(&mut self, width: u32, height: u32)
        requires
            width >= 1,
            height >= 1,
        ensures
            final(self).aspect_width == width,
            final(self).aspect_height == height,
            final(self).fovy == old(self).fovy,
            final(self).znear == old(self).znear,
            final(self).zfar == old(self).zfar,
    {
        self.aspect_width = width;
        self.aspect_height = height;
    }
}

/// A camera-control key, as the input layer reports it. `Unmapped` stands
/// for every key the camera does not recognize.
#[derive(Clone, Copy, Debug, PartialEq, Eq, Structural)]
pub enum CameraKey {
    W,
    Up,
    S,
    Down,
    A,
    Left,
    D,
    Right,
    Space,
    LShift,
    Unmapped,
}

/// Pressed or released.
#[derive(Clone, Copy, Debug, PartialEq, Eq, Structural)]
pub enum KeyState {
    Pressed,
    Released,
}

/// A scroll event: line-based or pixel-based, with the unused horizontal
/// component kept for fidelity with the input source.
#[derive(Clone, Copy, Debug, PartialEq, Eq, Structural)]
pub enum ScrollDelta {
    Lines { x: i64, y: i64 },
    Pixels { x: i64, y: i64 },
}

/// The scroll accumulator value an event produces: lines count a hundred
/// units each, pixels count as they are; both negated.
pub open spec fn scroll_value(delta: ScrollDelta) -> int {
    match delta {
        ScrollDelta::Lines { x: _, y } => -(y as int * 100),
        ScrollDelta::Pixels { x: _, y } => -(y as int),
    }
}

/// Accumulated per-frame input and the fixed speed/sensitivity scalars,
/// all in micro-units. The directional amounts are level-triggered and
/// held between frames; rotation and scroll are overwritten by each event
/// and reset by the update.
#[derive(Clone, Copy, Debug, PartialEq, Eq, Structural)]
pub struct CameraController {
    pub amount_left: i64,
    pub amount_right: i64,
    pub amount_forward: i64,
    pub amount_backward: i64,
    pub amount_up: i64,
    pub amount_down: i64,
    pub rotate_horizontal: i64,
    pub rotate_vertical: i64,
    pub scroll: i64,
    pub speed: i64,
    pub sensitivity: i64,
}

/// A directional amount is unit-speed: either zero or one.
pub open spec fn amount_ok(a: int) -> bool {
    a == 0 || a == SCALE as int
}

impl CameraController {
    /// Well-formed controller state: unit-speed amounts and bounded
    /// scalars, which every update preserves and which keeps the
    /// integration free of overflow.
    pub open spec fn wf(self) -> bool {
        &&& amount_ok(self.amount_left as int)
        &&& amount_ok(self.amount_right as int)
        &&& amount_ok(self.amount_forward as int)
        &&& amount_ok(self.amount_backward as int)
        &&& amount_ok(self.amount_up as int)
        &&& amount_ok(self.amount_down as int)
        &&& -(CTRL_LIM as int) <= self.rotate_horizontal as int <= CTRL_LIM as int
        &&& -(CTRL_LIM as int) <= self.rotate_vertical as int <= CTRL_LIM as int
        &&& -(CTRL_LIM as int) <= self.scroll as int <= CTRL_LIM as int
        &&& -(CTRL_LIM as int) <= self.speed as int <= CTRL_LIM as int
        &&& -(CTRL_LIM as int) <= self.sensitivity as int <= CTRL_LIM as int
    }

    /// A controller with all accumulators cleared and the given speed and
    /// sensitivity in micro-units.
    pub fn new(speed: i64, sensitivity: i64) -> (r: CameraController)
        requires
            -CTRL_LIM <= speed <= CTRL_LIM,
            -CTRL_LIM <= sensitivity <= CTRL_LIM,
        ensures
            r == (CameraController {
                amount_left: 0i64,
                amount_right: 0i64,
                amount_forward: 0i64,
                amount_backward: 0i64,
                amount_up: 0i64,
                amount_down: 0i64,
                rotate_horizontal: 0i64,
                rotate_vertical: 0i64,
                scroll: 0i64,
                speed: speed,
                sensitivity: sensitivity,
            }),
            r.wf(),
    {
        CameraController {
            amount_left: 0,
            amount_right: 0,
            amount_forward: 0,
            amount_backward: 0,
            amount_up: 0,
            amount_down: 0,
            rotate_horizontal: 0,
            rotate_vertical: 0,
            scroll: 0,
            speed,
            sensitivity,
        }
    }

    /// Level-triggered key handling: sets the matching directional amount
    /// to one on press and zero on release, and reports whether the key
    /// was recognized so the input layer can propagate unhandled events.
    pub fn process_keyboard(&mut self, key: CameraKey, state: KeyState) -> (r: bool)
        ensures
            r == key_recognized(key),
            *final(self) == keyboard_applied(*old(self), key, state),
            old(self).wf() ==> final(self).wf(),
    {
        let amount: i64 = if state == KeyState::Pressed {
            SCALE
        } else {
            0
        };
        match key {
            CameraKey::W | CameraKey::Up => {
                self.amount_forward = amount;
                true
            },
            CameraKey::S | CameraKey::Down => {
                self.amount_backward = amount;
                true
            },
            CameraKey::A | CameraKey::Left => {
                self.amount_left = amount;
                true
            },
            CameraKey::D | CameraKey::Right => {
                self.amount_right = amount;
                true
            },
            CameraKey::Space => {
                self.amount_up = amount;
                true
            },
            CameraKey::LShift => {
                self.amount_down = amount;
                true
            },
            CameraKey::Unmapped => false,
        }
    }

    /// Edge-triggered pointer motion: overwrites both rotation deltas with
    /// the raw motion since the last poll.
    pub fn process_mouse(&mut self, mouse_dx: i64, mouse_dy: i64)
        requires
            -CTRL_LIM <= mouse_dx <= CTRL_LIM,
            -CTRL_LIM <= mouse_dy <= CTRL_LIM,
        ensures
            *final(self) == (CameraController {
                rotate_horizontal: mouse_dx,
                rotate_vertical: mouse_dy,
                ..*old(self)
            }),
            old(self).wf() ==> final(self).wf(),
    {
        self.rotate_horizontal = mouse_dx;
        self.rotate_vertical = mouse_dy;
    }

    /// Normalizes a scroll event and overwrites the scroll accumulator:
    /// last write wins, nothing accumulates.
    pub fn process_scroll(&mut self, delta: ScrollDelta)
        requires
            -(CTRL_LIM as int) <= scroll_value(delta) <= CTRL_LIM as int,
        ensures
            *final(self) == scrolled(*old(self), delta),
            old(self).wf() ==> final(self).wf(),
    {
        self.scroll = match delta {
            ScrollDelta::Lines { x: _, y } => -(y * 100),
            ScrollDelta::Pixels { x: _, y } => -y,
        };
    }
}

/// Whether the camera recognizes the key as one of its controls.
pub open spec fn key_recognized(key: CameraKey) -> bool {
    !(key == CameraKey::Unmapped)
}

/// The controller after a keyboard event.
pub open spec fn keyboard_applied(c: CameraController, key: CameraKey, state: KeyState)
    -> CameraController {
    let amount: i64 = if state == KeyState::Pressed {
        SCALE
    } else {
        0i64
    };
    match key {
        CameraKey::W | CameraKey::Up => CameraController { amount_forward: amount, ..c },
        CameraKey::S | CameraKey::Down => CameraController { amount_backward: amount, ..c },
        CameraKey::A | CameraKey::Left => CameraController { amount_left: amount, ..c },
        CameraKey::D | CameraKey::Right => CameraController { amount_right: amount, ..c },
        CameraKey::Space => CameraController { amount_up: amount, ..c },
        CameraKey::LShift => CameraController { amount_down: amount, ..c },
        CameraKey::Unmapped => c,
    }
}

/// The controller after a scroll event: only the scroll accumulator
/// changes, and its new value does not depend on the old one.
pub open spec fn scrolled(c: CameraController, delta: ScrollDelta) -> CameraController {
    CameraController { scroll: scroll_value(delta) as i64, ..c }
}

/// A second scroll event overwrites the first: scrolling twice without an
/// intervening update leaves exactly the state the second event alone
/// would have left.
pub proof fn lemma_scroll_last_write_wins(c: CameraController, d1: ScrollDelta, d2: ScrollDelta)
    ensures
        scrolled(scrolled(c, d1), d2) == scrolled(c, d2),
{
}

/// Clamps a pitch angle to the closed micro-radian interval
/// `[-PITCH_MAX, PITCH_MAX]`.
pub open spec fn clamp_pitch(p: int) -> int {
    if p < -(PITCH_MAX as int) {
        -(PITCH_MAX as int)
    } else if p > PITCH_MAX as int {
        PITCH_MAX as int
    } else {
        p
    }
}

/// The camera pose after one frame's integration: translation along the
/// yaw-only forward/right axes and the world-up axis, a scroll translation
/// along the full look direction, then the rotation deltas, with pitch
/// clamped. The translation uses the orientation sample taken before the
/// rotation is applied.
pub open spec fn updated_camera(cam: CameraState, c: CameraController, dt: int, lk: LookBasis)
    -> CameraState {
    let speed = c.speed as int;
    let sens = c.sensitivity as int;
    let ys = lk.yaw_sin as int;
    let yc = lk.yaw_cos as int;
    let ps = lk.pitch_sin as int;
    let pc = lk.pitch_cos as int;
    let dfwd = fp(fp(c.amount_forward as int - c.amount_backward as int, speed), dt);
    let dright = fp(fp(c.amount_right as int - c.amount_left as int, speed), dt);
    let dscroll = fp(fp(fp(c.scroll as int, speed), sens), dt);
    let dup = fp(fp(c.amount_up as int - c.amount_down as int, speed), dt);
    CameraState {
        x: cam.x + fp(yc, dfwd) + fp(-ys, dright) + fp(fp(pc, yc), dscroll),
        y: cam.y + fp(ps, dscroll) + dup,
        z: cam.z + fp(ys, dfwd) + fp(yc, dright) + fp(fp(pc, ys), dscroll),
        yaw: cam.yaw + fp(fp(c.rotate_horizontal as int, sens), dt),
        pitch: clamp_pitch(cam.pitch + fp(fp(-(c.rotate_vertical as int), sens), dt)),
    }
}

/// The controller after an update: rotation deltas and scroll reset to
/// zero, directional amounts and scalars kept.
pub open spec fn flushed(c: CameraController) -> CameraController {
    CameraController { rotate_horizontal: 0i64, rotate_vertical: 0i64, scroll: 0i64, ..c }
}

/// An update over a zero frame duration leaves the camera pose exactly as
/// it was (provided the pitch already sits inside the clamp interval,
/// which every update establishes), while the flushed controller still has
/// its rotation and scroll accumulators cleared.
pub proof fn lemma_update_zero_dt(cam: CameraState, c: CameraController, lk: LookBasis)
    requires
        -(PITCH_MAX as int) <= cam.pitch <= PITCH_MAX as int,
    ensures
        updated_camera(cam, c, 0, lk) == cam,
        flushed(c).rotate_horizontal == 0,
        flushed(c).rotate_vertical == 0,
        flushed(c).scroll == 0,
{
    let speed = c.speed as int;
    let sens = c.sensitivity as int;
    lemma_fp_zero(fp(c.amount_forward as int - c.amount_backward as int, speed));
    lemma_fp_zero(fp(c.amount_right as int - c.amount_left as int, speed));
    lemma_fp_zero(fp(fp(c.scroll as int, speed), sens));
    lemma_fp_zero(fp(c.amount_up as int - c.amount_down as int, speed));
    lemma_fp_zero(fp(c.rotate_horizontal as int, sens));
    lemma_fp_zero(fp(-(c.rotate_vertical as int), sens));
    lemma_fp_zero(lk.yaw_cos as int);
    lemma_fp_zero(-(lk.yaw_sin as int));
    lemma_fp_zero(lk.yaw_sin as int);
    lemma_fp_zero(fp(lk.pitch_cos as int, lk.yaw_cos as int));
    lemma_fp_zero(fp(lk.pitch_cos as int, lk.yaw_sin as int));
    lemma_fp_zero(lk.pitch_sin as int);
}

/// Whatever the inputs, the pitch of an updated camera lies inside the
/// clamp interval.
pub proof fn lemma_pitch_always_clamped(cam: CameraState, c: CameraController, dt: int, lk: LookBasis)
    ensures
        -(PITCH_MAX as int) <= updated_camera(cam, c, dt, lk).pitch <= PITCH_MAX as int,
{
}

impl CameraController {
    /// One frame's integration step. `dt` is the elapsed time in
    /// micro-seconds and `look` the sine/cosine sample of the camera's
    /// yaw and pitch taken before this call, so the frame's translation
    /// uses the orientation from before this frame's rotation. Resets the
    /// rotation and scroll accumulators; the new pose is exactly
    /// [`updated_camera`] of the old one, and its pitch is clamped.
    pub fn update_camera(&mut self, camera: &mut CameraData, dt: i64, look: &LookBasis)
        requires
            old(self).wf(),
            look.wf(),
            0 <= dt <= DT_LIM,
            -POS_LIM <= old(camera).position.x <= POS_LIM,
            -POS_LIM <= old(camera).position.y <= POS_LIM,
            -POS_LIM <= old(camera).position.z <= POS_LIM,
            -ANG_LIM <= old(camera).yaw <= ANG_LIM,
            -ANG_LIM <= old(camera).pitch <= ANG_LIM,
        ensures
            camera_state(*final(camera)) == updated_camera(
                camera_state(*old(camera)),
                *old(self),
                dt as int,
                *look,
            ),
            *final(self) == flushed(*old(self)),
            final(self).wf(),
            -PITCH_MAX <= final(camera).pitch <= PITCH_MAX,
    {
        let ys: i64 = look.yaw_sin;
        let yc: i64 = look.yaw_cos;
        let ps: i64 = look.pitch_sin;
        let pc: i64 = look.pitch_cos;

        // Forward/backward and strafing, from yaw only.
        let diff_fwd: i64 = self.amount_forward - self.amount_backward;
        let diff_right: i64 = self.amount_right - self.amount_left;
        proof {
            lemma_mul_bound(diff_fwd as int, self.speed as int, SCALE as int, CTRL_LIM as int);
            lemma_fp_bound(diff_fwd as int, self.speed as int, CTRL_LIM as int);
        }
        let t_fwd: i64 = fp_mul(diff_fwd, self.speed);
        proof {
            lemma_mul_bound(t_fwd as int, dt as int, CTRL_LIM as int, DT_LIM as int);
            lemma_fp_bound(t_fwd as int, dt as int, 100_000_000_000);
        }
        let d_fwd: i64 = fp_mul(t_fwd, dt);
        proof {
            lemma_mul_bound(diff_right as int, self.speed as int, SCALE as int, CTRL_LIM as int);
            lemma_fp_bound(diff_right as int, self.speed as int, CTRL_LIM as int);
        }
        let t_right: i64 = fp_mul(diff_right, self.speed);
        proof {
            lemma_mul_bound(t_right as int, dt as int, CTRL_LIM as int, DT_LIM as int);
            lemma_fp_bound(t_right as int, dt as int, 100_000_000_000);
        }
        let d_right: i64 = fp_mul(t_right, dt);

        // Scroll translation along the full look direction.
        proof {
            lemma_mul_bound(self.scroll as int, self.speed as int, CTRL_LIM as int, CTRL_LIM as int);
            lemma_fp_bound(self.scroll as int, self.speed as int, 1_000_000_000_000);
        }
        let s1: i64 = fp_mul(self.scroll, self.speed);
        proof {
            lemma_mul_bound(s1 as int, self.sensitivity as int, 1_000_000_000_000, CTRL_LIM as int);
            lemma_fp_bound(s1 as int, self.sensitivity as int, 1_000_000_000_000_000);
        }
        let s2: i64 = fp_mul(s1, self.sensitivity);
        proof {
            lemma_mul_bound(s2 as int, dt as int, 1_000_000_000_000_000, DT_LIM as int);
            lemma_fp_bound(s2 as int, dt as int, 100_000_000_000_000_000);
        }
        let d_scroll: i64 = fp_mul(s2, dt);
        proof {
            lemma_mul_bound(pc as int, yc as int, SCALE as int, SCALE as int);
            lemma_fp_bound(pc as int, yc as int, SCALE as int);
        }
        let sw_x: i64 = fp_mul(pc, yc);
        proof {
            lemma_mul_bound(pc as int, ys as int, SCALE as int, SCALE as int);
            lemma_fp_bound(pc as int, ys as int, SCALE as int);
        }
        let sw_z: i64 = fp_mul(pc, ys);

        // Vertical movement straight along the world-up axis.
        let diff_up: i64 = self.amount_up - self.amount_down;
        proof {
            lemma_mul_bound(diff_up as int, self.speed as int, SCALE as int, CTRL_LIM as int);
            lemma_fp_bound(diff_up as int, self.speed as int, CTRL_LIM as int);
        }
        let t_up: i64 = fp_mul(diff_up, self.speed);
        proof {
            lemma_mul_bound(t_up as int, dt as int, CTRL_LIM as int, DT_LIM as int);
            lemma_fp_bound(t_up as int, dt as int, 100_000_000_000);
        }
        let d_up: i64 = fp_mul(t_up, dt);

        // Project the translations onto the world axes.
        proof {
            lemma_mul_bound(yc as int, d_fwd as int, SCALE as int, 100_000_000_000);
            lemma_fp_bound(yc as int, d_fwd as int, 100_000_000_000);
            lemma_mul_bound(-(ys as int), d_right as int, SCALE as int, 100_000_000_000);
            lemma_fp_bound(-(ys as int), d_right as int, 100_000_000_000);
            lemma_mul_bound(sw_x as int, d_scroll as int, SCALE as int, 100_000_000_000_000_000);
            lemma_fp_bound(sw_x as int, d_scroll as int, 100_000_000_000_000_000);
        }
        let dx: i64 = fp_mul(yc, d_fwd) + fp_mul(-ys, d_right) + fp_mul(sw_x, d_scroll);
        proof {
            lemma_mul_bound(ps as int, d_scroll as int, SCALE as int, 100_000_000_000_000_000);
            lemma_fp_bound(ps as int, d_scroll as int, 100_000_000_000_000_000);
        }
        let dy: i64 = fp_mul(ps, d_scroll) + d_up;
        proof {
            lemma_mul_bound(ys as int, d_fwd as int, SCALE as int, 100_000_000_000);
            lemma_fp_bound(ys as int, d_fwd as int, 100_000_000_000);
            lemma_mul_bound(yc as int, d_right as int, SCALE as int, 100_000_000_000);
            lemma_fp_bound(yc as int, d_right as int, 100_000_000_000);
            lemma_mul_bound(sw_z as int, d_scroll as int, SCALE as int, 100_000_000_000_000_000);
            lemma_fp_bound(sw_z as int, d_scroll as int, 100_000_000_000_000_000);
        }
        let dz: i64 = fp_mul(ys, d_fwd) + fp_mul(yc, d_right) + fp_mul(sw_z, d_scroll);
        camera.position.x = camera.position.x + dx;
        camera.position.y = camera.position.y + dy;
        camera.position.z = camera.position.z + dz;
        self.scroll = 0;

        // Rotation, applied after the translation.
        proof {
            lemma_mul_bound(
                self.rotate_horizontal as int,
                self.sensitivity as int,
                CTRL_LIM as int,
                CTRL_LIM as int,
            );
            lemma_fp_bound(self.rotate_horizontal as int, self.sensitivity as int, 1_000_000_000_000);
        }
        let r_h: i64 = fp_mul(self.rotate_horizontal, self.sensitivity);
        proof {
            lemma_mul_bound(r_h as int, dt as int, 1_000_000_000_000, DT_LIM as int);
            lemma_fp_bound(r_h as int, dt as int, 100_000_000_000_000);
        }
        let d_yaw: i64 = fp_mul(r_h, dt);
        let neg_rv: i64 = -self.rotate_vertical;
        proof {
            lemma_mul_bound(neg_rv as int, self.sensitivity as int, CTRL_LIM as int, CTRL_LIM as int);
            lemma_fp_bound(neg_rv as int, self.sensitivity as int, 1_000_000_000_000);
        }
        let r_v: i64 = fp_mul(neg_rv, self.sensitivity);
        proof {
            lemma_mul_bound(r_v as int, dt as int, 1_000_000_000_000, DT_LIM as int);
            lemma_fp_bound(r_v as int, dt as int, 100_000_000_000_000);
        }
        let d_pitch: i64 = fp_mul(r_v, dt);
        camera.yaw = camera.yaw + d_yaw;
        let raw_pitch: i64 = camera.pitch + d_pitch;
        self.rotate_horizontal = 0;
        self.rotate_vertical = 0;

        // Keep the pitch inside the clamp interval.
        camera.pitch = if raw_pitch < -PITCH_MAX {
            -PITCH_MAX
        } else if raw_pitch > PITCH_MAX {
            PITCH_MAX
        } else {
            raw_pitch
        };
    }
}

} // verus!
