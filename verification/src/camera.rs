//! First-person fly camera: a `Camera` holding the view parameters and a
//! `CameraController` that folds key and mouse input into movement flags and
//! yaw/pitch angles, applied to the camera once per tick.
//!
//! Angles are fixed-point radians (`SCALE` ticks per radian); positions and
//! speeds are fixed-point units (`SCALE` ticks per unit).

use vstd::prelude::*;

use crate::SCALE;
use crate::fixed::{clamp_i, mul_div, sat_add, sat_i64, tdiv, lemma_tdiv_mul_bound};

verus! {

/// Fixed-point value of the right angle (pi / 2 radians, rounded to ticks).
/// Accumulated pitch is clamped to `[-PITCH_LIMIT, PITCH_LIMIT]`.
pub const PITCH_LIMIT: i64 = 1_570_796;

/// Upper bound on the movement speed a controller accepts (a million units
/// per second), so that the per-tick stepping arithmetic stays in `i64` range.
pub const SPEED_MAX: i64 = 1_000_000 * SCALE;

/// Tolerance on the squared norm of a direction vector handed to the
/// camera: it must equal `SCALE * SCALE` (a unit vector) up to this slack,
/// which admits any unit vector of length within one hundred-thousandth of
/// one, rounded componentwise to ticks.
pub const NORM_TOL: i64 = 20_000_000;

/// The starting yaw: minus ninety radians. Yaw accumulates without
/// wrap-around; the trigonometry that consumes it is periodic anyway.
pub const YAW_START: i64 = -90 * SCALE;

/// The keys the camera controller reacts to. The bindings pair `Z` with
/// forward and `Q` with left (alongside the arrow keys), suiting a
/// French-layout keyboard; `Other` stands for every key outside the fixed
/// set, which the controller leaves to the application.
#[derive(Clone, Copy, PartialEq, Eq, Structural, Debug)]
pub enum Key {
    Space,
    LShift,
    Z,
    Q,
    S,
    D,
    Up,
    Down,
    Left,
    Right,
    Other,
}

/// Which movement flag a key drives, if any.
pub enum KeyAction {
    MoveUp,
    MoveDown,
    MoveForward,
    MoveBackward,
    MoveLeft,
    MoveRight,
    Unbound,
}

/// The fixed key binding: space/shift move vertically, Z/Q/S/D and the
/// arrow keys move in the horizontal plane.
pub open spec fn key_action(key: Key) -> KeyAction {
    match key {
        Key::Space => KeyAction::MoveUp,
        Key::LShift => KeyAction::MoveDown,
        Key::Z | Key::Up => KeyAction::MoveForward,
        Key::Q | Key::Left => KeyAction::MoveLeft,
        Key::S | Key::Down => KeyAction::MoveBackward,
        Key::D | Key::Right => KeyAction::MoveRight,
        Key::Other => KeyAction::Unbound,
    }
}

/// A three-component fixed-point vector (`SCALE` ticks per unit).
#[derive(Clone, Copy, PartialEq, Eq, Structural, Debug)]
pub struct Vec3 {
    pub x: i64,
    pub y: i64,
    pub z: i64,
}

/// The squared norm of `v`, in square ticks.
pub open spec fn norm_sq(v: Vec3) -> int {
    v.x * v.x + v.y * v.y + v.z * v.z
}

/// `v` is a unit vector up to the componentwise rounding slack `NORM_TOL`.
pub open spec fn near_unit(v: Vec3) -> bool {
    SCALE * SCALE - NORM_TOL <= norm_sq(v) <= SCALE * SCALE + NORM_TOL
}

/// A vector of nearly unit length has every component within two units.
pub proof fn lemma_near_unit_bounded(v: Vec3)
    requires
        near_unit(v),
    ensures
        -2 * SCALE <= v.x <= 2 * SCALE,
        -2 * SCALE <= v.y <= 2 * SCALE,
        -2 * SCALE <= v.z <= 2 * SCALE,
{
    assert(0 <= v.x * v.x && 0 <= v.y * v.y && 0 <= v.z * v.z) by (nonlinear_arith);
    assert(-2 * SCALE <= v.x <= 2 * SCALE) by (nonlinear_arith)
        requires
            v.x * v.x <= SCALE * SCALE + NORM_TOL,
    ;
    assert(-2 * SCALE <= v.y <= 2 * SCALE) by (nonlinear_arith)
        requires
            v.y * v.y <= SCALE * SCALE + NORM_TOL,
    ;
    assert(-2 * SCALE <= v.z <= 2 * SCALE) by (nonlinear_arith)
        requires
            v.z * v.z <= SCALE * SCALE + NORM_TOL,
    ;
}

/// The fly camera: an eye position, a viewing direction, an up vector, and
/// the projection parameters. All continuous values are fixed point; `fovy`
/// is in fixed-point degrees, the clip distances in fixed-point units.
#[derive(Clone, Copy, PartialEq, Eq, Structural, Debug)]
pub struct Camera {
    pub eye: Vec3,
    pub front: Vec3,
    pub up: Vec3,
    pub aspect: i64,
    pub fovy: i64,
    pub znear: i64,
    pub zfar: i64,
}

/// The angle added by a pointer motion of `d` fixed-point pixels at the
/// given sensitivity.
pub open spec fn angle_delta(d: int, sensitivity: int) -> int {
    tdiv(d * sensitivity, SCALE as int)
}

/// The fixed startup camera of a surface with the given dimensions.
pub open spec fn start_camera(width: u32, height: u32) -> Camera {
    Camera {
        eye: Vec3 { x: 0, y: SCALE, z: (2 * SCALE) as i64 },
        front: Vec3 { x: 0, y: 0, z: (-SCALE) as i64 },
        up: Vec3 { x: 0, y: SCALE, z: 0 },
        aspect: tdiv(width as int * SCALE as int, height as int) as i64,
        fovy: (45 * SCALE) as i64,
        znear: (SCALE / 10) as i64,
        zfar: (100 * SCALE) as i64,
    }
}

impl Camera {
    /// The viewing direction and the up vector stay of (nearly) unit length.
    pub open spec fn wf(self) -> bool {
        &&& near_unit(self.front)
        &&& near_unit(self.up)
    }

    /// The fixed startup camera: one unit up and two back from the origin,
    /// looking down the negative depth axis, with a forty-five degree
    /// vertical field of view and the aspect ratio of the given surface.
    pub fn start(width: u32, height: u32) -> (c: Camera)
        requires
            height > 0,
        ensures
            c.wf(),
            c == start_camera(width, height),
    {
        proof {
            lemma_tdiv_mul_bound(width as int, SCALE as int, height as int, SCALE as int);
            assert(norm_sq(Vec3 { x: 0, y: 0, z: -1_000_000i64 }) == 1_000_000_000_000)
                by (nonlinear_arith);
            assert(norm_sq(Vec3 { x: 0, y: 1_000_000i64, z: 0 }) == 1_000_000_000_000)
                by (nonlinear_arith);
        }
        let aspect = mul_div(width as i64, SCALE, height as i64);
        Camera {
            eye: Vec3 { x: 0, y: SCALE, z: 2 * SCALE },
            front: Vec3 { x: 0, y: 0, z: -SCALE },
            up: Vec3 { x: 0, y: SCALE, z: 0 },
            aspect,
            fovy: 45 * SCALE,
            znear: SCALE / 10,
            zfar: 100 * SCALE,
        }
    }
}

/// One saturating move of `eye` by `sign * (s * dir / SCALE)`, componentwise.
pub open spec fn move_along(eye: Vec3, dir: Vec3, s: int, sign: int) -> Vec3 {
    Vec3 {
        x: sat_i64(eye.x + sign * tdiv(s * dir.x, SCALE as int)) as i64,
        y: sat_i64(eye.y + sign * tdiv(s * dir.y, SCALE as int)) as i64,
        z: sat_i64(eye.z + sign * tdiv(s * dir.z, SCALE as int)) as i64,
    }
}

/// The whole-tick movement: each held flag contributes one move, in the
/// fixed order forward, backward, left, right, up, down. Forward and
/// backward follow the camera's current front, strafing follows the given
/// right vector, vertical movement follows the camera's up vector.
pub open spec fn moved_eye(c: CameraController, eye: Vec3, front: Vec3, right: Vec3, up: Vec3, s: int) -> Vec3 {
    let e1 = if c.is_forward_pressed { move_along(eye, front, s, 1) } else { eye };
    let e2 = if c.is_backward_pressed { move_along(e1, front, s, -1) } else { e1 };
    let e3 = if c.is_left_pressed { move_along(e2, right, s, -1) } else { e2 };
    let e4 = if c.is_right_pressed { move_along(e3, right, s, 1) } else { e3 };
    let e5 = if c.is_up_pressed { move_along(e4, up, s, 1) } else { e4 };
    if c.is_down_pressed { move_along(e5, up, s, -1) } else { e5 }
}

/// The distance moved in one tick: `speed` ticks per second times `dt_ms`
/// milliseconds, divided by one thousand.
pub open spec fn step_of(speed: int, dt_ms: int) -> int {
    tdiv(speed * dt_ms, 1000)
}

/// The controller after one key press or release: the flag the key drives
/// (if any) is set to `pressed`; nothing else moves.
pub open spec fn key_applied(c: CameraController, key: Key, pressed: bool) -> CameraController {
    match key_action(key) {
        KeyAction::MoveUp => CameraController { is_up_pressed: pressed, ..c },
        KeyAction::MoveDown => CameraController { is_down_pressed: pressed, ..c },
        KeyAction::MoveForward => CameraController { is_forward_pressed: pressed, ..c },
        KeyAction::MoveBackward => CameraController { is_backward_pressed: pressed, ..c },
        KeyAction::MoveLeft => CameraController { is_left_pressed: pressed, ..c },
        KeyAction::MoveRight => CameraController { is_right_pressed: pressed, ..c },
        KeyAction::Unbound => c,
    }
}

/// Accumulates raw input into movement flags and view angles, and applies
/// them to a camera once per tick. Does not own the camera.
pub struct CameraController {
    /// Movement speed, fixed-point units per second.
    pub speed: i64,
    /// Mouse sensitivity: fixed-point radians of rotation per pixel of
    /// pointer motion, as a fraction of `SCALE`.
    pub sensitivity: i64,

    pub is_up_pressed: bool,
    pub is_down_pressed: bool,
    pub is_forward_pressed: bool,
    pub is_backward_pressed: bool,
    pub is_left_pressed: bool,
    pub is_right_pressed: bool,

    /// Accumulated yaw, fixed-point radians, unbounded (saturating only at
    /// the ends of the 64-bit range).
    pub yaw: i64,
    /// Accumulated pitch, fixed-point radians, kept in `[-PITCH_LIMIT, PITCH_LIMIT]`.
    pub pitch: i64,
}

impl CameraController {
    /// The controller's angle accumulators stay bounded: yaw reduced within
    /// one full turn either way, pitch clamped to the right angle either way.
    pub open spec fn wf(self) -> bool {
        &&& -PITCH_LIMIT <= self.pitch <= PITCH_LIMIT
        &&& 0 <= self.speed <= SPEED_MAX
        &&& 0 <= self.sensitivity <= SCALE
    }

    /// A fresh controller: no key held, yaw at minus ninety, pitch level.
    pub fn new(speed: i64, sensitivity: i64) -> (c: CameraController)
        requires
            0 <= speed <= SPEED_MAX,
            0 <= sensitivity <= SCALE,
        ensures
            c.wf(),
            c.speed == speed,
            c.sensitivity == sensitivity,
            !c.is_up_pressed,
            !c.is_down_pressed,
            !c.is_forward_pressed,
            !c.is_backward_pressed,
            !c.is_left_pressed,
            !c.is_right_pressed,
            c.yaw == YAW_START,
            c.pitch == 0,
    {
        CameraController {
            speed,
            sensitivity,
            is_up_pressed: false,
            is_down_pressed: false,
            is_forward_pressed: false,
            is_backward_pressed: false,
            is_left_pressed: false,
            is_right_pressed: false,
            yaw: YAW_START,
            pitch: 0,
        }
    }

    /// Folds one key press or release into the movement flags. Returns
    /// whether the key belongs to the controller's fixed binding; an unbound
    /// key is reported unhandled so the application can act on it instead.
    pub fn process_window_event(&mut self, key: Key, pressed: bool) -> (handled: bool)
        ensures
            handled == !(key_action(key) is Unbound),
            *final(self) == key_applied(*old(self), key, pressed),
    {
        match key {
            Key::Space => {
                self.is_up_pressed = pressed;
                true
            }
            Key::LShift => {
                self.is_down_pressed = pressed;
                true
            }
            Key::Z | Key::Up => {
                self.is_forward_pressed = pressed;
                true
            }
            Key::Q | Key::Left => {
                self.is_left_pressed = pressed;
                true
            }
            Key::S | Key::Down => {
                self.is_backward_pressed = pressed;
                true
            }
            Key::D | Key::Right => {
                self.is_right_pressed = pressed;
                true
            }
            Key::Other => false,
        }
    }

    /// Folds one relative pointer motion of `(dx, dy)` fixed-point pixels
    /// into the view angles: yaw grows with rightward motion and
    /// accumulates without bound (saturating only at the ends of the 64-bit
    /// range, which no real input reaches); pitch grows with upward motion
    /// (the raw `dy` is inverted) and is clamped to a right angle either
    /// way, so the view can never flip over. Pointer motion is always
    /// consumed.
    pub fn process_device_event(&mut self, dx: i64, dy: i64) -> (handled: bool)
        requires
            old(self).wf(),
            i64::MIN < dx,
            i64::MIN < dy,
        ensures
            handled,
            final(self).wf(),
            final(self).speed == old(self).speed,
            final(self).sensitivity == old(self).sensitivity,
            final(self).is_up_pressed == old(self).is_up_pressed,
            final(self).is_down_pressed == old(self).is_down_pressed,
            final(self).is_forward_pressed == old(self).is_forward_pressed,
            final(self).is_backward_pressed == old(self).is_backward_pressed,
            final(self).is_left_pressed == old(self).is_left_pressed,
            final(self).is_right_pressed == old(self).is_right_pressed,
            final(self).pitch == clamp_i(
                old(self).pitch - angle_delta(dy as int, old(self).sensitivity as int),
                -PITCH_LIMIT as int,
                PITCH_LIMIT as int,
            ),
            final(self).yaw as int == sat_i64(
                old(self).yaw + angle_delta(dx as int, old(self).sensitivity as int),
            ),
    {
        proof {
            if dx >= 0 {
                lemma_tdiv_mul_bound(dx as int, self.sensitivity as int, SCALE as int, 1);
            } else {
                lemma_tdiv_mul_bound(-(dx as int), self.sensitivity as int, SCALE as int, 1);
                assert(-(dx as int) * self.sensitivity as int == -(dx as int * self.sensitivity as int))
                    by (nonlinear_arith);
                assert(tdiv(-(dx as int * self.sensitivity as int), SCALE as int)
                    == -tdiv(dx as int * self.sensitivity as int, SCALE as int));
            }
            if dy >= 0 {
                lemma_tdiv_mul_bound(dy as int, self.sensitivity as int, SCALE as int, 1);
            } else {
                lemma_tdiv_mul_bound(-(dy as int), self.sensitivity as int, SCALE as int, 1);
                assert(-(dy as int) * self.sensitivity as int == -(dy as int * self.sensitivity as int))
                    by (nonlinear_arith);
                assert(tdiv(-(dy as int * self.sensitivity as int), SCALE as int)
                    == -tdiv(dy as int * self.sensitivity as int, SCALE as int));
            }
        }
        let yaw_delta = mul_div(dx, self.sensitivity, SCALE);
        let pitch_delta = mul_div(dy, self.sensitivity, SCALE);

        self.yaw = sat_add(self.yaw, yaw_delta);

        // Pitch: subtract the scaled delta, then clamp.
        let lowered = sat_add(self.pitch, -pitch_delta);
        let new_pitch = if lowered < -PITCH_LIMIT {
            -PITCH_LIMIT
        } else if lowered > PITCH_LIMIT {
            PITCH_LIMIT
        } else {
            lowered
        };
        self.pitch = new_pitch;
        true
    }

    /// Applies one tick to the camera: for each held movement flag the eye
    /// travels `speed * dt_ms / 1000` along the matching direction (the
    /// camera's own front and up, and the given `right` vector for
    /// strafing), saturating at the ends of the coordinate range; then the
    /// viewing direction is replaced by `new_front`, the near-unit direction
    /// the application derived from this controller's yaw and pitch.
    pub fn update_camera(&self, camera: &mut Camera, dt_ms: u32, right: Vec3, new_front: Vec3)
        requires
            self.wf(),
            old(camera).wf(),
            near_unit(right),
            near_unit(new_front),
        ensures
            final(camera).wf(),
            final(camera).eye == moved_eye(
                *self,
                old(camera).eye,
                old(camera).front,
                right,
                old(camera).up,
                step_of(self.speed as int, dt_ms as int),
            ),
            final(camera).front == new_front,
            final(camera).up == old(camera).up,
            final(camera).aspect == old(camera).aspect,
            final(camera).fovy == old(camera).fovy,
            final(camera).znear == old(camera).znear,
            final(camera).zfar == old(camera).zfar,
    {
        proof {
            lemma_tdiv_mul_bound(dt_ms as int, self.speed as int, 1000, 1_000_000_000);
            assert(dt_ms as int * self.speed as int == self.speed as int * dt_ms as int)
                by (nonlinear_arith);
            assert(0 <= self.speed as int * dt_ms as int) by (nonlinear_arith)
                requires
                    0 <= self.speed,
                    0 <= dt_ms,
            ;
        }
        let step = mul_div(self.speed, dt_ms as i64, 1000);
        assert(0 <= step as int <= 4_500_000_000_000_000_000) by {
            vstd::arithmetic::div_mod::lemma_div_pos_is_pos(
                self.speed as int * dt_ms as int,
                1000,
            );
        };

        if self.is_forward_pressed {
            let f = camera.front;
            translate(&mut camera.eye, f, step, false);
        }
        if self.is_backward_pressed {
            let f = camera.front;
            translate(&mut camera.eye, f, step, true);
        }
        if self.is_left_pressed {
            translate(&mut camera.eye, right, step, true);
        }
        if self.is_right_pressed {
            translate(&mut camera.eye, right, step, false);
        }
        if self.is_up_pressed {
            let u = camera.up;
            translate(&mut camera.eye, u, step, false);
        }
        if self.is_down_pressed {
            let u = camera.up;
            translate(&mut camera.eye, u, step, true);
        }
        camera.front = new_front;
    }
}

/// Moves `eye` by `step * dir / SCALE` (negated when `back` is set),
/// saturating componentwise.
fn translate(eye: &mut Vec3, dir: Vec3, step: i64, back: bool)
    requires
        0 <= step <= 4_500_000_000_000_000_000,
        near_unit(dir),
    ensures
        *final(eye) == move_along(*old(eye), dir, step as int, if back { -1int } else { 1int }),
{
    proof {
        lemma_near_unit_bounded(dir);
        lemma_tdiv_mul_bound(step as int, dir.x as int, SCALE as int, 2);
        lemma_tdiv_mul_bound(step as int, dir.y as int, SCALE as int, 2);
        lemma_tdiv_mul_bound(step as int, dir.z as int, SCALE as int, 2);
    }
    let dx = mul_div(step, dir.x, SCALE);
    let dy = mul_div(step, dir.y, SCALE);
    let dz = mul_div(step, dir.z, SCALE);
    if back {
        eye.x = sat_add(eye.x, -dx);
        eye.y = sat_add(eye.y, -dy);
        eye.z = sat_add(eye.z, -dz);
    } else {
        eye.x = sat_add(eye.x, dx);
        eye.y = sat_add(eye.y, dy);
        eye.z = sat_add(eye.z, dz);
    }
}

} // verus!
