//! The first-person camera and its per-frame controller.
//!
//! The camera is the position/yaw/pitch ("fly") parameterization: a point in
//! the Y-up right-handed world frame plus two angles giving the view
//! direction. The controller gathers discrete key flags and accumulated
//! mouse and scroll deltas between frames; [`CameraController::update_camera`]
//! consumes them once per frame, moves and turns the camera by
//! time-scaled steps, clamps the pitch strictly inside a quarter turn, and
//! unconditionally re-zeroes the accumulated deltas.

use vstd::prelude::*;

use crate::fixed::Fx;
use crate::fixed::SCALE;
use crate::fixed::clamp_raw;
use crate::fixed::mul_raw;
use crate::fixed::lemma_mul_raw_bound;
use crate::trig::PI_RAW;
use crate::trig::HALF_PI_RAW;
use crate::trig::PITCH_LIMIT_RAW;
use crate::trig::sin_raw;
use crate::trig::cos_raw;
use crate::trig::wrap_raw;
use crate::trig::sin_fx;
use crate::trig::cos_fx;
use crate::trig::wrap_angle;
use crate::trig::lemma_sin_strictly_inside;
use crate::vec3::Vec3;
use crate::matrix::Mat4;
use crate::matrix::ENTRY_LIMIT_RAW;
use crate::matrix::mat_bounded_raw;
use crate::projection::Projection;
use crate::projection::proj_entry_raw;

verus! {

/// The largest magnitude of a camera position component: the world box the
/// camera is kept inside, so that every later matrix product stays exact.
pub const POS_LIMIT_RAW: i64 = 0x4000_0000;

/// The largest magnitude of an accumulated mouse or scroll delta.
pub const ACC_LIMIT_RAW: i64 = 0x4000_0000;

/// The largest magnitude of the controller's speed and sensitivity constants.
pub const SPEED_LIMIT_RAW: i64 = 0x400_0000;

/// The largest frame time accepted by the controller, about a thousand
/// seconds.
pub const DT_LIMIT_RAW: i64 = 0x400_0000;

/// A key the controller reacts to; anything else arrives as `Other` and is
/// ignored.
#[derive(Clone, Copy, Debug, PartialEq, Eq, Structural)]
pub enum Key {
    W,
    A,
    S,
    D,
    Up,
    Down,
    Left,
    Right,
    Space,
    LShift,
    Other,
}

/// The camera: a position and a yaw/pitch view direction.
#[derive(Clone, Copy, Debug, PartialEq, Eq, Structural)]
pub struct Camera {
    pub position: Vec3,
    pub yaw: Fx,
    pub pitch: Fx,
}

/// The per-frame input state: key flags, accumulated deltas, and tuning
/// constants.
#[derive(Clone, Copy, Debug, PartialEq, Eq, Structural)]
pub struct CameraController {
    pub move_forward: bool,
    pub move_backward: bool,
    pub move_left: bool,
    pub move_right: bool,
    pub move_up: bool,
    pub move_down: bool,
    pub rotate_horizontal: Fx,
    pub rotate_vertical: Fx,
    pub scroll: Fx,
    pub move_speed: Fx,
    pub sensitivity: Fx,
    pub scroll_speed: Fx,
}

/// The x-component of the view direction for the given angles.
pub open spec fn forward_x_raw(yaw: int, pitch: int) -> int {
    mul_raw(cos_raw(yaw), cos_raw(pitch))
}

/// The y-component of the view direction: the sine of the pitch.
pub open spec fn forward_y_raw(pitch: int) -> int {
    sin_raw(pitch)
}

/// The z-component of the view direction for the given angles.
pub open spec fn forward_z_raw(yaw: int, pitch: int) -> int {
    mul_raw(sin_raw(yaw), cos_raw(pitch))
}

/// The controller after one key event: the flag the key drives is set to
/// `down`; unrecognized keys change nothing.
pub open spec fn spec_set_key(c: CameraController, key: Key, down: bool) -> CameraController {
    match key {
        Key::W | Key::Up => CameraController { move_forward: down, ..c },
        Key::S | Key::Down => CameraController { move_backward: down, ..c },
        Key::A | Key::Left => CameraController { move_left: down, ..c },
        Key::D | Key::Right => CameraController { move_right: down, ..c },
        Key::Space => CameraController { move_up: down, ..c },
        Key::LShift => CameraController { move_down: down, ..c },
        Key::Other => c,
    }
}

/// The flag a key drives; `false` for unrecognized keys.
pub open spec fn spec_key_flag(c: CameraController, key: Key) -> bool {
    match key {
        Key::W | Key::Up => c.move_forward,
        Key::S | Key::Down => c.move_backward,
        Key::A | Key::Left => c.move_left,
        Key::D | Key::Right => c.move_right,
        Key::Space => c.move_up,
        Key::LShift => c.move_down,
        Key::Other => false,
    }
}

/// A signed unit amount from a pair of opposing flags.
pub open spec fn amount_raw(pos: bool, neg: bool) -> int {
    (if pos {
        SCALE as int
    } else {
        0
    }) - (if neg {
        SCALE as int
    } else {
        0
    })
}

/// One movement step: the flag amount times the speed, times the frame time.
pub open spec fn step_raw(amount: int, speed: int, dt: int) -> int {
    mul_raw(mul_raw(amount, speed), dt)
}

/// The x-component of the camera position after one tick.
pub open spec fn moved_pos_x_raw(c: CameraController, cam: Camera, dt: int) -> int {
    let sy = sin_raw(cam.yaw.raw as int);
    let cy = cos_raw(cam.yaw.raw as int);
    let cp = cos_raw(cam.pitch.raw as int);
    let step_f = step_raw(amount_raw(c.move_forward, c.move_backward), c.move_speed.raw as int, dt);
    let step_r = step_raw(amount_raw(c.move_right, c.move_left), c.move_speed.raw as int, dt);
    let step_s = mul_raw(mul_raw(c.scroll.raw as int, c.scroll_speed.raw as int), dt);
    clamp_raw(
        cam.position.x.raw + mul_raw(cy, step_f) + mul_raw(-sy, step_r) + mul_raw(
            mul_raw(cy, cp),
            step_s,
        ),
        -POS_LIMIT_RAW as int,
        POS_LIMIT_RAW as int,
    )
}

/// The y-component of the camera position after one tick.
pub open spec fn moved_pos_y_raw(c: CameraController, cam: Camera, dt: int) -> int {
    let sp = sin_raw(cam.pitch.raw as int);
    let step_u = step_raw(amount_raw(c.move_up, c.move_down), c.move_speed.raw as int, dt);
    let step_s = mul_raw(mul_raw(c.scroll.raw as int, c.scroll_speed.raw as int), dt);
    clamp_raw(
        cam.position.y.raw + step_u + mul_raw(sp, step_s),
        -POS_LIMIT_RAW as int,
        POS_LIMIT_RAW as int,
    )
}

/// The z-component of the camera position after one tick.
pub open spec fn moved_pos_z_raw(c: CameraController, cam: Camera, dt: int) -> int {
    let sy = sin_raw(cam.yaw.raw as int);
    let cy = cos_raw(cam.yaw.raw as int);
    let cp = cos_raw(cam.pitch.raw as int);
    let step_f = step_raw(amount_raw(c.move_forward, c.move_backward), c.move_speed.raw as int, dt);
    let step_r = step_raw(amount_raw(c.move_right, c.move_left), c.move_speed.raw as int, dt);
    let step_s = mul_raw(mul_raw(c.scroll.raw as int, c.scroll_speed.raw as int), dt);
    clamp_raw(
        cam.position.z.raw + mul_raw(sy, step_f) + mul_raw(cy, step_r) + mul_raw(
            mul_raw(sy, cp),
            step_s,
        ),
        -POS_LIMIT_RAW as int,
        POS_LIMIT_RAW as int,
    )
}

/// The yaw after one tick: turned by the accumulated horizontal delta times
/// the sensitivity and the frame time, wrapped back into `[-pi, pi]`.
pub open spec fn turned_yaw_raw(c: CameraController, cam: Camera, dt: int) -> int {
    wrap_raw(
        cam.yaw.raw + mul_raw(mul_raw(c.rotate_horizontal.raw as int, c.sensitivity.raw as int), dt),
    )
}

/// The pitch after one tick: turned against the accumulated vertical delta
/// times the sensitivity and the frame time, clamped strictly inside a
/// quarter turn.
pub open spec fn turned_pitch_raw(c: CameraController, cam: Camera, dt: int) -> int {
    clamp_raw(
        cam.pitch.raw - mul_raw(mul_raw(c.rotate_vertical.raw as int, c.sensitivity.raw as int), dt),
        -PITCH_LIMIT_RAW as int,
        PITCH_LIMIT_RAW as int,
    )
}

impl Camera {
    /// The camera's validity bounds: the position inside the world box, the
    /// yaw wrapped, the pitch clamped.
    pub open spec fn wf(self) -> bool {
        &&& self.position.bounded(POS_LIMIT_RAW as int)
        &&& self.yaw.bounded(PI_RAW as int)
        &&& self.pitch.bounded(PITCH_LIMIT_RAW as int)
    }

    /// The camera the renderer starts with: one unit up and two units back
    /// from the origin, looking along the negative z-axis.
    pub fn new() -> (r: Camera)
        ensures
            r.position.x.raw == 0,
            r.position.y.raw == SCALE,
            r.position.z.raw == 2 * SCALE,
            r.yaw.raw == -HALF_PI_RAW,
            r.pitch.raw == 0,
            r.wf(),
    {
        Camera {
            position: Vec3 { x: Fx { raw: 0 }, y: Fx { raw: SCALE }, z: Fx { raw: 2 * SCALE } },
            yaw: Fx { raw: -HALF_PI_RAW },
            pitch: Fx { raw: 0 },
        }
    }

    /// The view direction: the spherical-to-Cartesian conversion of yaw and
    /// pitch in the Y-up right-handed frame.
    pub fn forward(&self) -> (r: Vec3)
        requires
            self.wf(),
        ensures
            r.x.raw == forward_x_raw(self.yaw.raw as int, self.pitch.raw as int),
            r.y.raw == forward_y_raw(self.pitch.raw as int),
            r.z.raw == forward_z_raw(self.yaw.raw as int, self.pitch.raw as int),
            r.bounded(SCALE as int),
    {
        let sy = sin_fx(self.yaw);
        let cy = cos_fx(self.yaw);
        let sp = sin_fx(self.pitch);
        let cp = cos_fx(self.pitch);
        proof {
            lemma_mul_raw_bound(cy.raw as int, cp.raw as int, SCALE as int, SCALE as int);
            lemma_mul_raw_bound(sy.raw as int, cp.raw as int, SCALE as int, SCALE as int);
        }
        Vec3 { x: cy.mul(cp), y: sp, z: sy.mul(cp) }
    }
}

/// For every pitch in the clamped range, the vertical component of the view
/// direction stays strictly below one in magnitude: the camera never looks
/// straight at a pole, so the view basis never degenerates.
pub proof fn lemma_forward_y_off_poles(cam: Camera)
    requires
        cam.wf(),
    ensures
        -SCALE < forward_y_raw(cam.pitch.raw as int) < SCALE,
{
    lemma_sin_strictly_inside(cam.pitch.raw as int);
}

/// A signed unit amount from a pair of opposing flags.
fn amount(pos: bool, neg: bool) -> (r: Fx)
    ensures
        r.raw == amount_raw(pos, neg),
        r.bounded(SCALE as int),
{
    let p: i64 = if pos {
        SCALE
    } else {
        0
    };
    let n: i64 = if neg {
        SCALE
    } else {
        0
    };
    Fx { raw: p - n }
}

/// One movement step: amount times speed times frame time.
fn scaled_step(amount_v: Fx, speed: Fx, dt: Fx) -> (r: Fx)
    requires
        amount_v.bounded(SCALE as int),
        speed.bounded(SPEED_LIMIT_RAW as int),
        0 <= dt.raw <= DT_LIMIT_RAW,
    ensures
        r.raw == step_raw(amount_v.raw as int, speed.raw as int, dt.raw as int),
        r.bounded(0x10_0000_0000),
{
    proof {
        lemma_mul_raw_bound(amount_v.raw as int, speed.raw as int, SCALE as int, SPEED_LIMIT_RAW as int);
    }
    let s1 = amount_v.mul(speed);
    proof {
        lemma_mul_raw_bound(s1.raw as int, dt.raw as int, SPEED_LIMIT_RAW as int, DT_LIMIT_RAW as int);
    }
    s1.mul(dt)
}

/// One accumulated-delta step: delta times a tuning constant times frame time.
fn delta_step(delta: Fx, tuning: Fx, dt: Fx) -> (r: Fx)
    requires
        delta.bounded(ACC_LIMIT_RAW as int),
        tuning.bounded(SPEED_LIMIT_RAW as int),
        0 <= dt.raw <= DT_LIMIT_RAW,
    ensures
        r.raw == mul_raw(mul_raw(delta.raw as int, tuning.raw as int), dt.raw as int),
        r.bounded(0x4_0000_0000_0000),
{
    proof {
        lemma_mul_raw_bound(delta.raw as int, tuning.raw as int, ACC_LIMIT_RAW as int, SPEED_LIMIT_RAW as int);
    }
    let s1 = delta.mul(tuning);
    proof {
        lemma_mul_raw_bound(s1.raw as int, dt.raw as int, 0x100_0000_0000, DT_LIMIT_RAW as int);
    }
    s1.mul(dt)
}

/// A direction component times a step.
fn trig_scaled(t: Fx, step: Fx) -> (r: Fx)
    requires
        t.bounded(SCALE as int),
        step.bounded(0x4_0000_0000_0000),
    ensures
        r.raw == mul_raw(t.raw as int, step.raw as int),
        r.bounded(0x4_0000_0000_0000),
{
    proof {
        lemma_mul_raw_bound(t.raw as int, step.raw as int, SCALE as int, 0x4_0000_0000_0000);
    }
    t.mul(step)
}

impl CameraController {
    /// The controller's validity bounds: tuning constants and accumulated
    /// deltas within their fixed ranges.
    pub open spec fn wf(self) -> bool {
        &&& self.rotate_horizontal.bounded(ACC_LIMIT_RAW as int)
        &&& self.rotate_vertical.bounded(ACC_LIMIT_RAW as int)
        &&& self.scroll.bounded(ACC_LIMIT_RAW as int)
        &&& self.move_speed.bounded(SPEED_LIMIT_RAW as int)
        &&& self.sensitivity.bounded(SPEED_LIMIT_RAW as int)
        &&& self.scroll_speed.bounded(SPEED_LIMIT_RAW as int)
    }

    /// A controller with no input pending and all tuning constants one.
    pub fn new() -> (r: CameraController)
        ensures
            r == (CameraController {
                move_forward: false,
                move_backward: false,
                move_left: false,
                move_right: false,
                move_up: false,
                move_down: false,
                rotate_horizontal: Fx { raw: 0 },
                rotate_vertical: Fx { raw: 0 },
                scroll: Fx { raw: 0 },
                move_speed: Fx { raw: SCALE },
                sensitivity: Fx { raw: SCALE },
                scroll_speed: Fx { raw: SCALE },
            }),
            r.wf(),
    {
        CameraController {
            move_forward: false,
            move_backward: false,
            move_left: false,
            move_right: false,
            move_up: false,
            move_down: false,
            rotate_horizontal: Fx { raw: 0 },
            rotate_vertical: Fx { raw: 0 },
            scroll: Fx { raw: 0 },
            move_speed: Fx { raw: SCALE },
            sensitivity: Fx { raw: SCALE },
            scroll_speed: Fx { raw: SCALE },
        }
    }

    /// A key went down: raise the flag it drives; unrecognized keys are
    /// ignored.
    pub fn process_keydown(&mut self, key: Key)
        ensures
            *final(self) == spec_set_key(*old(self), key, true),
    {
        self.set_key(key, true);
    }

    /// A key went up: lower the flag it drives; unrecognized keys are
    /// ignored.
    pub fn process_keyup(&mut self, key: Key)
        ensures
            *final(self) == spec_set_key(*old(self), key, false),
    {
        self.set_key(key, false);
    }

    fn set_key(&mut self, key: Key, down: bool)
        ensures
            *final(self) == spec_set_key(*old(self), key, down),
    {
        match key {
            Key::W | Key::Up => {
                self.move_forward = down;
            },
            Key::S | Key::Down => {
                self.move_backward = down;
            },
            Key::A | Key::Left => {
                self.move_left = down;
            },
            Key::D | Key::Right => {
                self.move_right = down;
            },
            Key::Space => {
                self.move_up = down;
            },
            Key::LShift => {
                self.move_down = down;
            },
            Key::Other => {},
        }
    }

    /// Mouse motion: the deltas accumulate until the next tick consumes
    /// them, saturating at the accumulator bound.
    pub fn on_mouse_move(&mut self, dx: Fx, dy: Fx)
        requires
            old(self).wf(),
            dx.bounded(ACC_LIMIT_RAW as int),
            dy.bounded(ACC_LIMIT_RAW as int),
        ensures
            final(self).rotate_horizontal.raw == clamp_raw(
                old(self).rotate_horizontal.raw + dx.raw,
                -ACC_LIMIT_RAW as int,
                ACC_LIMIT_RAW as int,
            ),
            final(self).rotate_vertical.raw == clamp_raw(
                old(self).rotate_vertical.raw + dy.raw,
                -ACC_LIMIT_RAW as int,
                ACC_LIMIT_RAW as int,
            ),
            *final(self) == (CameraController {
                rotate_horizontal: final(self).rotate_horizontal,
                rotate_vertical: final(self).rotate_vertical,
                ..*old(self)
            }),
            final(self).wf(),
    {
        let lo = Fx { raw: -ACC_LIMIT_RAW };
        let hi = Fx { raw: ACC_LIMIT_RAW };
        self.rotate_horizontal = self.rotate_horizontal.add(dx).clamp(lo, hi);
        self.rotate_vertical = self.rotate_vertical.add(dy).clamp(lo, hi);
    }

    /// Scroll input: the dolly amount accumulates until the next tick
    /// consumes it, saturating at the accumulator bound.
    pub fn on_scroll(&mut self, delta: Fx)
        requires
            old(self).wf(),
            delta.bounded(ACC_LIMIT_RAW as int),
        ensures
            final(self).scroll.raw == clamp_raw(
                old(self).scroll.raw + delta.raw,
                -ACC_LIMIT_RAW as int,
                ACC_LIMIT_RAW as int,
            ),
            *final(self) == (CameraController { scroll: final(self).scroll, ..*old(self) }),
            final(self).wf(),
    {
        let lo = Fx { raw: -ACC_LIMIT_RAW };
        let hi = Fx { raw: ACC_LIMIT_RAW };
        self.scroll = self.scroll.add(delta).clamp(lo, hi);
    }

    /// One frame tick: move the camera by the active flags and the
    /// accumulated scroll, turn it by the accumulated mouse deltas, clamp
    /// the pitch, keep the position inside the world box, and re-zero every
    /// accumulated delta unconditionally.
    pub fn update_camera(&mut self, camera: &mut Camera, dt: Fx)
        requires
            old(self).wf(),
            old(camera).wf(),
            0 <= dt.raw <= DT_LIMIT_RAW,
        ensures
            final(camera).position.x.raw == moved_pos_x_raw(*old(self), *old(camera), dt.raw as int),
            final(camera).position.y.raw == moved_pos_y_raw(*old(self), *old(camera), dt.raw as int),
            final(camera).position.z.raw == moved_pos_z_raw(*old(self), *old(camera), dt.raw as int),
            final(camera).yaw.raw == turned_yaw_raw(*old(self), *old(camera), dt.raw as int),
            final(camera).pitch.raw == turned_pitch_raw(*old(self), *old(camera), dt.raw as int),
            *final(self) == (CameraController {
                rotate_horizontal: Fx { raw: 0 },
                rotate_vertical: Fx { raw: 0 },
                scroll: Fx { raw: 0 },
                ..*old(self)
            }),
            final(camera).wf(),
            final(self).wf(),
    {
        let sy = sin_fx(camera.yaw);
        let cy = cos_fx(camera.yaw);
        let sp = sin_fx(camera.pitch);
        let cp = cos_fx(camera.pitch);

        let step_f = scaled_step(amount(self.move_forward, self.move_backward), self.move_speed, dt);
        let step_r = scaled_step(amount(self.move_right, self.move_left), self.move_speed, dt);
        let step_u = scaled_step(amount(self.move_up, self.move_down), self.move_speed, dt);
        let step_s = delta_step(self.scroll, self.scroll_speed, dt);

        proof {
            lemma_mul_raw_bound(cy.raw as int, cp.raw as int, SCALE as int, SCALE as int);
            lemma_mul_raw_bound(sy.raw as int, cp.raw as int, SCALE as int, SCALE as int);
        }
        let fwd_x = cy.mul(cp);
        let fwd_z = sy.mul(cp);

        let pos_lo = Fx { raw: -POS_LIMIT_RAW };
        let pos_hi = Fx { raw: POS_LIMIT_RAW };

        let new_x = camera.position.x.add(trig_scaled(cy, step_f)).add(
            trig_scaled(sy.neg(), step_r),
        ).add(trig_scaled(fwd_x, step_s)).clamp(pos_lo, pos_hi);
        let new_y = camera.position.y.add(step_u).add(trig_scaled(sp, step_s)).clamp(
            pos_lo,
            pos_hi,
        );
        let new_z = camera.position.z.add(trig_scaled(sy, step_f)).add(
            trig_scaled(cy, step_r),
        ).add(trig_scaled(fwd_z, step_s)).clamp(pos_lo, pos_hi);

        let yaw_step = delta_step(self.rotate_horizontal, self.sensitivity, dt);
        let new_yaw = wrap_angle(camera.yaw.add(yaw_step));
        let pitch_step = delta_step(self.rotate_vertical, self.sensitivity, dt);
        let pitch_lo = Fx { raw: -PITCH_LIMIT_RAW };
        let pitch_hi = Fx { raw: PITCH_LIMIT_RAW };
        let new_pitch = camera.pitch.sub(pitch_step).clamp(pitch_lo, pitch_hi);

        camera.position = Vec3 { x: new_x, y: new_y, z: new_z };
        camera.yaw = new_yaw;
        camera.pitch = new_pitch;
        self.rotate_horizontal = Fx { raw: 0 };
        self.rotate_vertical = Fx { raw: 0 };
        self.scroll = Fx { raw: 0 };
    }
}

/// Ticking with every movement flag off and no accumulated mouse or scroll
/// delta leaves the camera exactly where it was: position, yaw and pitch all
/// unchanged, for any frame time.
pub proof fn lemma_idle_tick_fixes_camera(c: CameraController, cam: Camera, dt: int)
    requires
        c.wf(),
        cam.wf(),
        0 <= dt <= DT_LIMIT_RAW,
        !c.move_forward,
        !c.move_backward,
        !c.move_left,
        !c.move_right,
        !c.move_up,
        !c.move_down,
        c.rotate_horizontal.raw == 0,
        c.rotate_vertical.raw == 0,
        c.scroll.raw == 0,
    ensures
        moved_pos_x_raw(c, cam, dt) == cam.position.x.raw,
        moved_pos_y_raw(c, cam, dt) == cam.position.y.raw,
        moved_pos_z_raw(c, cam, dt) == cam.position.z.raw,
        turned_yaw_raw(c, cam, dt) == cam.yaw.raw,
        turned_pitch_raw(c, cam, dt) == cam.pitch.raw,
{
    vstd::arithmetic::div_mod::lemma_div_of0(SCALE as int);
    assert(amount_raw(false, false) == 0);
    assert(mul_raw(0, c.move_speed.raw as int) == 0);
    assert(mul_raw(0, dt) == 0);
    assert(mul_raw(0, c.scroll_speed.raw as int) == 0);
    assert(mul_raw(0, c.sensitivity.raw as int) == 0);
    let sy = sin_raw(cam.yaw.raw as int);
    let cy = cos_raw(cam.yaw.raw as int);
    let sp = sin_raw(cam.pitch.raw as int);
    let cp = cos_raw(cam.pitch.raw as int);
    assert(mul_raw(cy, 0) == 0);
    assert(mul_raw(-sy, 0) == 0);
    assert(mul_raw(sy, 0) == 0);
    assert(mul_raw(sp, 0) == 0);
    assert(mul_raw(mul_raw(cy, cp), 0) == 0);
    assert(mul_raw(mul_raw(sy, cp), 0) == 0);
}

/// Pressing a key and releasing it again, with no tick in between, brings
/// the flag state back: the pair acts exactly like the release alone, and on
/// a controller whose flag was not already down it changes nothing at all.
pub proof fn lemma_key_press_release_round_trip(c: CameraController, key: Key)
    ensures
        spec_set_key(spec_set_key(c, key, true), key, false) == spec_set_key(c, key, false),
        !spec_key_flag(c, key) ==> spec_set_key(spec_set_key(c, key, true), key, false) == c,
{
}

/// The raw entry in row `i`, column `j` of the camera's view matrix: the
/// world-to-camera transform. Row 0 is the right vector, row 1 the up
/// vector, row 2 the negated view direction, each with the matching
/// translation; row 3 is the homogeneous row.
pub open spec fn view_entry_raw(cam: Camera, i: int, j: int) -> int {
    let sy = sin_raw(cam.yaw.raw as int);
    let cy = cos_raw(cam.yaw.raw as int);
    let sp = sin_raw(cam.pitch.raw as int);
    let cp = cos_raw(cam.pitch.raw as int);
    let px = cam.position.x.raw as int;
    let py = cam.position.y.raw as int;
    let pz = cam.position.z.raw as int;
    if i == 0 {
        if j == 0 {
            -sy
        } else if j == 1 {
            0
        } else if j == 2 {
            cy
        } else {
            -(mul_raw(-sy, px) + mul_raw(cy, pz))
        }
    } else if i == 1 {
        if j == 0 {
            mul_raw(-cy, sp)
        } else if j == 1 {
            cp
        } else if j == 2 {
            mul_raw(-sy, sp)
        } else {
            -(mul_raw(mul_raw(-cy, sp), px) + mul_raw(cp, py) + mul_raw(mul_raw(-sy, sp), pz))
        }
    } else if i == 2 {
        if j == 0 {
            -mul_raw(cy, cp)
        } else if j == 1 {
            -sp
        } else if j == 2 {
            -mul_raw(sy, cp)
        } else {
            mul_raw(mul_raw(cy, cp), px) + mul_raw(sp, py) + mul_raw(mul_raw(sy, cp), pz)
        }
    } else {
        if j == 3 {
            SCALE as int
        } else {
            0
        }
    }
}

/// Whether `m` is, entry for entry, the view matrix of `cam`.
pub open spec fn is_view_matrix_of(m: Mat4, cam: Camera) -> bool {
    &&& m.m00.raw == view_entry_raw(cam, 0, 0)
    &&& m.m01.raw == view_entry_raw(cam, 0, 1)
    &&& m.m02.raw == view_entry_raw(cam, 0, 2)
    &&& m.m03.raw == view_entry_raw(cam, 0, 3)
    &&& m.m10.raw == view_entry_raw(cam, 1, 0)
    &&& m.m11.raw == view_entry_raw(cam, 1, 1)
    &&& m.m12.raw == view_entry_raw(cam, 1, 2)
    &&& m.m13.raw == view_entry_raw(cam, 1, 3)
    &&& m.m20.raw == view_entry_raw(cam, 2, 0)
    &&& m.m21.raw == view_entry_raw(cam, 2, 1)
    &&& m.m22.raw == view_entry_raw(cam, 2, 2)
    &&& m.m23.raw == view_entry_raw(cam, 2, 3)
    &&& m.m30.raw == view_entry_raw(cam, 3, 0)
    &&& m.m31.raw == view_entry_raw(cam, 3, 1)
    &&& m.m32.raw == view_entry_raw(cam, 3, 2)
    &&& m.m33.raw == view_entry_raw(cam, 3, 3)
}

/// The raw entry in row `i`, column `j` of the combined view-projection
/// transform: the fixed-point product of the projection matrix and the view
/// matrix.
pub open spec fn view_proj_entry_raw(p: Projection, cam: Camera, i: int, j: int) -> int {
    mul_raw(proj_entry_raw(p, i, 0), view_entry_raw(cam, 0, j)) + mul_raw(
        proj_entry_raw(p, i, 1),
        view_entry_raw(cam, 1, j),
    ) + mul_raw(proj_entry_raw(p, i, 2), view_entry_raw(cam, 2, j)) + mul_raw(
        proj_entry_raw(p, i, 3),
        view_entry_raw(cam, 3, j),
    )
}

/// Whether `m` is, entry for entry, the view-projection matrix of `cam`
/// under `p`.
pub open spec fn is_view_proj_matrix_of(m: Mat4, p: Projection, cam: Camera) -> bool {
    &&& m.m00.raw == view_proj_entry_raw(p, cam, 0, 0)
    &&& m.m01.raw == view_proj_entry_raw(p, cam, 0, 1)
    &&& m.m02.raw == view_proj_entry_raw(p, cam, 0, 2)
    &&& m.m03.raw == view_proj_entry_raw(p, cam, 0, 3)
    &&& m.m10.raw == view_proj_entry_raw(p, cam, 1, 0)
    &&& m.m11.raw == view_proj_entry_raw(p, cam, 1, 1)
    &&& m.m12.raw == view_proj_entry_raw(p, cam, 1, 2)
    &&& m.m13.raw == view_proj_entry_raw(p, cam, 1, 3)
    &&& m.m20.raw == view_proj_entry_raw(p, cam, 2, 0)
    &&& m.m21.raw == view_proj_entry_raw(p, cam, 2, 1)
    &&& m.m22.raw == view_proj_entry_raw(p, cam, 2, 2)
    &&& m.m23.raw == view_proj_entry_raw(p, cam, 2, 3)
    &&& m.m30.raw == view_proj_entry_raw(p, cam, 3, 0)
    &&& m.m31.raw == view_proj_entry_raw(p, cam, 3, 1)
    &&& m.m32.raw == view_proj_entry_raw(p, cam, 3, 2)
    &&& m.m33.raw == view_proj_entry_raw(p, cam, 3, 3)
}

impl Camera {
    /// The view matrix: the world-to-camera transform for the current
    /// position and angles. The orthonormal basis comes straight from the
    /// angles' sines and cosines, so no normalization is ever needed.
    pub fn view_matrix(&self) -> (r: Mat4)
        requires
            self.wf(),
        ensures
            is_view_matrix_of(r, *self),
            mat_bounded_raw(r, ENTRY_LIMIT_RAW as int),
    {
        let sy = sin_fx(self.yaw);
        let cy = cos_fx(self.yaw);
        let sp = sin_fx(self.pitch);
        let cp = cos_fx(self.pitch);
        let nsy = sy.neg();
        let ncy = cy.neg();
        proof {
            lemma_mul_raw_bound(ncy.raw as int, sp.raw as int, SCALE as int, SCALE as int);
            lemma_mul_raw_bound(nsy.raw as int, sp.raw as int, SCALE as int, SCALE as int);
            lemma_mul_raw_bound(cy.raw as int, cp.raw as int, SCALE as int, SCALE as int);
            lemma_mul_raw_bound(sy.raw as int, cp.raw as int, SCALE as int, SCALE as int);
        }
        let ux = ncy.mul(sp);
        let uz = nsy.mul(sp);
        let fx = cy.mul(cp);
        let fz = sy.mul(cp);
        let px = self.position.x;
        let py = self.position.y;
        let pz = self.position.z;
        proof {
            lemma_mul_raw_bound(nsy.raw as int, px.raw as int, SCALE as int, POS_LIMIT_RAW as int);
            lemma_mul_raw_bound(cy.raw as int, pz.raw as int, SCALE as int, POS_LIMIT_RAW as int);
            lemma_mul_raw_bound(ux.raw as int, px.raw as int, SCALE as int, POS_LIMIT_RAW as int);
            lemma_mul_raw_bound(cp.raw as int, py.raw as int, SCALE as int, POS_LIMIT_RAW as int);
            lemma_mul_raw_bound(uz.raw as int, pz.raw as int, SCALE as int, POS_LIMIT_RAW as int);
            lemma_mul_raw_bound(fx.raw as int, px.raw as int, SCALE as int, POS_LIMIT_RAW as int);
            lemma_mul_raw_bound(sp.raw as int, py.raw as int, SCALE as int, POS_LIMIT_RAW as int);
            lemma_mul_raw_bound(fz.raw as int, pz.raw as int, SCALE as int, POS_LIMIT_RAW as int);
        }
        let t0 = nsy.mul(px).add(cy.mul(pz)).neg();
        let t1 = ux.mul(px).add(cp.mul(py)).add(uz.mul(pz)).neg();
        let t2 = fx.mul(px).add(sp.mul(py)).add(fz.mul(pz));
        Mat4 {
            m00: nsy,
            m01: Fx { raw: 0 },
            m02: cy,
            m03: t0,
            m10: ux,
            m11: cp,
            m12: uz,
            m13: t1,
            m20: fx.neg(),
            m21: sp.neg(),
            m22: fz.neg(),
            m23: t2,
            m30: Fx { raw: 0 },
            m31: Fx { raw: 0 },
            m32: Fx { raw: 0 },
            m33: Fx { raw: SCALE },
        }
    }

    /// The combined transform the renderer uploads: the projection matrix
    /// times the view matrix.
    pub fn build_view_projection_matrix(&self, projection: &Projection) -> (r: Mat4)
        requires
            self.wf(),
            projection.wf(),
        ensures
            is_view_proj_matrix_of(r, *projection, *self),
    {
        let proj_mat = projection.calc_matrix();
        let view_mat = self.view_matrix();
        proj_mat.mul(&view_mat)
    }
}

/// The GPU-bound camera payload: the view-projection matrix, kept in the
/// exact fixed-point form; the renderer converts it to packed 32-bit floats
/// in column-major order when it uploads the buffer.
#[derive(Clone, Copy, Debug, PartialEq, Eq, Structural)]
pub struct UniformBuffer {
    pub view_proj: Mat4,
}

impl UniformBuffer {
    /// A payload holding the identity transform, as uploaded before the
    /// first frame is ticked.
    pub fn new() -> (r: UniformBuffer)
        ensures
            r.view_proj == Mat4::spec_identity(),
    {
        UniformBuffer { view_proj: Mat4::identity() }
    }

    /// Refresh the payload from the camera and projection.
    pub fn update_view_proj(&mut self, camera: &Camera, projection: &Projection)
        requires
            camera.wf(),
            projection.wf(),
        ensures
            is_view_proj_matrix_of(final(self).view_proj, *projection, *camera),
    {
        self.view_proj = camera.build_view_projection_matrix(projection);
    }
}

} // verus!
