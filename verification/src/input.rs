//! Input handling: the orbit controller that turns key, mouse and scroll
//! events into camera intent, and the router that feeds it.
//!
//! The controller's invariants are the heart of the crate: the polar angle
//! `theta` is clamped into `[0, pi]` after every mutation, and the orbit
//! radius `farness` stays strictly positive, whatever sequence of events
//! arrives.

use crate::camera::{wf_camera, Camera, COORD_MAX};
use crate::fx::{
    absi, clamp, clamp_i64, fx_mul, fx_muldiv, fx_muldiv_clamp, lemma_mul_abs_sign,
    lemma_tdiv_bound, tdiv, FX_FRAC_1_SQRT_2, FX_HALF_PI, FX_ONE, FX_PI, FX_TWO_PI,
};
use crate::trig::{cos_of, cos_unit, sin_of, sin_unit, unit_clamp};
use crate::vec3::{rescale3, rescaled_x, rescaled_y, rescaled_z, Vec3Fx};
use vstd::arithmetic::div_mod::{
    lemma_div_by_multiple, lemma_fundamental_div_mod, lemma_fundamental_div_mod_converse,
};
use vstd::prelude::*;

verus! {

/// Largest pan speed (world units per tick).
pub const SPEED_MAX: i64 = 0x100_0000_0000;

/// Largest angular speed (radians per input unit).
pub const ANG_SPEED_MAX: i64 = 0x1000_0000;

/// Largest zoom speed (fraction per scroll line).
pub const ZOOM_SPEED_MAX: i64 = 0x1000_0000;

/// Largest orbit radius.
pub const FAR_MAX: i64 = 0x100_0000_0000;

/// Largest raw input delta the controller acts on; anything beyond is
/// treated as this much.
pub const MOUSE_MAX: i64 = 0x100_0000_0000;

/// One scroll line is worth about ten pixels.
pub const PIXEL_LINE_FRAC: i64 = 6554;

/// A key the camera understands: WASD or the arrow keys; anything else is
/// `Other` and is not consumed.
#[derive(Clone, Copy, Debug, PartialEq, Eq, Structural)]
pub enum Key {
    KeyW,
    KeyA,
    KeyS,
    KeyD,
    ArrowUp,
    ArrowLeft,
    ArrowDown,
    ArrowRight,
    Other,
}

/// A mouse-wheel step: whole lines, or raw pixels.
#[derive(Clone, Copy, Debug, PartialEq, Eq, Structural)]
pub enum ScrollDelta {
    Lines { dx: i64, dy: i64 },
    Pixels { x: i64, y: i64 },
}

/// The window events the router reads; everything else is `Other`.
#[derive(Clone, Copy, Debug, PartialEq, Eq, Structural)]
pub enum WindowEvent {
    Keyboard { key: Key, pressed: bool },
    MouseWheel { delta: ScrollDelta },
    MouseLeft { pressed: bool },
    Other,
}

/// The raw device events the router reads; everything else is `Other`.
#[derive(Clone, Copy, Debug, PartialEq, Eq, Structural)]
pub enum DeviceEvent {
    MouseMotion { dx: i64, dy: i64 },
    Other,
}

/// The orbit controller: spherical coordinates around the target, pan and
/// zoom speeds, and the four held movement keys.
#[derive(Clone, Copy, Debug, PartialEq, Eq, Structural)]
pub struct CameraController {
    /// Pan speed, world units per tick.
    pub speed: i64,
    /// Radians per unit of mouse motion.
    pub angular_speed: i64,
    /// Zoom fraction per scroll line.
    pub zoom_speed: i64,
    /// Polar angle from the +Z pole, always in `[0, pi]`.
    pub theta: i64,
    /// Azimuth in the XY plane, kept wrapped into `[0, 2*pi)`.
    pub phi: i64,
    /// Orbit radius, always strictly positive.
    pub farness: i64,
    pub forward_pressed: bool,
    pub backward_pressed: bool,
    pub left_pressed: bool,
    pub right_pressed: bool,
}

/// The controller invariant: clamped polar angle, wrapped azimuth,
/// strictly positive radius, speeds within the supported bands.
pub open spec fn wf_controller(c: CameraController) -> bool {
    &&& 0 <= c.speed <= SPEED_MAX
    &&& 0 <= c.angular_speed <= ANG_SPEED_MAX
    &&& 0 <= c.zoom_speed <= ZOOM_SPEED_MAX
    &&& 0 <= c.theta <= FX_PI
    &&& 0 <= c.phi < FX_TWO_PI
    &&& 1 <= c.farness <= FAR_MAX
}

/// An angle wrapped into `[0, 2*pi)`.
pub open spec fn wrap_angle(x: int) -> int {
    x % (FX_TWO_PI as int)
}

/// A raw input delta times a rate: the delta is first limited to
/// `MOUSE_MAX`, so the product is defined for every input.
pub open spec fn mouse_delta(d: int, rate: int) -> int {
    fx_mul(clamp(d, -(MOUSE_MAX as int), MOUSE_MAX as int), rate)
}

/// What `process_mouse` leaves behind: azimuth advanced and wrapped,
/// polar angle reduced and clamped into `[0, pi]`.
pub open spec fn process_mouse_spec(c: CameraController, dx: int, dy: int) -> CameraController {
    CameraController {
        phi: wrap_angle(c.phi + mouse_delta(dx, c.angular_speed as int)) as i64,
        theta: clamp(c.theta - mouse_delta(dy, c.angular_speed as int), 0, FX_PI as int) as i64,
        ..c
    }
}

/// The signed line count of a scroll step; pixels count a tenth each.
pub open spec fn scroll_dy(d: ScrollDelta) -> int {
    match d {
        ScrollDelta::Lines { dx, dy } => clamp(dy as int, -(MOUSE_MAX as int), MOUSE_MAX as int),
        ScrollDelta::Pixels { x, y } => mouse_delta(y as int, PIXEL_LINE_FRAC as int),
    }
}

/// The zoom factor for a scroll step: `1 + |dy| * zoom_speed`, never
/// below one.
pub open spec fn zoom_factor(dy: int, zoom: int) -> int {
    FX_ONE + fx_mul(absi(dy), zoom)
}

/// The orbit radius after a scroll step: divided by the factor when
/// scrolling toward the scene, multiplied when scrolling away, and always
/// kept strictly positive.
pub open spec fn zoomed_farness(far: int, dy: int, zoom: int) -> int {
    let f = zoom_factor(dy, zoom);
    if dy >= 0 {
        clamp(tdiv(far * (FX_ONE as int), f), 1, FAR_MAX as int)
    } else {
        clamp(tdiv(far * f, FX_ONE as int), 1, FAR_MAX as int)
    }
}

/// What `process_scroll` leaves behind.
pub open spec fn process_scroll_spec(c: CameraController, d: ScrollDelta) -> CameraController {
    CameraController {
        farness: zoomed_farness(c.farness as int, scroll_dy(d), c.zoom_speed as int) as i64,
        ..c
    }
}

/// Whether a key maps to one of the four movement flags.
pub open spec fn key_recognized(key: Key) -> bool {
    !(key is Other)
}

/// What `process_keyboard` leaves behind: the matching flag set to the
/// key's pressed state.
pub open spec fn process_keyboard_spec(
    c: CameraController,
    key: Key,
    pressed: bool,
) -> CameraController {
    match key {
        Key::KeyW | Key::ArrowUp => CameraController { forward_pressed: pressed, ..c },
        Key::KeyA | Key::ArrowLeft => CameraController { left_pressed: pressed, ..c },
        Key::KeyS | Key::ArrowDown => CameraController { backward_pressed: pressed, ..c },
        Key::KeyD | Key::ArrowRight => CameraController { right_pressed: pressed, ..c },
        Key::Other => c,
    }
}

/// An angle wrapped into `[0, 2*pi)`, matching the Euclidean remainder.
fn wrap_angle_e(x: i64) -> (r: i64)
    requires
        -0x1000_0000_0000_0000 <= x <= 0x1000_0000_0000_0000,
    ensures
        r as int == wrap_angle(x as int),
        0 <= r < FX_TWO_PI,
{
    let t: i64 = FX_TWO_PI;
    if x >= 0 {
        let r: i64 = ((x as u64) % (t as u64)) as i64;
        r
    } else {
        let a: i64 = -x;
        let m: i64 = ((a as u64) % (t as u64)) as i64;
        proof {
            let ti = t as int;
            let ai = a as int;
            let q = ai / ti;
            lemma_fundamental_div_mod(ai, ti);
            if m == 0 {
                assert(x as int == (-q) * ti + 0) by (nonlinear_arith)
                    requires
                        ai == ti * q,
                        x as int == -ai,
                ;
                lemma_fundamental_div_mod_converse(x as int, ti, -q, 0);
            } else {
                assert(x as int == (-q - 1) * ti + (ti - m)) by (nonlinear_arith)
                    requires
                        ai == ti * q + m,
                        x as int == -ai,
                ;
                lemma_fundamental_div_mod_converse(x as int, ti, -q - 1, ti - m);
            }
        }
        if m == 0 {
            0
        } else {
            t - m
        }
    }
}

/// A raw delta limited to `MOUSE_MAX` and multiplied by a rate.
fn scaled_delta(d: i64, rate: i64) -> (r: i64)
    requires
        0 <= rate <= ANG_SPEED_MAX,
    ensures
        r as int == mouse_delta(d as int, rate as int),
        absi(r as int) <= 0x10_0000_0000_0000,
        rate <= FX_ONE ==> absi(r as int) <= MOUSE_MAX as int,
{
    let dc: i64 = clamp_i64(d, -MOUSE_MAX, MOUSE_MAX);
    proof {
        lemma_mul_abs_sign(dc as int, rate as int);
        assert(absi(dc as int) * absi(rate as int) <= 0x1_0000_0000_0000_0000_0) by (nonlinear_arith)
            requires
                absi(dc as int) <= MOUSE_MAX as int,
                absi(rate as int) <= ANG_SPEED_MAX as int,
        ;
        assert(absi(dc as int) * absi(rate as int) <= (i64::MAX as int) * (FX_ONE as int));
        lemma_tdiv_bound(
            (dc as int) * (rate as int),
            0x1_0000_0000_0000_0000_0,
            FX_ONE as int,
        );
        if rate <= FX_ONE {
            assert(absi(dc as int) * absi(rate as int) <= (MOUSE_MAX as int) * (FX_ONE as int))
                by (nonlinear_arith)
                requires
                    absi(dc as int) <= MOUSE_MAX as int,
                    0 <= absi(rate as int) <= FX_ONE as int,
            ;
            lemma_tdiv_bound(
                (dc as int) * (rate as int),
                (MOUSE_MAX as int) * (FX_ONE as int),
                FX_ONE as int,
            );
            lemma_div_by_multiple(MOUSE_MAX as int, FX_ONE as int);
        }
    }
    fx_muldiv(dc, rate, FX_ONE)
}

impl CameraController {
    /// A controller at the equator of the orbit sphere (`theta = pi/2`,
    /// `phi = 0`), with no keys held.
    pub fn new(speed: i64, farness: i64, angular_speed: i64, zoom_speed: i64) -> (c:
        CameraController)
        requires
            0 <= speed <= SPEED_MAX,
            1 <= farness <= FAR_MAX,
            0 <= angular_speed <= ANG_SPEED_MAX,
            0 <= zoom_speed <= ZOOM_SPEED_MAX,
        ensures
            c == (CameraController {
                speed,
                angular_speed,
                zoom_speed,
                theta: FX_HALF_PI,
                phi: 0,
                farness,
                forward_pressed: false,
                backward_pressed: false,
                left_pressed: false,
                right_pressed: false,
            }),
            wf_controller(c),
    {
        CameraController {
            speed,
            angular_speed,
            zoom_speed,
            theta: FX_HALF_PI,
            phi: 0,
            farness,
            forward_pressed: false,
            backward_pressed: false,
            left_pressed: false,
            right_pressed: false,
        }
    }

    /// Map a key to its movement flag; returns whether the key was
    /// recognized (and the event consumed).
    pub fn process_keyboard(&mut self, key: Key, pressed: bool) -> (consumed: bool)
        requires
            wf_controller(*old(self)),
        ensures
            *final(self) == process_keyboard_spec(*old(self), key, pressed),
            consumed == key_recognized(key),
            wf_controller(*final(self)),
    {
        match key {
            Key::KeyW | Key::ArrowUp => {
                self.forward_pressed = pressed;
                true
            },
            Key::KeyA | Key::ArrowLeft => {
                self.left_pressed = pressed;
                true
            },
            Key::KeyS | Key::ArrowDown => {
                self.backward_pressed = pressed;
                true
            },
            Key::KeyD | Key::ArrowRight => {
                self.right_pressed = pressed;
                true
            },
            Key::Other => false,
        }
    }

    /// Turn a mouse drag into orbit motion: rightward drag advances the
    /// azimuth, upward drag tilts the view up; the polar angle is clamped
    /// into `[0, pi]` after every call.
    pub fn process_mouse(&mut self, dx: i64, dy: i64)
        requires
            wf_controller(*old(self)),
        ensures
            *final(self) == process_mouse_spec(*old(self), dx as int, dy as int),
            0 <= final(self).theta <= FX_PI,
            wf_controller(*final(self)),
    {
        let dphi: i64 = scaled_delta(dx, self.angular_speed);
        let dtheta: i64 = scaled_delta(dy, self.angular_speed);
        self.phi = wrap_angle_e(self.phi + dphi);
        self.theta = clamp_i64(self.theta - dtheta, 0, FX_PI);
    }

    /// Turn a scroll step into zoom: scrolling toward the scene divides
    /// the orbit radius by `1 + |dy| * zoom_speed`, scrolling away
    /// multiplies by it; the radius stays strictly positive.
    pub fn process_scroll(&mut self, delta: &ScrollDelta)
        requires
            wf_controller(*old(self)),
        ensures
            *final(self) == process_scroll_spec(*old(self), *delta),
            final(self).farness >= 1,
            wf_controller(*final(self)),
    {
        let dy: i64 = match *delta {
            ScrollDelta::Lines { dx: _, dy } => clamp_i64(dy, -MOUSE_MAX, MOUSE_MAX),
            ScrollDelta::Pixels { x: _, y } => scaled_delta(y, PIXEL_LINE_FRAC),
        };
        let ady: i64 = if dy < 0 {
            -dy
        } else {
            dy
        };
        proof {
            assert(ady as int == absi(dy as int));
            assert(absi(dy as int) <= MOUSE_MAX as int);
            lemma_mul_abs_sign(ady as int, self.zoom_speed as int);
            assert(absi(ady as int) * absi(self.zoom_speed as int) <= 0x1_0000_0000_0000_0000_0)
                by (nonlinear_arith)
                requires
                    absi(ady as int) <= MOUSE_MAX as int,
                    absi(self.zoom_speed as int) <= ZOOM_SPEED_MAX as int,
            ;
            lemma_tdiv_bound(
                (ady as int) * (self.zoom_speed as int),
                0x1_0000_0000_0000_0000_0,
                FX_ONE as int,
            );
        }
        let extra: i64 = fx_muldiv(ady, self.zoom_speed, FX_ONE);
        proof {
            assert((ady as int) * (self.zoom_speed as int) >= 0) by (nonlinear_arith)
                requires
                    ady >= 0,
                    self.zoom_speed >= 0,
            ;
            assert(extra >= 0);
        }
        let factor: i64 = FX_ONE + extra;
        let far2: i64 = if dy >= 0 {
            fx_muldiv_clamp(self.farness, FX_ONE, factor, 1, FAR_MAX)
        } else {
            fx_muldiv_clamp(self.farness, factor, FX_ONE, 1, FAR_MAX)
        };
        self.farness = far2;
    }
}

/// The forward/backward intent from the held keys: `backward - forward`.
pub open spec fn intent_fb(c: CameraController) -> int {
    (if c.backward_pressed {
        1int
    } else {
        0int
    }) - (if c.forward_pressed {
        1int
    } else {
        0int
    })
}

/// The sideways intent from the held keys: `left - right`.
pub open spec fn intent_lr(c: CameraController) -> int {
    (if c.left_pressed {
        1int
    } else {
        0int
    }) - (if c.right_pressed {
        1int
    } else {
        0int
    })
}

/// First component of the unit intent: a single axis moves one full unit,
/// a diagonal moves `1/sqrt(2)` per axis.
pub open spec fn norm_intent_x(fb: int, lr: int) -> int {
    if fb != 0 && lr != 0 {
        fb * (FX_FRAC_1_SQRT_2 as int)
    } else {
        fb * (FX_ONE as int)
    }
}

/// Second component of the unit intent.
pub open spec fn norm_intent_y(fb: int, lr: int) -> int {
    if fb != 0 && lr != 0 {
        lr * (FX_FRAC_1_SQRT_2 as int)
    } else {
        lr * (FX_ONE as int)
    }
}

/// The pan step along world X: the unit intent rotated by the azimuth
/// (so "forward" follows the view) and scaled by the pan speed.
pub open spec fn pan_dx(c: CameraController) -> int {
    let nx = norm_intent_x(intent_fb(c), intent_lr(c));
    let ny = norm_intent_y(intent_fb(c), intent_lr(c));
    let cp = unit_clamp(cos_of(c.phi as int));
    let sp = unit_clamp(sin_of(c.phi as int));
    fx_mul(c.speed as int, fx_mul(cp, nx) - fx_mul(sp, ny))
}

/// The pan step along world Y.
pub open spec fn pan_dy(c: CameraController) -> int {
    let nx = norm_intent_x(intent_fb(c), intent_lr(c));
    let ny = norm_intent_y(intent_fb(c), intent_lr(c));
    let cp = unit_clamp(cos_of(c.phi as int));
    let sp = unit_clamp(sin_of(c.phi as int));
    fx_mul(c.speed as int, fx_mul(sp, nx) + fx_mul(cp, ny))
}

/// The target after one pan step: moved horizontally, the vertical
/// component untouched, kept within the world bounds.
pub open spec fn pan_target_spec(c: CameraController, t: Vec3Fx) -> Vec3Fx {
    Vec3Fx {
        x: clamp(t.x + pan_dx(c), -(COORD_MAX as int), COORD_MAX as int) as i64,
        y: clamp(t.y + pan_dy(c), -(COORD_MAX as int), COORD_MAX as int) as i64,
        z: t.z,
    }
}

/// The direction from target to eye: spherical coordinates about the +Z
/// pole, `(sin t cos p, sin t sin p, cos t)`.
pub open spec fn orbit_dir(c: CameraController) -> Vec3Fx {
    let st = unit_clamp(sin_of(c.theta as int));
    let ct = unit_clamp(cos_of(c.theta as int));
    let sp = unit_clamp(sin_of(c.phi as int));
    let cp = unit_clamp(cos_of(c.phi as int));
    Vec3Fx { x: fx_mul(st, cp) as i64, y: fx_mul(st, sp) as i64, z: ct as i64 }
}

/// The tangent "vertical" direction on the orbit sphere at the current
/// angles, `(-cos p cos t, -sin p cos t, sin t)` — not a constant world
/// up; it degenerates at the poles.
pub open spec fn up_dir(c: CameraController) -> Vec3Fx {
    let st = unit_clamp(sin_of(c.theta as int));
    let ct = unit_clamp(cos_of(c.theta as int));
    let sp = unit_clamp(sin_of(c.phi as int));
    let cp = unit_clamp(cos_of(c.phi as int));
    Vec3Fx { x: (-fx_mul(cp, ct)) as i64, y: (-fx_mul(sp, ct)) as i64, z: st as i64 }
}

/// What `update_camera` leaves behind: the panned target; the eye at
/// `farness` along the orbit direction from it; the rescaled tangent up;
/// the projection untouched.
pub open spec fn update_camera_spec(c: CameraController, cam: Camera) -> Camera {
    let t2 = pan_target_spec(c, cam.target);
    let d = orbit_dir(c);
    let u = up_dir(c);
    Camera {
        eye: Vec3Fx {
            x: (t2.x + rescaled_x(d, c.farness as int)) as i64,
            y: (t2.y + rescaled_y(d, c.farness as int)) as i64,
            z: (t2.z + rescaled_z(d, c.farness as int)) as i64,
        },
        target: t2,
        up: Vec3Fx {
            x: rescaled_x(u, FX_ONE as int) as i64,
            y: rescaled_y(u, FX_ONE as int) as i64,
            z: rescaled_z(u, FX_ONE as int) as i64,
        },
        projection: cam.projection,
    }
}

/// The product of two values within one unit, which stays within one
/// unit.
fn mul_unit(a: i64, b: i64) -> (r: i64)
    requires
        -FX_ONE <= a <= FX_ONE,
        -FX_ONE <= b <= FX_ONE,
    ensures
        r as int == fx_mul(a as int, b as int),
        -FX_ONE <= r <= FX_ONE,
{
    proof {
        lemma_mul_abs_sign(a as int, b as int);
        assert(absi(a as int) * absi(b as int) <= (FX_ONE as int) * (FX_ONE as int))
            by (nonlinear_arith)
            requires
                0 <= absi(a as int) <= FX_ONE as int,
                0 <= absi(b as int) <= FX_ONE as int,
        ;
        lemma_tdiv_bound(
            (a as int) * (b as int),
            (FX_ONE as int) * (FX_ONE as int),
            FX_ONE as int,
        );
        lemma_div_by_multiple(FX_ONE as int, FX_ONE as int);
    }
    fx_muldiv(a, b, FX_ONE)
}

/// A pan speed times a rotated intent component (within two units).
fn mul_speed(speed: i64, v: i64) -> (r: i64)
    requires
        0 <= speed <= SPEED_MAX,
        -2 * FX_ONE <= v <= 2 * FX_ONE,
    ensures
        r as int == fx_mul(speed as int, v as int),
        -0x400_0000_0000_0000 <= r <= 0x400_0000_0000_0000,
{
    proof {
        lemma_mul_abs_sign(speed as int, v as int);
        assert(absi(speed as int) * absi(v as int) <= 0x400_0000_0000_0000 * (FX_ONE as int))
            by (nonlinear_arith)
            requires
                0 <= absi(speed as int) <= SPEED_MAX as int,
                0 <= absi(v as int) <= 2 * FX_ONE as int,
        ;
        lemma_tdiv_bound(
            (speed as int) * (v as int),
            0x400_0000_0000_0000 * (FX_ONE as int),
            FX_ONE as int,
        );
        lemma_div_by_multiple(0x400_0000_0000_0000, FX_ONE as int);
    }
    fx_muldiv(speed, v, FX_ONE)
}

impl CameraController {
    /// The per-frame step, in order: pan the target from the held keys,
    /// place the eye `farness` along the orbit direction from it, and
    /// recompute the tangent up-vector.  The projection is untouched.
    pub fn update_camera(&self, camera: &mut Camera)
        requires
            wf_controller(*self),
            wf_camera(*old(camera)),
        ensures
            *final(camera) == update_camera_spec(*self, *old(camera)),
            wf_camera(*final(camera)),
    {
        let fb: i64 = (if self.backward_pressed {
            1i64
        } else {
            0i64
        }) - (if self.forward_pressed {
            1i64
        } else {
            0i64
        });
        let lr: i64 = (if self.left_pressed {
            1i64
        } else {
            0i64
        }) - (if self.right_pressed {
            1i64
        } else {
            0i64
        });
        let diagonal: bool = fb != 0 && lr != 0;
        let nx: i64 = if diagonal {
            fb * FX_FRAC_1_SQRT_2
        } else {
            fb * FX_ONE
        };
        let ny: i64 = if diagonal {
            lr * FX_FRAC_1_SQRT_2
        } else {
            lr * FX_ONE
        };
        let cp: i64 = cos_unit(self.phi);
        let sp: i64 = sin_unit(self.phi);
        let st: i64 = sin_unit(self.theta);
        let ct: i64 = cos_unit(self.theta);
        // Pan: rotate the unit intent by the azimuth, scale by the speed.
        let rx: i64 = mul_unit(cp, nx) - mul_unit(sp, ny);
        let ry: i64 = mul_unit(sp, nx) + mul_unit(cp, ny);
        let mx: i64 = mul_speed(self.speed, rx);
        let my: i64 = mul_speed(self.speed, ry);
        let t2 = Vec3Fx {
            x: clamp_i64(camera.target.x + mx, -COORD_MAX, COORD_MAX),
            y: clamp_i64(camera.target.y + my, -COORD_MAX, COORD_MAX),
            z: camera.target.z,
        };
        // Eye: `farness` along the orbit direction from the new target.
        let d = Vec3Fx { x: mul_unit(st, cp), y: mul_unit(st, sp), z: ct };
        let u = Vec3Fx { x: -mul_unit(cp, ct), y: -mul_unit(sp, ct), z: st };
        let off = rescale3(d, self.farness);
        let upv = rescale3(u, FX_ONE);
        proof {
            lemma_rescaled_comp_bound(d, self.farness as int);
            assert(absi(d.x as int) * (self.farness as int) <= 0x100_0000_0000_0000_0)
                by (nonlinear_arith)
                requires
                    0 <= absi(d.x as int) <= FX_ONE as int,
                    0 <= self.farness <= FAR_MAX as int,
            ;
            assert(absi(d.y as int) * (self.farness as int) <= 0x100_0000_0000_0000_0)
                by (nonlinear_arith)
                requires
                    0 <= absi(d.y as int) <= FX_ONE as int,
                    0 <= self.farness <= FAR_MAX as int,
            ;
            assert(absi(d.z as int) * (self.farness as int) <= 0x100_0000_0000_0000_0)
                by (nonlinear_arith)
                requires
                    0 <= absi(d.z as int) <= FX_ONE as int,
                    0 <= self.farness <= FAR_MAX as int,
            ;
        }
        camera.eye = Vec3Fx { x: t2.x + off.x, y: t2.y + off.y, z: t2.z + off.z };
        camera.target = t2;
        camera.up = upv;
    }
}

/// The shape of a camera input handler: key, motion and scroll intake,
/// each preserving the handler's own invariant.  `CameraController` is
/// the implementation this crate ships.
pub trait Input {
    /// The handler's invariant, preserved by every call.
    spec fn input_inv(&self) -> bool;

    fn process_keyboard(&mut self, key: Key, pressed: bool) -> (consumed: bool)
        requires
            old(self).input_inv(),
        ensures
            final(self).input_inv(),
    ;

    fn process_mouse(&mut self, dx: i64, dy: i64)
        requires
            old(self).input_inv(),
        ensures
            final(self).input_inv(),
    ;

    fn process_scroll(&mut self, delta: &ScrollDelta)
        requires
            old(self).input_inv(),
        ensures
            final(self).input_inv(),
    ;
}

impl Input for CameraController {
    open spec fn input_inv(&self) -> bool {
        wf_controller(*self)
    }

    fn process_keyboard(&mut self, key: Key, pressed: bool) -> bool {
        self.process_keyboard(key, pressed)
    }

    fn process_mouse(&mut self, dx: i64, dy: i64) {
        self.process_mouse(dx, dy)
    }

    fn process_scroll(&mut self, delta: &ScrollDelta) {
        self.process_scroll(delta)
    }
}

/// The event router: one controller, and the drag flag that gates raw
/// mouse motion (click-and-drag-to-orbit, not always-on mouse-look).
#[derive(Clone, Copy, Debug, PartialEq, Eq, Structural)]
pub struct InputServer {
    pub camera_controller: CameraController,
    pub mouse_pressed: bool,
}

/// The router invariant: its controller's invariant.
pub open spec fn wf_server(s: InputServer) -> bool {
    wf_controller(s.camera_controller)
}

/// What `window_input` leaves behind: keys and the wheel go to the
/// controller, the left button drives the drag flag, the rest is ignored.
pub open spec fn window_input_spec(s: InputServer, e: WindowEvent) -> InputServer {
    match e {
        WindowEvent::Keyboard { key, pressed } => InputServer {
            camera_controller: process_keyboard_spec(s.camera_controller, key, pressed),
            ..s
        },
        WindowEvent::MouseWheel { delta } => InputServer {
            camera_controller: process_scroll_spec(s.camera_controller, delta),
            ..s
        },
        WindowEvent::MouseLeft { pressed } => InputServer { mouse_pressed: pressed, ..s },
        WindowEvent::Other => s,
    }
}

/// Which window events are consumed: wheel and left-button always, a key
/// exactly when the controller recognizes it.
pub open spec fn window_consumed(e: WindowEvent) -> bool {
    match e {
        WindowEvent::Keyboard { key, pressed } => key_recognized(key),
        WindowEvent::MouseWheel { delta } => true,
        WindowEvent::MouseLeft { pressed } => true,
        WindowEvent::Other => false,
    }
}

/// What `device_input` leaves behind: raw motion orbits the camera only
/// while the drag flag is held; everything else is discarded.
pub open spec fn device_input_spec(s: InputServer, e: DeviceEvent) -> InputServer {
    match e {
        DeviceEvent::MouseMotion { dx, dy } => if s.mouse_pressed {
            InputServer {
                camera_controller: process_mouse_spec(s.camera_controller, dx as int, dy as int),
                ..s
            }
        } else {
            s
        },
        DeviceEvent::Other => s,
    }
}

impl InputServer {
    /// A router with the viewer's default controller tuning (pan 0.2,
    /// radius 2, about pi/300 radians per count, zoom 0.1) and the drag
    /// flag clear.
    pub fn new() -> (s: InputServer)
        ensures
            s.camera_controller == (CameraController {
                speed: 13107,
                angular_speed: 686,
                zoom_speed: 6554,
                theta: FX_HALF_PI,
                phi: 0,
                farness: 131072,
                forward_pressed: false,
                backward_pressed: false,
                left_pressed: false,
                right_pressed: false,
            }),
            s.mouse_pressed == false,
            wf_server(s),
    {
        InputServer {
            mouse_pressed: false,
            camera_controller: CameraController::new(13107, 131072, 686, 6554),
        }
    }

    /// Route one window event; returns whether it was consumed.
    pub fn window_input(&mut self, event: &WindowEvent) -> (consumed: bool)
        requires
            wf_server(*old(self)),
        ensures
            *final(self) == window_input_spec(*old(self), *event),
            consumed == window_consumed(*event),
            wf_server(*final(self)),
    {
        match *event {
            WindowEvent::Keyboard { key, pressed } => self.camera_controller.process_keyboard(
                key,
                pressed,
            ),
            WindowEvent::MouseWheel { delta } => {
                self.camera_controller.process_scroll(&delta);
                true
            },
            WindowEvent::MouseLeft { pressed } => {
                self.mouse_pressed = pressed;
                true
            },
            WindowEvent::Other => false,
        }
    }

    /// Route one raw device event; motion is forwarded only while
    /// dragging.
    pub fn device_input(&mut self, event: &DeviceEvent)
        requires
            wf_server(*old(self)),
        ensures
            *final(self) == device_input_spec(*old(self), *event),
            wf_server(*final(self)),
    {
        match *event {
            DeviceEvent::MouseMotion { dx, dy } => {
                if self.mouse_pressed {
                    self.camera_controller.process_mouse(dx, dy);
                }
            },
            DeviceEvent::Other => {},
        }
    }

    /// The per-frame step: delegate to the controller.
    pub fn update(&mut self, camera: &mut Camera)
        requires
            wf_server(*old(self)),
            wf_camera(*old(camera)),
        ensures
            *final(self) == *old(self),
            *final(camera) == update_camera_spec(old(self).camera_controller, *old(camera)),
            wf_camera(*final(camera)),
            wf_server(*final(self)),
    {
        self.camera_controller.update_camera(camera);
    }
}

/// Each component of a rescaled vector is within `|v_i| * len` in
/// magnitude (the divisor is at least one).
pub proof fn lemma_rescaled_comp_bound(v: Vec3Fx, len: int)
    requires
        0 <= len,
    ensures
        absi(rescaled_x(v, len)) <= absi(v.x as int) * len + len,
        absi(rescaled_y(v, len)) <= absi(v.y as int) * len + len,
        absi(rescaled_z(v, len)) <= absi(v.z as int) * len + len,
{
    let m = crate::vec3::norm_sq(v.x as int, v.y as int, v.z as int);
    assert(m >= 0) by (nonlinear_arith)
        requires
            m == (v.x as int) * (v.x as int) + (v.y as int) * (v.y as int) + (v.z as int) * (v.z
                as int),
    ;
    let n = crate::fx::sqrt_floor(m);
    crate::vec3::lemma_isqrt_exists(m);
    if n == 0 {
        assert(absi(0int) == 0);
        assert(absi(v.x as int) * len >= 0) by (nonlinear_arith)
            requires
                absi(v.x as int) >= 0,
                len >= 0,
        ;
        assert(absi(v.y as int) * len >= 0) by (nonlinear_arith)
            requires
                absi(v.y as int) >= 0,
                len >= 0,
        ;
        assert(absi(v.z as int) * len >= 0) by (nonlinear_arith)
            requires
                absi(v.z as int) >= 0,
                len >= 0,
        ;
    } else {
        lemma_mul_abs_sign(v.x as int, len);
        lemma_mul_abs_sign(v.y as int, len);
        lemma_mul_abs_sign(v.z as int, len);
        lemma_tdiv_bound((v.x as int) * len, absi(v.x as int) * len, n);
        lemma_tdiv_bound((v.y as int) * len, absi(v.y as int) * len, n);
        lemma_tdiv_bound((v.z as int) * len, absi(v.z as int) * len, n);
    }
}

} // verus!
