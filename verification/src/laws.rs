//! The crate-level guarantees, stated over the specification functions
//! that every operation's `ensures` speaks of: the polar-angle and
//! orbit-radius invariants under arbitrary event sequences, and the bounds
//! on the up-vector's length and the eye-to-target distance after a frame
//! update.

use crate::camera::{wf_camera, Camera};
use crate::fx::{absi, fx_mul, lemma_mul_abs_sign, lemma_tdiv_bound, sqrt_floor, FX_ONE, FX_PI};
use crate::input::{
    lemma_rescaled_comp_bound, orbit_dir, process_mouse_spec, process_scroll_spec, up_dir,
    update_camera_spec, wf_controller, CameraController, ScrollDelta, FAR_MAX,
};
use crate::trig::{cos_of, sin_of, unit_clamp};
use crate::vec3::{
    lemma_rescaled_norm, norm_sq, rescaled_norm_sq, rescaled_x, rescaled_y, rescaled_z, Vec3Fx,
};
use vstd::arithmetic::div_mod::lemma_div_by_multiple;
use vstd::prelude::*;

verus! {

/// The controller after a whole sequence of mouse moves, applied in
/// arrival order.
pub open spec fn apply_mouse_moves(c: CameraController, moves: Seq<(int, int)>) -> CameraController
    decreases moves.len(),
{
    if moves.len() == 0 {
        c
    } else {
        let prev = apply_mouse_moves(c, moves.drop_last());
        process_mouse_spec(prev, moves.last().0, moves.last().1)
    }
}

/// The controller after a whole sequence of scroll steps, applied in
/// arrival order.
pub open spec fn apply_scroll_steps(
    c: CameraController,
    steps: Seq<ScrollDelta>,
) -> CameraController
    decreases steps.len(),
{
    if steps.len() == 0 {
        c
    } else {
        process_scroll_spec(apply_scroll_steps(c, steps.drop_last()), steps.last())
    }
}

/// Under every sequence of mouse moves, the polar angle stays within
/// `[0, pi]`.
pub proof fn lemma_theta_stays_clamped(c: CameraController, moves: Seq<(int, int)>)
    requires
        0 <= c.theta <= FX_PI,
    ensures
        0 <= apply_mouse_moves(c, moves).theta <= FX_PI,
    decreases moves.len(),
{
    if moves.len() > 0 {
        lemma_theta_stays_clamped(c, moves.drop_last());
    }
}

/// Under every sequence of scroll steps, the orbit radius stays strictly
/// positive (at least one fixed-point step).
pub proof fn lemma_farness_stays_positive(c: CameraController, steps: Seq<ScrollDelta>)
    requires
        1 <= c.farness,
    ensures
        1 <= apply_scroll_steps(c, steps).farness,
    decreases steps.len(),
{
    if steps.len() > 0 {
        lemma_farness_stays_positive(c, steps.drop_last());
    }
}

/// The product of two unit-clamped values stays within one unit.
proof fn lemma_unit_mul_bound(a: int, b: int)
    requires
        -65536 <= a <= 65536,
        -65536 <= b <= 65536,
    ensures
        absi(fx_mul(a, b)) <= 65536,
        -65536 <= fx_mul(a, b) <= 65536,
{
    lemma_mul_abs_sign(a, b);
    assert(absi(a) * absi(b) <= 65536 * 65536) by (nonlinear_arith)
        requires
            0 <= absi(a) <= 65536,
            0 <= absi(b) <= 65536,
    ;
    lemma_tdiv_bound(a * b, 65536int * 65536int, 65536int);
    lemma_div_by_multiple(65536int, 65536int);
}

/// The orbit and up directions have all components within one unit.
proof fn lemma_dir_bounds(c: CameraController)
    ensures
        absi(orbit_dir(c).x as int) <= 65536,
        absi(orbit_dir(c).y as int) <= 65536,
        absi(orbit_dir(c).z as int) <= 65536,
        absi(up_dir(c).x as int) <= 65536,
        absi(up_dir(c).y as int) <= 65536,
        absi(up_dir(c).z as int) <= 65536,
{
    let st = unit_clamp(sin_of(c.theta as int));
    let ct = unit_clamp(cos_of(c.theta as int));
    let sp = unit_clamp(sin_of(c.phi as int));
    let cp = unit_clamp(cos_of(c.phi as int));
    lemma_unit_mul_bound(st, cp);
    lemma_unit_mul_bound(st, sp);
    lemma_unit_mul_bound(cp, ct);
    lemma_unit_mul_bound(sp, ct);
}

/// After a frame update the up-vector has unit length, up to the rounding
/// of one integer rescaling: its squared norm is at least
/// `ONE^2 - 6*ONE`, and at most `ONE^2 * (n^2 + 2n) / n^2` where `n` is
/// the integer square root of the tangent direction's squared norm
/// (stated multiplied out).
pub proof fn lemma_up_vector_unit(c: CameraController, cam: Camera)
    requires
        wf_controller(c),
        wf_camera(cam),
    ensures
        ({
            let cam2 = update_camera_spec(c, cam);
            let s = norm_sq(cam2.up.x as int, cam2.up.y as int, cam2.up.z as int);
            let n = sqrt_floor(norm_sq(up_dir(c).x as int, up_dir(c).y as int, up_dir(c).z as int));
            &&& (FX_ONE as int) * (FX_ONE as int) - 6 * (FX_ONE as int) <= s
            &&& (n * n) * s <= (n * n + 2 * n) * ((FX_ONE as int) * (FX_ONE as int))
        }),
{
    let u = up_dir(c);
    let one = FX_ONE as int;
    lemma_dir_bounds(c);
    lemma_rescaled_norm(u, one);
    lemma_rescaled_comp_bound(u, one);
    // The stored i64 components carry the rescaled values unchanged.
    assert(absi(u.x as int) * one <= 65536 * 65536) by (nonlinear_arith)
        requires
            0 <= absi(u.x as int) <= 65536,
            one == 65536,
    ;
    assert(absi(u.y as int) * one <= 65536 * 65536) by (nonlinear_arith)
        requires
            0 <= absi(u.y as int) <= 65536,
            one == 65536,
    ;
    assert(absi(u.z as int) * one <= 65536 * 65536) by (nonlinear_arith)
        requires
            0 <= absi(u.z as int) <= 65536,
            one == 65536,
    ;
    let cam2 = update_camera_spec(c, cam);
    assert(cam2.up.x as int == rescaled_x(u, one));
    assert(cam2.up.y as int == rescaled_y(u, one));
    assert(cam2.up.z as int == rescaled_z(u, one));
    assert(norm_sq(cam2.up.x as int, cam2.up.y as int, cam2.up.z as int) == rescaled_norm_sq(
        u,
        one,
    ));
}

/// After a frame update the eye sits at distance `farness` from the
/// target, up to the rounding of one integer rescaling: the squared
/// distance is at least `farness^2 - 6*farness`, and at most
/// `farness^2 * (n^2 + 2n) / n^2` where `n` is the integer square root of
/// the orbit direction's squared norm (stated multiplied out).
pub proof fn lemma_eye_at_farness(c: CameraController, cam: Camera)
    requires
        wf_controller(c),
        wf_camera(cam),
    ensures
        ({
            let cam2 = update_camera_spec(c, cam);
            let dx = cam2.eye.x - cam2.target.x;
            let dy = cam2.eye.y - cam2.target.y;
            let dz = cam2.eye.z - cam2.target.z;
            let far = c.farness as int;
            let n = sqrt_floor(
                norm_sq(orbit_dir(c).x as int, orbit_dir(c).y as int, orbit_dir(c).z as int),
            );
            &&& far * far - 6 * far <= norm_sq(dx, dy, dz)
            &&& (n * n) * norm_sq(dx, dy, dz) <= (n * n + 2 * n) * (far * far)
        }),
{
    let d = orbit_dir(c);
    let far = c.farness as int;
    lemma_dir_bounds(c);
    lemma_rescaled_norm(d, far);
    lemma_rescaled_comp_bound(d, far);
    assert(absi(d.x as int) * far <= 65536 * (FAR_MAX as int)) by (nonlinear_arith)
        requires
            0 <= absi(d.x as int) <= 65536,
            0 <= far <= FAR_MAX as int,
    ;
    assert(absi(d.y as int) * far <= 65536 * (FAR_MAX as int)) by (nonlinear_arith)
        requires
            0 <= absi(d.y as int) <= 65536,
            0 <= far <= FAR_MAX as int,
    ;
    assert(absi(d.z as int) * far <= 65536 * (FAR_MAX as int)) by (nonlinear_arith)
        requires
            0 <= absi(d.z as int) <= 65536,
            0 <= far <= FAR_MAX as int,
    ;
    let cam2 = update_camera_spec(c, cam);
    assert(cam2.eye.x - cam2.target.x == rescaled_x(d, far));
    assert(cam2.eye.y - cam2.target.y == rescaled_y(d, far));
    assert(cam2.eye.z - cam2.target.z == rescaled_z(d, far));
    assert(norm_sq(
        cam2.eye.x - cam2.target.x,
        cam2.eye.y - cam2.target.y,
        cam2.eye.z - cam2.target.z,
    ) == rescaled_norm_sq(d, far));
}

} // verus!
