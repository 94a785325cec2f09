//! The camera pose and its projection frustum.
//!
//! `Projection` is a closed sum of a perspective and an orthographic
//! frustum; the two convert into one another through the same tangent
//! relationship (`height = 2 * distance * tan(fovy / 2)`), so a round trip
//! at one distance loses only the rounding that `lemma_aspect_round_trip`
//! bounds.  `Camera` is the pose the renderer reads once per frame.

use crate::fx::{
    clamp, clamp_i64, fx_div, fx_muldiv, fx_muldiv_clamp, tdiv, FX_HALF_PI, FX_ONE,
};
use crate::trig::{atan_of, atan_pos, tan_of, tan_pos, FX_ATAN_ARG_MAX, FX_TAN_MAX};
use crate::vec3::Vec3Fx;
use vstd::arithmetic::div_mod::{
    lemma_div_by_multiple, lemma_div_is_ordered, lemma_fundamental_div_mod, lemma_mod_bound,
};
use vstd::prelude::*;

verus! {

/// Largest near/far plane, frustum dimension or viewport dimension.
pub const DIM_MAX: i64 = 0x80_0000_0000;

/// Narrowest field of view kept by a conversion (about 0.01 radian).
pub const FOVY_MIN: i64 = 656;

/// Widest field of view kept by a conversion (3 radians).
pub const FOVY_MAX: i64 = 196608;

/// Largest coordinate the orbit target may reach.
pub const COORD_MAX: i64 = 0x2000_0000_0000;

/// A projection frustum: perspective or orthographic.
///
/// `fovy` is in fixed-point radians; `aspect` is `width / height` of the
/// viewport; orthographic `width`/`height` are in world units.
#[derive(Clone, Copy, Debug, PartialEq, Eq, Structural)]
pub enum Projection {
    Perspective { near: i64, far: i64, aspect: i64, fovy: i64 },
    Orthographic { near: i64, far: i64, width: i64, height: i64 },
}

/// The frustum invariant: positive near plane in front of the far plane,
/// positive dimensions, field of view within the supported band.
pub open spec fn wf_proj(p: Projection) -> bool {
    match p {
        Projection::Perspective { near, far, aspect, fovy } => {
            &&& 1 <= near < far <= DIM_MAX
            &&& 1 <= aspect <= DIM_MAX
            &&& FOVY_MIN <= fovy <= FOVY_MAX
        },
        Projection::Orthographic { near, far, width, height } => {
            &&& 1 <= near < far <= DIM_MAX
            &&& 1 <= width <= DIM_MAX
            &&& 1 <= height <= DIM_MAX
        },
    }
}

/// The aspect ratio `width / height`, clamped into the valid band.
pub open spec fn aspect_of(width: int, height: int) -> int {
    clamp(fx_div(width, height), 1, DIM_MAX as int)
}

/// Orthographic frustum height matching a perspective frustum at the given
/// viewing distance: `2 * distance * tan(fovy / 2)`.
pub open spec fn ortho_height_of(fovy: int, distance: int) -> int {
    clamp(
        tdiv((2 * distance) * clamp(tan_of(tdiv(fovy, 2)), 1, FX_TAN_MAX as int), FX_ONE as int),
        1,
        DIM_MAX as int,
    )
}

/// Orthographic frustum width for an aspect ratio: `aspect * height`.
pub open spec fn ortho_width_of(aspect: int, height: int) -> int {
    clamp(tdiv(aspect * height, FX_ONE as int), 1, DIM_MAX as int)
}

/// Field of view recovered from a frustum height at a viewing distance:
/// `2 * atan(height / (2 * distance))`.
pub open spec fn persp_fovy_of(height: int, distance: int) -> int {
    clamp(
        2 * clamp(
            atan_of(clamp(fx_div(height, 2 * distance), 0, FX_ATAN_ARG_MAX as int)),
            1,
            FX_HALF_PI as int,
        ),
        FOVY_MIN as int,
        FOVY_MAX as int,
    )
}

/// What `to_orthographic` leaves behind: a no-op on an orthographic
/// frustum, else the matching orthographic frustum at `distance`.
pub open spec fn to_orthographic_spec(p: Projection, distance: int) -> Projection {
    match p {
        Projection::Perspective { near, far, aspect, fovy } => {
            let height = ortho_height_of(fovy as int, distance);
            Projection::Orthographic {
                near,
                far,
                width: ortho_width_of(aspect as int, height) as i64,
                height: height as i64,
            }
        },
        Projection::Orthographic { .. } => p,
    }
}

/// What `to_perspective` leaves behind: a no-op on a perspective frustum,
/// else the matching perspective frustum at `distance`.
pub open spec fn to_perspective_spec(p: Projection, distance: int) -> Projection {
    match p {
        Projection::Orthographic { near, far, width, height } => Projection::Perspective {
            near,
            far,
            aspect: aspect_of(width as int, height as int) as i64,
            fovy: persp_fovy_of(height as int, distance) as i64,
        },
        Projection::Perspective { .. } => p,
    }
}

/// A viewport dimension pair the resize operation acts on; anything else
/// is ignored.
pub open spec fn viewport_ok(h: int, w: int) -> bool {
    1 <= h <= DIM_MAX && 1 <= w <= DIM_MAX
}

/// What `resize` leaves behind: perspective recomputes the aspect ratio
/// from the new viewport alone; orthographic scales its dimensions by the
/// viewport change.  A degenerate new viewport is ignored; a degenerate
/// old viewport is ignored only by the orthographic arm, whose scaling
/// divides by it.
pub open spec fn resize_spec(
    p: Projection,
    old_h: int,
    old_w: int,
    new_h: int,
    new_w: int,
) -> Projection {
    if !viewport_ok(new_h, new_w) {
        p
    } else {
        match p {
            Projection::Perspective { near, far, aspect, fovy } => Projection::Perspective {
                near,
                far,
                aspect: aspect_of(new_w, new_h) as i64,
                fovy,
            },
            Projection::Orthographic { near, far, width, height } => {
                if !viewport_ok(old_h, old_w) {
                    p
                } else {
                    Projection::Orthographic {
                        near,
                        far,
                        width: clamp(tdiv(width * new_w, old_w), 1, DIM_MAX as int) as i64,
                        height: clamp(tdiv(height * new_h, old_h), 1, DIM_MAX as int) as i64,
                    }
                }
            },
        }
    }
}

impl Projection {
    /// A perspective frustum with the aspect ratio of the given viewport.
    pub fn perspective(near: i64, far: i64, width: i64, height: i64, fovy: i64) -> (p: Projection)
        requires
            1 <= near < far <= DIM_MAX,
            1 <= width <= DIM_MAX,
            1 <= height <= DIM_MAX,
            FOVY_MIN <= fovy <= FOVY_MAX,
        ensures
            p is Perspective,
            p->Perspective_near == near,
            p->Perspective_far == far,
            p->Perspective_fovy == fovy,
            p->Perspective_aspect as int == aspect_of(width as int, height as int),
            wf_proj(p),
    {
        let aspect: i64 = fx_muldiv_clamp(width, FX_ONE, height, 1, DIM_MAX);
        Projection::Perspective { near, far, aspect, fovy }
    }

    /// Replace a perspective frustum by the orthographic frustum whose
    /// half-height matches it at the given viewing distance.
    pub fn to_orthographic(&mut self, distance: i64)
        requires
            wf_proj(*old(self)),
            1 <= distance <= DIM_MAX,
        ensures
            *final(self) == to_orthographic_spec(*old(self), distance as int),
            wf_proj(*final(self)),
    {
        match *self {
            Projection::Perspective { near, far, aspect, fovy } => {
                let half: i64 = fx_muldiv(fovy, 1, 2);
                proof {
                    assert(fovy as int * 1 == fovy as int);
                    lemma_div_is_ordered(FOVY_MIN as int, fovy as int, 2);
                    lemma_div_is_ordered(fovy as int, FOVY_MAX as int, 2);
                }
                let t: i64 = tan_pos(half);
                let height: i64 = fx_muldiv_clamp(2 * distance, t, FX_ONE, 1, DIM_MAX);
                let width: i64 = fx_muldiv_clamp(aspect, height, FX_ONE, 1, DIM_MAX);
                *self = Projection::Orthographic { near, far, width, height };
            },
            Projection::Orthographic { .. } => {},
        }
    }

    /// Replace an orthographic frustum by the perspective frustum whose
    /// half-height matches it at the given viewing distance.
    pub fn to_perspective(&mut self, distance: i64)
        requires
            wf_proj(*old(self)),
            1 <= distance <= DIM_MAX,
        ensures
            *final(self) == to_perspective_spec(*old(self), distance as int),
            wf_proj(*final(self)),
    {
        match *self {
            Projection::Orthographic { near, far, width, height } => {
                let aspect: i64 = fx_muldiv_clamp(width, FX_ONE, height, 1, DIM_MAX);
                let arg: i64 = fx_muldiv_clamp(height, FX_ONE, 2 * distance, 0, FX_ATAN_ARG_MAX);
                let a: i64 = atan_pos(arg);
                let fovy: i64 = clamp_i64(2 * a, FOVY_MIN, FOVY_MAX);
                *self = Projection::Perspective { near, far, aspect, fovy };
            },
            Projection::Perspective { .. } => {},
        }
    }

    /// Rescale the frustum after a viewport change; a request with a
    /// degenerate viewport dimension is ignored.
    pub fn resize(&mut self, old_height: i64, old_width: i64, new_height: i64, new_width: i64)
        requires
            wf_proj(*old(self)),
        ensures
            *final(self) == resize_spec(
                *old(self),
                old_height as int,
                old_width as int,
                new_height as int,
                new_width as int,
            ),
            wf_proj(*final(self)),
    {
        let new_ok: bool = 1 <= new_height && new_height <= DIM_MAX && 1 <= new_width && new_width
            <= DIM_MAX;
        let old_ok: bool = 1 <= old_height && old_height <= DIM_MAX && 1 <= old_width && old_width
            <= DIM_MAX;
        if new_ok {
            match *self {
                Projection::Perspective { near, far, aspect, fovy } => {
                    let aspect2: i64 = fx_muldiv_clamp(new_width, FX_ONE, new_height, 1, DIM_MAX);
                    *self = Projection::Perspective { near, far, aspect: aspect2, fovy };
                },
                Projection::Orthographic { near, far, width, height } => {
                    if old_ok {
                        let w2: i64 = fx_muldiv_clamp(width, new_width, old_width, 1, DIM_MAX);
                        let h2: i64 = fx_muldiv_clamp(height, new_height, old_height, 1, DIM_MAX);
                        *self = Projection::Orthographic { near, far, width: w2, height: h2 };
                    }
                },
            }
        }
    }
}

/// Largest magnitude a projection-matrix entry is allowed to reach.
pub const MAT_MAX: i64 = 0x100_0000_0000_0000;

/// One column of a projection matrix, fixed-point per component.
#[derive(Clone, Copy, Debug, PartialEq, Eq, Structural)]
pub struct Vec4Fx {
    pub x: i64,
    pub y: i64,
    pub z: i64,
    pub w: i64,
}

/// A column-major 4x4 projection matrix in fixed-point form; the renderer
/// converts it to its floating format.
#[derive(Clone, Copy, Debug, PartialEq, Eq, Structural)]
pub struct Mat4Fx {
    pub x_axis: Vec4Fx,
    pub y_axis: Vec4Fx,
    pub z_axis: Vec4Fx,
    pub w_axis: Vec4Fx,
}

/// `cot(fovy / 2)`: the reciprocal of the clamped tangent, kept within
/// the matrix-entry band.
pub open spec fn cot_half_fovy(fovy: int) -> int {
    clamp(
        tdiv(
            (FX_ONE as int) * (FX_ONE as int),
            clamp(tan_of(tdiv(fovy, 2)), 1, FX_TAN_MAX as int),
        ),
        1,
        MAT_MAX as int,
    )
}

/// `far / (far - near)`: the depth scale of the left-handed zero-to-one
/// clip convention.
pub open spec fn depth_ratio(near: int, far: int) -> int {
    clamp(tdiv(far * (FX_ONE as int), far - near), 0, MAT_MAX as int)
}

/// The perspective frustum matrix (left-handed, depth zero to one):
/// diagonal `cot(fovy/2) / aspect` and `cot(fovy/2)`, depth row
/// `far / (far - near)` with `w = 1`, translation `-near * far / (far - near)`.
pub open spec fn persp_matrix_spec(near: int, far: int, aspect: int, fovy: int) -> Mat4Fx {
    let h = cot_half_fovy(fovy);
    let r = depth_ratio(near, far);
    Mat4Fx {
        x_axis: Vec4Fx {
            x: clamp(tdiv(h * (FX_ONE as int), aspect), 0, MAT_MAX as int) as i64,
            y: 0,
            z: 0,
            w: 0,
        },
        y_axis: Vec4Fx { x: 0, y: h as i64, z: 0, w: 0 },
        z_axis: Vec4Fx { x: 0, y: 0, z: r as i64, w: FX_ONE },
        w_axis: Vec4Fx {
            x: 0,
            y: 0,
            z: (-clamp(tdiv(r * near, FX_ONE as int), 0, MAT_MAX as int)) as i64,
            w: 0,
        },
    }
}

/// The orthographic frustum matrix (left-handed, depth zero to one,
/// centered): diagonal `2 / width`, `2 / height`, `1 / (far - near)`,
/// translation `-near / (far - near)`.
pub open spec fn ortho_matrix_spec(near: int, far: int, width: int, height: int) -> Mat4Fx {
    Mat4Fx {
        x_axis: Vec4Fx {
            x: clamp(tdiv(2 * (FX_ONE as int) * (FX_ONE as int), width), 0, MAT_MAX as int) as i64,
            y: 0,
            z: 0,
            w: 0,
        },
        y_axis: Vec4Fx {
            x: 0,
            y: clamp(tdiv(2 * (FX_ONE as int) * (FX_ONE as int), height), 0, MAT_MAX as int) as i64,
            z: 0,
            w: 0,
        },
        z_axis: Vec4Fx {
            x: 0,
            y: 0,
            z: clamp(tdiv((FX_ONE as int) * (FX_ONE as int), far - near), 0, MAT_MAX as int) as i64,
            w: 0,
        },
        w_axis: Vec4Fx {
            x: 0,
            y: 0,
            z: (-clamp(tdiv(near * (FX_ONE as int), far - near), 0, MAT_MAX as int)) as i64,
            w: FX_ONE,
        },
    }
}

/// The frustum matrix of the active variant.
pub open spec fn make_matrix_spec(p: Projection) -> Mat4Fx {
    match p {
        Projection::Perspective { near, far, aspect, fovy } => persp_matrix_spec(
            near as int,
            far as int,
            aspect as int,
            fovy as int,
        ),
        Projection::Orthographic { near, far, width, height } => ortho_matrix_spec(
            near as int,
            far as int,
            width as int,
            height as int,
        ),
    }
}

impl Projection {
    /// The frustum matrix for the active variant, in the crate's one
    /// left-handed, zero-to-one depth convention (shared by both variants
    /// so switching modes keeps chirality).
    pub fn make_matrix(&self) -> (m: Mat4Fx)
        requires
            wf_proj(*self),
        ensures
            m == make_matrix_spec(*self),
    {
        match *self {
            Projection::Perspective { near, far, aspect, fovy } => {
                let half: i64 = fx_muldiv(fovy, 1, 2);
                proof {
                    assert(fovy as int * 1 == fovy as int);
                    lemma_div_is_ordered(FOVY_MIN as int, fovy as int, 2);
                    lemma_div_is_ordered(fovy as int, FOVY_MAX as int, 2);
                }
                let t: i64 = tan_pos(half);
                let h: i64 = fx_muldiv_clamp(FX_ONE, FX_ONE, t, 1, MAT_MAX);
                let w: i64 = fx_muldiv_clamp(h, FX_ONE, aspect, 0, MAT_MAX);
                let r: i64 = fx_muldiv_clamp(far, FX_ONE, far - near, 0, MAT_MAX);
                let rn: i64 = fx_muldiv_clamp(r, near, FX_ONE, 0, MAT_MAX);
                Mat4Fx {
                    x_axis: Vec4Fx { x: w, y: 0, z: 0, w: 0 },
                    y_axis: Vec4Fx { x: 0, y: h, z: 0, w: 0 },
                    z_axis: Vec4Fx { x: 0, y: 0, z: r, w: FX_ONE },
                    w_axis: Vec4Fx { x: 0, y: 0, z: -rn, w: 0 },
                }
            },
            Projection::Orthographic { near, far, width, height } => {
                let sx: i64 = fx_muldiv_clamp(2 * FX_ONE, FX_ONE, width, 0, MAT_MAX);
                let sy: i64 = fx_muldiv_clamp(2 * FX_ONE, FX_ONE, height, 0, MAT_MAX);
                let sz: i64 = fx_muldiv_clamp(FX_ONE, FX_ONE, far - near, 0, MAT_MAX);
                let tz: i64 = fx_muldiv_clamp(near, FX_ONE, far - near, 0, MAT_MAX);
                Mat4Fx {
                    x_axis: Vec4Fx { x: sx, y: 0, z: 0, w: 0 },
                    y_axis: Vec4Fx { x: 0, y: sy, z: 0, w: 0 },
                    z_axis: Vec4Fx { x: 0, y: 0, z: sz, w: 0 },
                    w_axis: Vec4Fx { x: 0, y: 0, z: -tz, w: FX_ONE },
                }
            },
        }
    }
}

/// Resizing with the viewport unchanged leaves the projection exactly as
/// it was.  A perspective frustum's stored aspect must be the one computed
/// from that same viewport, which construction and every resize establish.
pub proof fn lemma_resize_same_viewport(p: Projection, h: int, w: int)
    requires
        wf_proj(p),
        viewport_ok(h, w),
        p is Perspective ==> p->Perspective_aspect as int == aspect_of(w, h),
    ensures
        resize_spec(p, h, w, h, w) == p,
{
    match p {
        Projection::Perspective { .. } => {},
        Projection::Orthographic { near, far, width, height } => {
            assert(width * w >= 0) by (nonlinear_arith)
                requires
                    width >= 1,
                    w >= 1,
            ;
            assert(height * h >= 0) by (nonlinear_arith)
                requires
                    height >= 1,
                    h >= 1,
            ;
            lemma_div_by_multiple(width as int, w);
            lemma_div_by_multiple(height as int, h);
            assert(tdiv(width * w, w) == width);
            assert(tdiv(height * h, h) == height);
        },
    }
}

/// The orthographic-and-back round trip keeps the variant and the near and
/// far planes exactly.
pub proof fn lemma_round_trip_planes(p: Projection, d: int)
    requires
        wf_proj(p),
        p is Perspective,
        1 <= d <= DIM_MAX,
    ensures
        ({
            let r = to_perspective_spec(to_orthographic_spec(p, d), d);
            &&& r is Perspective
            &&& r->Perspective_near == p->Perspective_near
            &&& r->Perspective_far == p->Perspective_far
        }),
{
}

/// The one rounding of the round trip on the aspect ratio: rebuilding the
/// ratio from `width = aspect * height / ONE` comes back at most
/// `ONE / height + 1` fixed-point steps low, and never high.
pub proof fn lemma_aspect_round_trip(aspect: int, height: int)
    requires
        1 <= aspect,
        1 <= height,
    ensures
        ({
            let width = tdiv(aspect * height, FX_ONE as int);
            let back = tdiv(width * (FX_ONE as int), height);
            &&& back <= aspect
            &&& aspect - back <= (FX_ONE as int) / height + 1
        }),
{
    let s = FX_ONE as int;
    let ah = aspect * height;
    assert(ah >= 1) by (nonlinear_arith)
        requires
            ah == aspect * height,
            aspect >= 1,
            height >= 1,
    ;
    let width = ah / s;
    assert(tdiv(ah, s) == width);
    lemma_fundamental_div_mod(ah, s);
    lemma_mod_bound(ah, s);
    let r1 = ah % s;
    assert(ah == s * width + r1);
    assert(width >= 0) by (nonlinear_arith)
        requires
            ah >= 1,
            ah == s * width + r1,
            0 <= r1 < s,
            s == 65536,
    ;
    let ws = width * s;
    assert(ws >= 0) by (nonlinear_arith)
        requires
            ws == width * s,
            width >= 0,
            s == 65536,
    ;
    assert(tdiv(ws, height) == ws / height);
    let back = ws / height;
    lemma_fundamental_div_mod(ws, height);
    lemma_mod_bound(ws, height);
    let r2 = ws % height;
    assert(ws == height * back + r2);
    // ws == aspect * height - r1, so back == aspect - (r1 + r2) / height.
    assert(ws == ah - r1) by (nonlinear_arith)
        requires
            ah == s * width + r1,
            ws == width * s,
    ;
    assert(height * back == aspect * height - r1 - r2);
    let q3 = (r1 + r2) / height;
    lemma_fundamental_div_mod(r1 + r2, height);
    lemma_mod_bound(r1 + r2, height);
    assert(back <= aspect && aspect - back <= q3) by (nonlinear_arith)
        requires
            height * back == aspect * height - r1 - r2,
            0 <= r1,
            0 <= r2 < height,
            height >= 1,
            height * q3 <= r1 + r2 < height * q3 + height,
    ;
    let q4 = (s + height - 2) / height;
    lemma_div_is_ordered(r1 + r2, s + height - 2, height);
    assert(q3 <= q4);
    let q5 = s / height;
    lemma_fundamental_div_mod(s + height - 2, height);
    lemma_mod_bound(s + height - 2, height);
    lemma_fundamental_div_mod(s, height);
    lemma_mod_bound(s, height);
    assert(q4 <= q5 + 1) by (nonlinear_arith)
        requires
            height * q4 <= s + height - 2,
            s < height * q5 + height,
            height >= 1,
    ;
}

/// The camera pose the renderer consumes: eye, target, up-vector and the
/// active projection.
#[derive(Clone, Copy, Debug, PartialEq, Eq, Structural)]
pub struct Camera {
    pub eye: Vec3Fx,
    pub target: Vec3Fx,
    pub up: Vec3Fx,
    pub projection: Projection,
}

/// The pose invariant: a valid frustum and a target within the world
/// bounds (the eye and up-vector are recomputed from scratch every frame).
pub open spec fn wf_camera(c: Camera) -> bool {
    &&& wf_proj(c.projection)
    &&& -COORD_MAX <= c.target.x <= COORD_MAX
    &&& -COORD_MAX <= c.target.y <= COORD_MAX
    &&& -COORD_MAX <= c.target.z <= COORD_MAX
}

} // verus!
