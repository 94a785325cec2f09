//! Three-component fixed-point vectors, and the one geometric primitive the
//! camera needs: rescaling a direction vector to a prescribed length.
//!
//! `rescale3` divides each component by the integer square root of the
//! squared norm and multiplies by the target length, in one fused step per
//! component.  `lemma_rescaled_norm` bounds how far the squared norm of the
//! result can land from the square of the target length, which is what makes
//! the unit-up-vector and eye-distance properties provable.

use crate::fx::{
    absi, fx_muldiv, is_isqrt, isqrt64, lemma_mul_abs_sign, lemma_sqrt_floor_of, sqrt_floor,
    tdiv,
};
use vstd::arithmetic::div_mod::{lemma_fundamental_div_mod, lemma_mod_bound};
use vstd::arithmetic::mul::lemma_mul_inequality;
use vstd::prelude::*;

verus! {

/// Largest magnitude `rescale3` accepts in a component.
pub const VEC_COMP_MAX: i64 = 262144;

/// Largest target length `rescale3` accepts.
pub const VEC_LEN_MAX: i64 = 0x100_0000_0000;

/// A point or direction in world space, fixed-point per component.
#[derive(Clone, Copy, Debug, PartialEq, Eq, Structural)]
pub struct Vec3Fx {
    pub x: i64,
    pub y: i64,
    pub z: i64,
}

/// The squared Euclidean norm, exactly.
pub open spec fn norm_sq(x: int, y: int, z: int) -> int {
    x * x + y * y + z * z
}

/// One rescaled component: `d * len / n`, truncating toward zero.
pub open spec fn scaled_comp(d: int, len: int, n: int) -> int {
    tdiv(d * len, n)
}

/// `x` component of `v` rescaled to length `len`; a vector with no
/// direction is sent to the `z` axis.
pub open spec fn rescaled_x(v: Vec3Fx, len: int) -> int {
    let n = sqrt_floor(norm_sq(v.x as int, v.y as int, v.z as int));
    if n == 0 {
        0
    } else {
        scaled_comp(v.x as int, len, n)
    }
}

/// `y` component of `v` rescaled to length `len`.
pub open spec fn rescaled_y(v: Vec3Fx, len: int) -> int {
    let n = sqrt_floor(norm_sq(v.x as int, v.y as int, v.z as int));
    if n == 0 {
        0
    } else {
        scaled_comp(v.y as int, len, n)
    }
}

/// `z` component of `v` rescaled to length `len`.
pub open spec fn rescaled_z(v: Vec3Fx, len: int) -> int {
    let n = sqrt_floor(norm_sq(v.x as int, v.y as int, v.z as int));
    if n == 0 {
        len
    } else {
        scaled_comp(v.z as int, len, n)
    }
}

/// The squared norm of `v` rescaled to length `len`.
pub open spec fn rescaled_norm_sq(v: Vec3Fx, len: int) -> int {
    norm_sq(rescaled_x(v, len), rescaled_y(v, len), rescaled_z(v, len))
}

/// Existence of the integer square root, so `sqrt_floor` is pinned down
/// for every nonnegative number.
pub proof fn lemma_isqrt_exists(m: int)
    requires
        0 <= m,
    ensures
        is_isqrt(m, sqrt_floor(m)),
    decreases m,
{
    if m == 0 {
        assert(is_isqrt(0, 0));
        lemma_sqrt_floor_of(0, 0);
    } else {
        lemma_isqrt_exists(m - 1);
        let r = sqrt_floor(m - 1);
        if m < (r + 1) * (r + 1) {
            lemma_sqrt_floor_of(m, r);
        } else {
            assert(m == (r + 1) * (r + 1));
            assert((r + 1) * (r + 1) < (r + 2) * (r + 2)) by (nonlinear_arith)
                requires
                    r >= 0,
            ;
            assert(is_isqrt(m, r + 1));
            lemma_sqrt_floor_of(m, r + 1);
        }
    }
}

/// Squaring the floor of `a / n`: `(n * q)^2` sits within `2 * a * n` of
/// `a^2`.
proof fn lemma_sq_bounds(a: int, n: int, q: int)
    by (nonlinear_arith)
    requires
        n >= 1,
        a >= 0,
        0 <= a - n * q < n,
    ensures
        (n * n) * (q * q) <= a * a,
        (n * n) * (q * q) >= a * a - 2 * a * n,
{
}

/// Bounds for one rescaled component, against the exact product `d * len`.
proof fn lemma_scale_comp(d: int, len: int, n: int)
    requires
        n >= 1,
        len >= 0,
    ensures
        (n * n) * (scaled_comp(d, len, n) * scaled_comp(d, len, n)) <= (d * d) * (len * len),
        (n * n) * (scaled_comp(d, len, n) * scaled_comp(d, len, n)) >= (d * d) * (len * len) - 2
            * (absi(d) * len) * n,
{
    let p = d * len;
    let a = absi(p);
    let q = a / n;
    lemma_fundamental_div_mod(a, n);
    lemma_mod_bound(a, n);
    lemma_sq_bounds(a, n, q);
    let w = scaled_comp(d, len, n);
    assert(w == tdiv(p, n));
    if p >= 0 {
        assert(w == q);
    } else {
        assert(w == -q);
    }
    assert(w * w == q * q) by (nonlinear_arith)
        requires
            w == q || w == -q,
    ;
    assert(a * a == (d * d) * (len * len)) by (nonlinear_arith)
        requires
            a == absi(p),
            p == d * len,
    ;
    lemma_mul_abs_sign(d, len);
    assert(a == absi(d) * len);
}

/// Cauchy-Schwarz for three terms: the sum of magnitudes squared is at
/// most three times the squared norm.
proof fn lemma_sum_abs_sq(x: int, y: int, z: int)
    by (nonlinear_arith)
    ensures
        (absi(x) + absi(y) + absi(z)) * (absi(x) + absi(y) + absi(z)) <= 3 * norm_sq(x, y, z),
{
}

/// How close the squared norm of a rescaled vector is to `len^2`.
///
/// With `n` the integer square root of `|v|^2`: the squared norm of the
/// result is at least `len^2 - 6*len`, and at most `len^2 * (n^2 + 2n) / n^2`
/// (stated multiplied out).  A direction-free `v` is sent to `(0, 0, len)`,
/// whose squared norm is exactly `len^2`.
pub proof fn lemma_rescaled_norm(v: Vec3Fx, len: int)
    requires
        0 <= len,
    ensures
        rescaled_norm_sq(v, len) >= len * len - 6 * len,
        ({
            let n = sqrt_floor(norm_sq(v.x as int, v.y as int, v.z as int));
            (n * n) * rescaled_norm_sq(v, len) <= (n * n + 2 * n) * (len * len)
        }),
{
    let dx = v.x as int;
    let dy = v.y as int;
    let dz = v.z as int;
    let m = norm_sq(dx, dy, dz);
    assert(m >= 0) by (nonlinear_arith)
        requires
            m == dx * dx + dy * dy + dz * dz,
    ;
    lemma_isqrt_exists(m);
    let n = sqrt_floor(m);
    if n == 0 {
        assert(rescaled_norm_sq(v, len) == len * len);
        assert(len * len >= len * len - 6 * len);
    } else {
        lemma_scale_comp(dx, len, n);
        lemma_scale_comp(dy, len, n);
        lemma_scale_comp(dz, len, n);
        let wx = scaled_comp(dx, len, n);
        let wy = scaled_comp(dy, len, n);
        let wz = scaled_comp(dz, len, n);
        let s = norm_sq(wx, wy, wz);
        let a2 = len * len;
        assert(rescaled_norm_sq(v, len) == s);
        // Distribute the sums, so each bound becomes linear in the products.
        assert((n * n) * s == (n * n) * (wx * wx) + (n * n) * (wy * wy) + (n * n) * (wz
            * wz)) by (nonlinear_arith)
            requires
                s == wx * wx + wy * wy + wz * wz,
        ;
        assert(m * a2 == (dx * dx) * a2 + (dy * dy) * a2 + (dz * dz) * a2) by (nonlinear_arith)
            requires
                m == dx * dx + dy * dy + dz * dz,
        ;
        assert((dx * dx) * (len * len) == (dx * dx) * a2);
        // Upper bound: n^2 * s <= m * len^2 <= (n^2 + 2n) * len^2.
        assert((n * n) * s <= m * a2);
        assert((n + 1) * (n + 1) == n * n + 2 * n + 1) by (nonlinear_arith);
        assert(m <= n * n + 2 * n);
        lemma_mul_inequality(m, n * n + 2 * n, a2);
        assert(m * a2 == a2 * m) by (nonlinear_arith);
        assert((n * n + 2 * n) * a2 == a2 * (n * n + 2 * n)) by (nonlinear_arith);
        assert((n * n) * s <= (n * n + 2 * n) * a2);
        // Lower bound: n^2 * s >= m * len^2 - 2 * n * len * (|dx|+|dy|+|dz|),
        // and the sum of magnitudes is at most 2n + 1.
        lemma_sum_abs_sq(dx, dy, dz);
        let t = absi(dx) + absi(dy) + absi(dz);
        assert(t <= 2 * n + 1) by (nonlinear_arith)
            requires
                t >= 0,
                t * t <= 3 * m,
                m <= n * n + 2 * n,
                n >= 1,
        ;
        assert(2 * (absi(dx) * len) * n + 2 * (absi(dy) * len) * n + 2 * (absi(dz) * len) * n == 2
            * n * len * t) by (nonlinear_arith)
            requires
                t == absi(dx) + absi(dy) + absi(dz),
        ;
        assert((n * n) * s >= m * a2 - 2 * n * len * t);
        lemma_mul_inequality(n * n, m, a2);
        assert((n * n) * a2 == a2 * (n * n)) by (nonlinear_arith);
        assert(m * a2 >= (n * n) * a2);
        assert(2 * n * len * t <= 6 * (n * n) * len) by (nonlinear_arith)
            requires
                0 <= t <= 2 * n + 1,
                n >= 1,
                len >= 0,
        ;
        assert((n * n) * s >= (n * n) * a2 - 6 * (n * n) * len);
        assert(s >= a2 - 6 * len) by (nonlinear_arith)
            requires
                (n * n) * s >= (n * n) * a2 - 6 * (n * n) * len,
                a2 == len * len,
                n >= 1,
        ;
    }
}

/// `v` rescaled so that its length is (up to the rounding that
/// `lemma_rescaled_norm` bounds) exactly `len`; a vector with no direction
/// is replaced by `len` times the `z` axis.
pub fn rescale3(v: Vec3Fx, len: i64) -> (w: Vec3Fx)
    requires
        0 <= len <= VEC_LEN_MAX,
        -VEC_COMP_MAX <= v.x <= VEC_COMP_MAX,
        -VEC_COMP_MAX <= v.y <= VEC_COMP_MAX,
        -VEC_COMP_MAX <= v.z <= VEC_COMP_MAX,
    ensures
        w.x as int == rescaled_x(v, len as int),
        w.y as int == rescaled_y(v, len as int),
        w.z as int == rescaled_z(v, len as int),
{
    proof {
        assert(v.x * v.x <= VEC_COMP_MAX * VEC_COMP_MAX) by (nonlinear_arith)
            requires
                -VEC_COMP_MAX <= v.x <= VEC_COMP_MAX,
        ;
        assert(v.y * v.y <= VEC_COMP_MAX * VEC_COMP_MAX) by (nonlinear_arith)
            requires
                -VEC_COMP_MAX <= v.y <= VEC_COMP_MAX,
        ;
        assert(v.z * v.z <= VEC_COMP_MAX * VEC_COMP_MAX) by (nonlinear_arith)
            requires
                -VEC_COMP_MAX <= v.z <= VEC_COMP_MAX,
        ;
        assert(v.x * v.x >= 0) by (nonlinear_arith);
        assert(v.y * v.y >= 0) by (nonlinear_arith);
        assert(v.z * v.z >= 0) by (nonlinear_arith);
    }
    let sx: i64 = v.x * v.x;
    let sy: i64 = v.y * v.y;
    let sz: i64 = v.z * v.z;
    let m: u64 = (sx as u64) + (sy as u64) + (sz as u64);
    let n: u64 = isqrt64(m);
    proof {
        assert(m as int == norm_sq(v.x as int, v.y as int, v.z as int));
        assert(n as int == sqrt_floor(m as int));
        if n >= 1 {
            // n <= m and the muldiv operands stay far inside the i64 range.
            assert((n as int) * (n as int) <= m as int);
            assert(n as int <= m as int) by (nonlinear_arith)
                requires
                    (n as int) * (n as int) <= m as int,
                    n >= 1,
            ;
            assert(absi(v.x as int) * absi(len as int) <= (i64::MAX as int) * (n as int)) by (nonlinear_arith)
                requires
                    absi(v.x as int) <= VEC_COMP_MAX as int,
                    0 <= len <= VEC_LEN_MAX,
                    n >= 1,
            ;
            assert(absi(v.y as int) * absi(len as int) <= (i64::MAX as int) * (n as int)) by (nonlinear_arith)
                requires
                    absi(v.y as int) <= VEC_COMP_MAX as int,
                    0 <= len <= VEC_LEN_MAX,
                    n >= 1,
            ;
            assert(absi(v.z as int) * absi(len as int) <= (i64::MAX as int) * (n as int)) by (nonlinear_arith)
                requires
                    absi(v.z as int) <= VEC_COMP_MAX as int,
                    0 <= len <= VEC_LEN_MAX,
                    n >= 1,
            ;
        }
    }
    if n == 0 {
        Vec3Fx { x: 0, y: 0, z: len }
    } else {
        Vec3Fx {
            x: fx_muldiv(v.x, len, n as i64),
            y: fx_muldiv(v.y, len, n as i64),
            z: fx_muldiv(v.z, len, n as i64),
        }
    }
}

} // verus!
