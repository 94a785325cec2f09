//! Trigonometry on fixed-point angles, computed by the `cordic` crate on
//! `fixed`'s 16-fractional-bit numbers.
//!
//! The exact values that CORDIC iteration produces are not restated here;
//! each is given a name (`sin_of`, ...) that depends on the argument alone,
//! and all contracts downstream speak of those names.  Verified callers
//! clamp the returned values into the ranges the rest of the crate needs,
//! so nothing else is assumed of them.

use crate::fx::{clamp, clamp_i64, FX_HALF_PI, FX_ONE, FX_TWO_PI};
use vstd::prelude::*;

verus! {

/// Largest tangent the projection code works with (16 world units per unit
/// of distance, reached near a 3-radian field of view).
pub const FX_TAN_MAX: i64 = 1048576;

/// Largest ratio handed to the arc-tangent; beyond it the recovered field
/// of view would be clamped anyway.
pub const FX_ATAN_ARG_MAX: i64 = 16777216;

/// What `cordic::sin` returns for an angle, in fixed-point steps.
pub uninterp spec fn sin_of(x: int) -> int;

/// What `cordic::cos` returns for an angle, in fixed-point steps.
pub uninterp spec fn cos_of(x: int) -> int;

/// What `cordic::tan` returns for an angle, in fixed-point steps.
pub uninterp spec fn tan_of(x: int) -> int;

/// What `cordic::atan` returns for a ratio, in fixed-point steps.
pub uninterp spec fn atan_of(x: int) -> int;

/// A value forced into `[-1, 1]` (in fixed-point steps): the range a sine
/// or cosine is used at.
pub open spec fn unit_clamp(v: int) -> int {
    clamp(v, -(FX_ONE as int), FX_ONE as int)
}

/// Relies on `cordic::sin` over `fixed::types::I48F16`: the result is a
/// function of the angle bits alone.
#[verifier::external_body]
fn sin_fx(x: i64) -> (r: i64)
    requires
        -FX_TWO_PI <= x <= FX_TWO_PI,
    ensures
        r as int == sin_of(x as int),
{
    cordic::sin(fixed::types::I48F16::from_bits(x)).to_bits()
}

/// Relies on `cordic::cos` over `fixed::types::I48F16`: the result is a
/// function of the angle bits alone.
#[verifier::external_body]
fn cos_fx(x: i64) -> (r: i64)
    requires
        -FX_TWO_PI <= x <= FX_TWO_PI,
    ensures
        r as int == cos_of(x as int),
{
    cordic::cos(fixed::types::I48F16::from_bits(x)).to_bits()
}

/// Relies on `cordic::tan` over `fixed::types::I48F16`: the result is a
/// function of the angle bits alone.  The angle stays below 1.5 radians,
/// where the cosine `cordic::tan` divides by is far from zero.
#[verifier::external_body]
fn tan_fx(x: i64) -> (r: i64)
    requires
        1 <= x <= 98304,
    ensures
        r as int == tan_of(x as int),
{
    cordic::tan(fixed::types::I48F16::from_bits(x)).to_bits()
}

/// Relies on `cordic::atan` over `fixed::types::I48F16`: the result is a
/// function of the ratio bits alone.
#[verifier::external_body]
fn atan_fx(x: i64) -> (r: i64)
    requires
        0 <= x <= FX_ATAN_ARG_MAX,
    ensures
        r as int == atan_of(x as int),
{
    cordic::atan(fixed::types::I48F16::from_bits(x)).to_bits()
}

/// The sine of `x`, clamped into `[-1, 1]`.
pub fn sin_unit(x: i64) -> (r: i64)
    requires
        -FX_TWO_PI <= x <= FX_TWO_PI,
    ensures
        r as int == unit_clamp(sin_of(x as int)),
        -FX_ONE <= r <= FX_ONE,
{
    clamp_i64(sin_fx(x), -FX_ONE, FX_ONE)
}

/// The cosine of `x`, clamped into `[-1, 1]`.
pub fn cos_unit(x: i64) -> (r: i64)
    requires
        -FX_TWO_PI <= x <= FX_TWO_PI,
    ensures
        r as int == unit_clamp(cos_of(x as int)),
        -FX_ONE <= r <= FX_ONE,
{
    clamp_i64(cos_fx(x), -FX_ONE, FX_ONE)
}

/// The tangent of a half field-of-view angle, clamped to stay positive and
/// within the widest frustum the projection code accepts.
pub fn tan_pos(x: i64) -> (r: i64)
    requires
        1 <= x <= 98304,
    ensures
        r as int == clamp(tan_of(x as int), 1, FX_TAN_MAX as int),
        1 <= r <= FX_TAN_MAX,
{
    clamp_i64(tan_fx(x), 1, FX_TAN_MAX)
}

/// The arc-tangent of a nonnegative ratio, clamped into `(0, pi/2]`.
pub fn atan_pos(x: i64) -> (r: i64)
    requires
        0 <= x <= FX_ATAN_ARG_MAX,
    ensures
        r as int == clamp(atan_of(x as int), 1, FX_HALF_PI as int),
        1 <= r <= FX_HALF_PI,
{
    clamp_i64(atan_fx(x), 1, FX_HALF_PI)
}

} // verus!
