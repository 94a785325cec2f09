//! Core of an interactive point-cloud viewer's camera subsystem.
//!
//! Raw window and device input (key presses, mouse drags, the scroll wheel)
//! is turned into a continuously valid camera pose: an eye point orbiting a
//! target on a sphere, a tangent up-vector, and a perspective or orthographic
//! projection.  All quantities are fixed-point numbers with 16 fractional
//! bits, so the numerical invariants (polar angle clamped to `[0, pi]`,
//! strictly positive orbit radius, positive frustum dimensions) are exact
//! statements about integers.

#![allow(unused_imports)]
use vstd::prelude::*;

pub mod fx;
pub mod trig;
pub mod vec3;
pub mod camera;
pub mod input;
pub mod laws;
