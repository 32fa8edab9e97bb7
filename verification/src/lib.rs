//! Verified per-frame motion behaviors for a simple 3-D test scene:
//! a constant-rate axis rotator and a bounded random-walk wandering mover.
//!
//! All scalar quantities are fixed-point integers so that every update is
//! exact: positions, directions, speeds and times carry a factor of
//! `SCALE` (one thousandth of a world unit, of a unit direction component,
//! of a world unit per second, of a radian per second, or of a second);
//! products of two such quantities (squared distances, accumulated
//! rotation angles, translation steps before descaling) carry a factor of
//! `SCALE_SQ`.

use vstd::prelude::*;

pub mod vec3;
pub mod transform;
pub mod rotator;
pub mod mover;
pub mod texture;
mod sample;

pub use mover::Mover;
pub use rotator::Rotator;
pub use transform::SpatialTransform;
pub use vec3::Vec3Fx;

verus! {

/// Fixed-point sub-units per unit (of length, time, angle or rate).
pub const SCALE: i64 = 1000;

/// Sub-units squared per unit squared; the scale of products.
pub const SCALE_SQ: i64 = 1_000_000;

} // verus!
