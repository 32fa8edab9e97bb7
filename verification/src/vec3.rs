//! Fixed-point 3-D vectors: positions and unit directions, in `SCALE`-ths.

use vstd::prelude::*;

verus! {

/// Largest magnitude, in `SCALE`-ths of a unit, that a position coordinate
/// may take while the squared norm of the whole vector still fits in `i64`.
pub const POS_BOUND: i64 = 1_000_000_000;

/// Largest magnitude, in `SCALE`-ths, of a component of a unit direction
/// vector (the magnitude of a whole unit, `SCALE` itself).
pub const DIR_BOUND: i64 = 1000;

/// A 3-D vector with fixed-point coordinates, in `SCALE`-ths of a unit.
#[derive(Clone, Copy, PartialEq, Eq, Structural, Debug)]
pub struct Vec3Fx {
    pub x: i64,
    pub y: i64,
    pub z: i64,
}

impl Vec3Fx {
    /// Squared Euclidean norm, in `SCALE_SQ`-ths of a squared unit.
    pub open spec fn norm_sq(self) -> int {
        self.x * self.x + self.y * self.y + self.z * self.z
    }

    /// The coordinates describe a position inside the representable world.
    pub open spec fn wf_position(self) -> bool {
        &&& -POS_BOUND <= self.x <= POS_BOUND
        &&& -POS_BOUND <= self.y <= POS_BOUND
        &&& -POS_BOUND <= self.z <= POS_BOUND
    }

    /// The coordinates describe (up to rounding) a unit direction: no
    /// component exceeds a whole unit in magnitude.
    pub open spec fn wf_direction(self) -> bool {
        &&& -DIR_BOUND <= self.x <= DIR_BOUND
        &&& -DIR_BOUND <= self.y <= DIR_BOUND
        &&& -DIR_BOUND <= self.z <= DIR_BOUND
    }

    pub fn new(x: i64, y: i64, z: i64) -> (v: Vec3Fx)
        ensures
            v == (Vec3Fx { x, y, z }),
    {
        Vec3Fx { x, y, z }
    }

    /// Squared distance of this position from the world origin.
    pub fn dist_sq_origin(&self) -> (d: i64)
        requires
            self.wf_position(),
        ensures
            d == self.norm_sq(),
            0 <= d <= 3_000_000_000_000_000_000,
    {
        proof {
            assert(0 <= self.x * self.x <= 1_000_000_000_000_000_000
                && 0 <= self.y * self.y <= 1_000_000_000_000_000_000
                && 0 <= self.z * self.z <= 1_000_000_000_000_000_000) by (nonlinear_arith)
                requires
                    -POS_BOUND <= self.x <= POS_BOUND,
                    -POS_BOUND <= self.y <= POS_BOUND,
                    -POS_BOUND <= self.z <= POS_BOUND;
        }
        self.x * self.x + self.y * self.y + self.z * self.z
    }

    /// An exact 180-degree rotation of this direction about the vertical
    /// (y) axis: the horizontal components are negated.
    pub fn yaw_flipped(&self) -> (v: Vec3Fx)
        requires
            self.wf_direction(),
        ensures
            v.x == -self.x,
            v.y == self.y,
            v.z == -self.z,
            v.wf_direction(),
    {
        Vec3Fx { x: -self.x, y: self.y, z: -self.z }
    }
}

} // verus!
