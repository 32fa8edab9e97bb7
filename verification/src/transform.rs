//! The spatial state of one entity, in exact fixed-point terms.

use vstd::prelude::*;
use crate::vec3::Vec3Fx;

verus! {

/// Position and orientation of one entity.
///
/// Orientation is kept in the two exact forms the update logic reads and
/// writes: `facing`, the forward unit direction along which the wandering
/// mover translates (turnarounds negate it horizontally, which is exact;
/// a heading jitter returned by the mover is applied by the host, which
/// owns the trigonometry, and written back through [`Self::set_facing`]);
/// and `spin`, the rotation angle about the scene's fixed rotation axis
/// accumulated by the axis rotator, in `SCALE_SQ`-ths of a radian.
#[derive(Clone, Copy, PartialEq, Eq, Structural, Debug)]
pub struct SpatialTransform {
    /// Position, in `SCALE`-ths of a world unit per coordinate.
    pub position: Vec3Fx,
    /// Forward unit direction, in `SCALE`-ths per component.
    pub facing: Vec3Fx,
    /// Accumulated rotation about the scene's rotation axis, in
    /// `SCALE_SQ`-ths of a radian.
    pub spin: i64,
}

impl SpatialTransform {
    pub open spec fn wf(self) -> bool {
        &&& self.position.wf_position()
        &&& self.facing.wf_direction()
    }

    /// A transform at the given position and facing, not yet rotated.
    pub fn new(position: Vec3Fx, facing: Vec3Fx) -> (t: SpatialTransform)
        ensures
            t.position == position,
            t.facing == facing,
            t.spin == 0,
    {
        SpatialTransform { position, facing, spin: 0 }
    }

    /// Overwrite the forward direction; the host calls this after it has
    /// applied a heading jitter to the entity's real orientation.
    pub fn set_facing(&mut self, facing: Vec3Fx)
        requires
            facing.wf_direction(),
        ensures
            final(self).facing == facing,
            final(self).position == old(self).position,
            final(self).spin == old(self).spin,
    {
        self.facing = facing;
    }
}

} // verus!
