//! The axis rotator: a constant angular rate about a fixed axis, applied
//! to every rotating entity each frame.

use vstd::prelude::*;
use crate::transform::SpatialTransform;
use crate::vec3::Vec3Fx;
use crate::vec3::DIR_BOUND;

verus! {

/// Default angular rate: 0.25 radians per second, in `SCALE`-ths.
pub const DEFAULT_ROTATION_SPEED: i64 = 250;

/// Largest angular rate magnitude a well-formed rotator may carry,
/// in `SCALE`-ths of a radian per second (a thousand radians per second).
pub const ROT_SPEED_BOUND: i64 = 1_000_000;

/// Largest accumulated spin magnitude, in `SCALE_SQ`-ths of a radian, at
/// which one more update of at most `MAX_DT` still fits in `i64`.
pub const SPIN_BOUND: i64 = 1_000_000_000_000_000_000;

/// Largest elapsed frame time accepted by an update, in `SCALE`-ths of a
/// second (a thousand seconds).
pub const MAX_DT: i64 = 1_000_000;

/// Shared, read-only configuration of the axis rotator.
#[derive(Clone, Copy, PartialEq, Eq, Structural, Debug)]
pub struct Rotator {
    /// Angular rate, in `SCALE`-ths of a radian per second.
    pub speed: i64,
    /// The rotation axis, a unit vector in `SCALE`-ths per component.
    /// It is taken as supplied and never renormalized.
    pub axis: Vec3Fx,
}

impl Rotator {
    pub open spec fn wf(self) -> bool {
        &&& -ROT_SPEED_BOUND <= self.speed <= ROT_SPEED_BOUND
        &&& self.axis.wf_direction()
    }
}

impl Default for Rotator {
    /// The scene default: 0.25 radians per second about the +Z axis.
    fn default() -> (r: Rotator)
        ensures
            r.speed == DEFAULT_ROTATION_SPEED,
            r.axis == (Vec3Fx { x: 0, y: 0, z: DIR_BOUND }),
            r.wf(),
    {
        Rotator { speed: DEFAULT_ROTATION_SPEED, axis: Vec3Fx { x: 0, y: 0, z: DIR_BOUND } }
    }
}

/// The angle, in `SCALE_SQ`-ths of a radian, that a rate of `speed`
/// (`SCALE`-ths of a radian per second) turns through in `dt`
/// (`SCALE`-ths of a second).
pub open spec fn rotation_angle(speed: int, dt: int) -> int {
    speed * dt
}

/// One frame of the axis rotator on one entity: the orientation advances
/// about the configured axis by exactly `speed * dt`; nothing else moves.
pub fn rotate(t: &mut SpatialTransform, r: &Rotator, dt: i64)
    requires
        r.wf(),
        0 <= dt <= MAX_DT,
        -SPIN_BOUND <= old(t).spin <= SPIN_BOUND,
    ensures
        final(t).spin == old(t).spin + rotation_angle(r.speed as int, dt as int),
        final(t).position == old(t).position,
        final(t).facing == old(t).facing,
{
    proof {
        assert(-1_000_000_000_000 <= r.speed * dt <= 1_000_000_000_000) by (nonlinear_arith)
            requires
                -ROT_SPEED_BOUND <= r.speed <= ROT_SPEED_BOUND,
                0 <= dt <= MAX_DT;
    }
    t.spin = t.spin + r.speed * dt;
}

/// The total elapsed time of a sequence of frames.
pub open spec fn total_time(dts: Seq<int>) -> int
    decreases dts.len(),
{
    if dts.len() == 0 {
        0
    } else {
        total_time(dts.drop_last()) + dts.last()
    }
}

/// The orientation angle reached from `spin0` by a chain of rotator
/// updates at rate `speed`, one per frame of `dts` (each update adds
/// `rotation_angle(speed, dt)`, exactly as [`rotate`] ensures).
pub open spec fn spin_after_frames(spin0: int, speed: int, dts: Seq<int>) -> int
    decreases dts.len(),
{
    if dts.len() == 0 {
        spin0
    } else {
        spin_after_frames(spin0, speed, dts.drop_last()) + rotation_angle(speed, dts.last())
    }
}

/// Law: over any sequence of frames, the axis rotator turns the
/// orientation by exactly its rate times the total elapsed time — the
/// per-frame angles accumulate additively, however the time is split.
pub proof fn lemma_rotation_accumulates(spin0: int, speed: int, dts: Seq<int>)
    ensures
        spin_after_frames(spin0, speed, dts) == spin0 + rotation_angle(speed, total_time(dts)),
    decreases dts.len(),
{
    if dts.len() == 0 {
        assert(rotation_angle(speed, 0) == 0);
    } else {
        lemma_rotation_accumulates(spin0, speed, dts.drop_last());
        assert(speed * (total_time(dts.drop_last()) + dts.last()) == speed * total_time(
            dts.drop_last(),
        ) + speed * dts.last()) by (nonlinear_arith);
    }
}

/// Law: an axis rotator update with zero elapsed time turns through a
/// zero angle, so it leaves the orientation exactly unchanged.
pub proof fn lemma_rotation_zero_dt(spin0: int, speed: int)
    ensures
        rotation_angle(speed, 0) == 0,
        spin_after_frames(spin0, speed, seq![0int]) == spin0,
{
    let dts = seq![0int];
    assert(dts.last() == 0);
    assert(dts.drop_last().len() == 0);
    assert(spin_after_frames(spin0, speed, dts.drop_last()) == spin0);
}

/// One frame of the axis rotator over every rotating entity.
pub fn rotate_all(ts: &mut Vec<SpatialTransform>, r: &Rotator, dt: i64)
    requires
        r.wf(),
        0 <= dt <= MAX_DT,
        forall|i: int|
            0 <= i < old(ts)@.len() ==> -SPIN_BOUND <= #[trigger] old(ts)@[i].spin <= SPIN_BOUND,
    ensures
        final(ts)@.len() == old(ts)@.len(),
        forall|i: int|
            0 <= i < old(ts)@.len() ==> {
                let t0 = old(ts)@[i];
                let t1 = #[trigger] final(ts)@[i];
                &&& t1.spin == t0.spin + rotation_angle(r.speed as int, dt as int)
                &&& t1.position == t0.position
                &&& t1.facing == t0.facing
            },
{
    let n = ts.len();
    let mut i: usize = 0;
    while i < n
        invariant
            n == old(ts)@.len(),
            i <= n,
            ts@.len() == n,
            r.wf(),
            0 <= dt <= MAX_DT,
            forall|k: int|
                i <= k < n ==> -SPIN_BOUND <= #[trigger] ts@[k].spin <= SPIN_BOUND,
            forall|k: int| i <= k < n ==> #[trigger] ts@[k] == old(ts)@[k],
            forall|k: int|
                0 <= k < i ==> {
                    let t0 = old(ts)@[k];
                    let t1 = #[trigger] ts@[k];
                    &&& t1.spin == t0.spin + rotation_angle(r.speed as int, dt as int)
                    &&& t1.position == t0.position
                    &&& t1.facing == t0.facing
                },
        decreases n - i,
    {
        rotate(&mut ts[i], r, dt);
        i = i + 1;
    }
}

} // verus!
