//! The wandering mover: a bounded random walk, one exact state
//! transition per frame per entity.

use vstd::prelude::*;
use crate::transform::SpatialTransform;
use crate::vec3::Vec3Fx;
use crate::vec3::POS_BOUND;
use crate::vec3::DIR_BOUND;
use crate::rotator::MAX_DT;
use crate::sample::sample_uniform;
use crate::SCALE_SQ;

verus! {

/// The squared boundary radius (ten units), in `SCALE_SQ`-ths of a
/// squared unit: beyond it a still-outward-bound entity turns around.
pub const DIST_THRESHOLD_SQ: i64 = 100_000_000;

/// Length of the heading-jitter window (a quarter second), in `SCALE`-ths
/// of a second.
pub const JITTER_WINDOW: i64 = 250;

/// Largest heading-jitter magnitude (a quarter radian), in `SCALE_SQ`-ths
/// of a radian.
pub const JITTER_MAX: i64 = 250_000;

/// Lowest wandering speed (inclusive), in `SCALE`-ths of a unit per second.
pub const MIN_SPEED: i64 = 1000;

/// Highest wandering speed (exclusive), in `SCALE`-ths of a unit per second.
pub const MAX_SPEED: i64 = 3000;

/// Largest distance one update can move a coordinate, in `SCALE`-ths of a
/// unit: a whole-unit facing component times `MAX_SPEED` times `MAX_DT`,
/// descaled.
pub const MAX_STEP: i64 = 3_000_000;

/// Per-entity state of the wandering mover.
#[derive(Clone, Copy, PartialEq, Eq, Structural, Debug)]
pub struct Mover {
    /// Linear rate, in `SCALE`-ths of a unit per second; drawn once at
    /// creation and never changed by an update.
    pub speed: i64,
    /// Time accumulated since the last heading jitter, in `SCALE`-ths of
    /// a second.
    pub last_rotation_change: i64,
    /// The squared distance from the origin recorded by the previous
    /// update, in `SCALE_SQ`-ths of a squared unit.
    pub last_distance: i64,
}

impl Mover {
    pub open spec fn wf(self) -> bool {
        &&& MIN_SPEED <= self.speed < MAX_SPEED
        &&& 0 <= self.last_rotation_change <= JITTER_WINDOW
        &&& 0 <= self.last_distance
    }
}

impl Default for Mover {
    /// A fresh wanderer: speed drawn uniformly from the speed range, both
    /// accumulators zeroed.
    fn default() -> (m: Mover)
        ensures
            MIN_SPEED <= m.speed < MAX_SPEED,
            m.last_rotation_change == 0,
            m.last_distance == 0,
            m.wf(),
    {
        let speed = sample_uniform(MIN_SPEED, MAX_SPEED);
        Mover { speed, last_rotation_change: 0, last_distance: 0 }
    }
}

/// The two-part boundary guard: past the threshold (strictly) and not yet
/// closer than the previous frame (at least as far).
pub open spec fn turnaround_due(dist_sq: int, last_distance: int) -> bool {
    dist_sq > DIST_THRESHOLD_SQ && dist_sq >= last_distance
}

/// The jitter accumulator after a frame of `dt`: reset to zero the moment
/// it would exceed the window, otherwise grown by `dt`.
pub open spec fn next_rotation_accum(accum: int, dt: int) -> int {
    if accum + dt > JITTER_WINDOW {
        0
    } else {
        accum + dt
    }
}

/// Whether a frame of `dt` makes the accumulator overflow the window and
/// so triggers one heading jitter.
pub open spec fn jitter_due(accum: int, dt: int) -> bool {
    accum + dt > JITTER_WINDOW
}

/// The distance one coordinate moves in a frame: the facing component
/// (`SCALE`-ths) times the speed (`SCALE`-ths of a unit per second) times
/// the elapsed time (`SCALE`-ths of a second), descaled back to
/// `SCALE`-ths of a unit, rounding the magnitude down.
pub open spec fn forward_step(facing: int, speed: int, dt: int) -> int {
    if facing >= 0 {
        (facing * speed * dt) / (SCALE_SQ as int)
    } else {
        -((-facing * speed * dt) / (SCALE_SQ as int))
    }
}

/// Everything one mover update does to the transform and the state,
/// short of the randomly drawn jitter angle: the whole non-random frame
/// transition, as one relation between the values before (`t0`, `s0`)
/// and after (`t1`, `s1`).
pub open spec fn mover_post(
    t0: SpatialTransform,
    s0: Mover,
    t1: SpatialTransform,
    s1: Mover,
    dt: int,
) -> bool {
    let d = t0.position.norm_sq();
    let flip = turnaround_due(d, s0.last_distance as int);
    &&& s1.speed == s0.speed
    &&& s1.last_distance == d
    &&& s1.last_rotation_change == next_rotation_accum(s0.last_rotation_change as int, dt)
    &&& (flip ==> t1.facing.x == -t0.facing.x && t1.facing.y == t0.facing.y && t1.facing.z
        == -t0.facing.z)
    &&& (!flip ==> t1.facing == t0.facing)
    &&& t1.position.x == t0.position.x + forward_step(t1.facing.x as int, s0.speed as int, dt)
    &&& t1.position.y == t0.position.y + forward_step(t1.facing.y as int, s0.speed as int, dt)
    &&& t1.position.z == t0.position.z + forward_step(t1.facing.z as int, s0.speed as int, dt)
    &&& t1.spin == t0.spin
}

/// The position leaves an update enough room below `POS_BOUND` for the
/// largest possible step of the next update.
pub open spec fn room_to_move(p: Vec3Fx) -> bool {
    &&& -(POS_BOUND - MAX_STEP) <= p.x <= POS_BOUND - MAX_STEP
    &&& -(POS_BOUND - MAX_STEP) <= p.y <= POS_BOUND - MAX_STEP
    &&& -(POS_BOUND - MAX_STEP) <= p.z <= POS_BOUND - MAX_STEP
}

/// One coordinate of the forward translation.
fn forward_step_exec(facing: i64, speed: i64, dt: i64) -> (step: i64)
    requires
        -DIR_BOUND <= facing <= DIR_BOUND,
        0 <= speed < MAX_SPEED,
        0 <= dt <= MAX_DT,
    ensures
        step == forward_step(facing as int, speed as int, dt as int),
        -MAX_STEP <= step <= MAX_STEP,
{
    proof {
        assert((facing >= 0 ==> 0 <= facing * speed <= 3_000_000 && 0 <= facing * speed * dt
            <= 3_000_000_000_000) && (facing < 0 ==> 0 <= (-facing) * speed <= 3_000_000 && 0 <= (
        -facing) * speed * dt <= 3_000_000_000_000)) by (nonlinear_arith)
            requires
                -DIR_BOUND <= facing <= DIR_BOUND,
                0 <= speed < MAX_SPEED,
                0 <= dt <= MAX_DT;
    }
    if facing >= 0 {
        let prod: i64 = facing * speed * dt;
        prod / SCALE_SQ
    } else {
        let prod: i64 = (-facing) * speed * dt;
        -(prod / SCALE_SQ)
    }
}

/// One frame of the wandering mover on one entity.
///
/// In order: turn the facing around if the boundary guard holds; record
/// the squared distance either way; translate forward by `speed * dt`;
/// grow the jitter accumulator, and when it overflows the window, reset
/// it and draw one jitter angle. The drawn angle is returned for the
/// host to apply to the entity's real orientation (and write back through
/// `set_facing`); everything else the update does is pinned exactly by
/// `mover_post`.
pub fn update(t: &mut SpatialTransform, s: &mut Mover, dt: i64) -> (jitter: Option<i64>)
    requires
        old(t).wf(),
        old(s).wf(),
        room_to_move(old(t).position),
        0 <= dt <= MAX_DT,
    ensures
        mover_post(*old(t), *old(s), *final(t), *final(s), dt as int),
        jitter is Some <==> jitter_due(old(s).last_rotation_change as int, dt as int),
        (jitter matches Some(j) ==> -JITTER_MAX <= j <= JITTER_MAX),
        final(t).wf(),
        final(s).wf(),
        0 <= final(s).last_rotation_change <= JITTER_WINDOW,
{
    let dist = t.position.dist_sq_origin();
    if dist > DIST_THRESHOLD_SQ && dist >= s.last_distance {
        t.facing = t.facing.yaw_flipped();
    }
    s.last_distance = dist;

    let step_x = forward_step_exec(t.facing.x, s.speed, dt);
    let step_y = forward_step_exec(t.facing.y, s.speed, dt);
    let step_z = forward_step_exec(t.facing.z, s.speed, dt);
    t.position = Vec3Fx {
        x: t.position.x + step_x,
        y: t.position.y + step_y,
        z: t.position.z + step_z,
    };

    s.last_rotation_change = s.last_rotation_change + dt;
    if s.last_rotation_change > JITTER_WINDOW {
        s.last_rotation_change = 0;
        Some(sample_uniform(-JITTER_MAX, JITTER_MAX + 1))
    } else {
        None
    }
}

/// Law (determinism apart from the random draw): `mover_post` relates a
/// given transform, state and elapsed time to exactly one new transform
/// and state. So across repeated runs from identical starting state with
/// identical frame times, every non-random field evolves identically.
pub proof fn lemma_update_deterministic(
    t0: SpatialTransform,
    s0: Mover,
    ta: SpatialTransform,
    sa: Mover,
    tb: SpatialTransform,
    sb: Mover,
    dt: int,
)
    requires
        mover_post(t0, s0, ta, sa, dt),
        mover_post(t0, s0, tb, sb, dt),
    ensures
        ta == tb,
        sa == sb,
{
    assert(ta.facing == tb.facing);
    assert(ta.position == tb.position);
}

/// Law: across any chain of mover updates, the speed field never changes
/// from its value at creation.
pub proof fn lemma_speed_never_changes(states: Seq<(SpatialTransform, Mover)>, dts: Seq<int>)
    requires
        states.len() == dts.len() + 1,
        forall|i: int|
            0 <= i < dts.len() ==> #[trigger] mover_post(
                states[i].0,
                states[i].1,
                states[i + 1].0,
                states[i + 1].1,
                dts[i],
            ),
    ensures
        forall|i: int| 0 <= i < states.len() ==> (#[trigger] states[i]).1.speed == states[0].1.speed,
    decreases dts.len(),
{
    if dts.len() > 0 {
        let prefix = states.drop_last();
        let pdts = dts.drop_last();
        assert forall|i: int| 0 <= i < pdts.len() implies #[trigger] mover_post(
            prefix[i].0,
            prefix[i].1,
            prefix[i + 1].0,
            prefix[i + 1].1,
            pdts[i],
        ) by {
            assert(mover_post(
                states[i].0,
                states[i].1,
                states[i + 1].0,
                states[i + 1].1,
                dts[i],
            ));
        }
        lemma_speed_never_changes(prefix, pdts);
        let n = dts.len() as int;
        assert(mover_post(
            states[n - 1].0,
            states[n - 1].1,
            states[n].0,
            states[n].1,
            dts[n - 1],
        ));
        assert forall|i: int| 0 <= i < states.len() implies (#[trigger] states[i]).1.speed
            == states[0].1.speed by {
            if i < n {
                assert(prefix[i] == states[i]);
                assert(prefix[0] == states[0]);
            } else {
                assert(prefix[n - 1] == states[n - 1]);
                assert(prefix[0] == states[0]);
            }
        }
    }
}

/// One frame of the wandering mover over every wandering entity; the
/// jitter drawn for entity `i`, if its window overflowed, is returned in
/// slot `i`.
pub fn update_all(es: &mut Vec<(SpatialTransform, Mover)>, dt: i64) -> (jitters: Vec<Option<i64>>)
    requires
        0 <= dt <= MAX_DT,
        forall|i: int|
            0 <= i < old(es)@.len() ==> {
                let (t, s) = #[trigger] old(es)@[i];
                t.wf() && s.wf() && room_to_move(t.position)
            },
    ensures
        final(es)@.len() == old(es)@.len(),
        jitters@.len() == old(es)@.len(),
        forall|i: int|
            #![trigger final(es)@[i]]
            #![trigger jitters@[i]]
            0 <= i < old(es)@.len() ==> {
                let (t0, s0) = old(es)@[i];
                let (t1, s1) = final(es)@[i];
                &&& mover_post(t0, s0, t1, s1, dt as int)
                &&& (jitters@[i] is Some <==> jitter_due(s0.last_rotation_change as int, dt as int))
                &&& (jitters@[i] matches Some(j) ==> -JITTER_MAX <= j <= JITTER_MAX)
                &&& t1.wf()
                &&& s1.wf()
            },
{
    let n = es.len();
    let mut jitters: Vec<Option<i64>> = Vec::new();
    let mut i: usize = 0;
    while i < n
        invariant
            n == old(es)@.len(),
            i <= n,
            es@.len() == n,
            jitters@.len() == i,
            0 <= dt <= MAX_DT,
            forall|k: int|
                i <= k < n ==> {
                    let (t, s) = #[trigger] es@[k];
                    t == old(es)@[k].0 && s == old(es)@[k].1 && t.wf() && s.wf() && room_to_move(
                        t.position,
                    )
                },
            forall|k: int|
                #![trigger es@[k]]
                #![trigger jitters@[k]]
                0 <= k < i ==> {
                    let (t0, s0) = old(es)@[k];
                    let (t1, s1) = es@[k];
                    &&& mover_post(t0, s0, t1, s1, dt as int)
                    &&& (jitters@[k] is Some <==> jitter_due(
                        s0.last_rotation_change as int,
                        dt as int,
                    ))
                    &&& (jitters@[k] matches Some(j) ==> -JITTER_MAX <= j <= JITTER_MAX)
                    &&& t1.wf()
                    &&& s1.wf()
                },
        decreases n - i,
    {
        let mut pair = es[i];
        let jitter = update(&mut pair.0, &mut pair.1, dt);
        es[i] = pair;
        jitters.push(jitter);
        i = i + 1;
    }
    jitters
}

} // verus!
