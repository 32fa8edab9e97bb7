use scene_motion::mover::{update, update_all, Mover, JITTER_MAX, JITTER_WINDOW};
use scene_motion::transform::SpatialTransform;
use scene_motion::vec3::Vec3Fx;

fn wanderer(speed: i64, last_rotation_change: i64, last_distance: i64) -> Mover {
    Mover { speed, last_rotation_change, last_distance }
}

#[test]
fn fresh_mover_has_random_speed_and_zeroed_accumulators() {
    let mut speeds = Vec::new();
    for _ in 0..100 {
        let m = Mover::default();
        assert!((1000..3000).contains(&m.speed));
        assert_eq!(m.last_rotation_change, 0);
        assert_eq!(m.last_distance, 0);
        speeds.push(m.speed);
    }
    // a uniform draw over two thousand values does not return the same
    // value a hundred times in a row
    assert!(speeds.iter().any(|s| *s != speeds[0]));
}

#[test]
fn one_second_at_speed_two_from_origin_moves_two_units_forward() {
    // speed 2.0, accumulators zero, at the origin facing +X, dt 1.0:
    // translation of exactly 2.0 units along +X, and the jitter window
    // overflows, so the accumulator resets and one jitter is drawn.
    let mut t = SpatialTransform::new(Vec3Fx::new(0, 0, 0), Vec3Fx::new(1000, 0, 0));
    let mut s = wanderer(2000, 0, 0);
    let jitter = update(&mut t, &mut s, 1000);
    assert_eq!(t.position, Vec3Fx::new(2000, 0, 0));
    assert_eq!(s.last_rotation_change, 0);
    let j = jitter.expect("the jitter window overflowed");
    assert!((-JITTER_MAX..=JITTER_MAX).contains(&j));
}

#[test]
fn outward_bound_past_the_boundary_turns_around() {
    // squared distance 150 > 100, moving outward (previous was 100): flip
    let mut t = SpatialTransform::new(Vec3Fx::new(10_000, 7000, 1000), Vec3Fx::new(1000, 0, 0));
    let mut s = wanderer(1000, 0, 100_000_000);
    update(&mut t, &mut s, 100);
    assert_eq!(t.facing, Vec3Fx::new(-1000, 0, 0));
    // and it then walked along the flipped facing
    assert_eq!(t.position.x, 10_000 - 100);
}

#[test]
fn already_retreating_past_the_boundary_keeps_its_heading() {
    // squared distance 150 > 100, but closing in (previous was 200): no flip
    let mut t = SpatialTransform::new(Vec3Fx::new(10_000, 7000, 1000), Vec3Fx::new(1000, 0, 0));
    let mut s = wanderer(1000, 0, 200_000_000);
    update(&mut t, &mut s, 100);
    assert_eq!(t.facing, Vec3Fx::new(1000, 0, 0));
    assert_eq!(t.position.x, 10_000 + 100);
}

#[test]
fn inside_the_boundary_never_turns_around() {
    // squared distance 64 <= 100, outward trend or not: no flip
    let mut t = SpatialTransform::new(Vec3Fx::new(8000, 0, 0), Vec3Fx::new(1000, 0, 0));
    let mut s = wanderer(1000, 0, 0);
    update(&mut t, &mut s, 100);
    assert_eq!(t.facing, Vec3Fx::new(1000, 0, 0));
}

#[test]
fn last_distance_records_every_frame_with_or_without_flip() {
    let mut t = SpatialTransform::new(Vec3Fx::new(10_000, 7000, 1000), Vec3Fx::new(1000, 0, 0));
    let mut s = wanderer(1000, 0, 100_000_000);
    update(&mut t, &mut s, 10);
    assert_eq!(s.last_distance, 150_000_000);

    let mut t2 = SpatialTransform::new(Vec3Fx::new(10_000, 10_000, 0), Vec3Fx::new(1000, 0, 0));
    let mut s2 = wanderer(1000, 0, 300_000_000);
    update(&mut t2, &mut s2, 10);
    assert_eq!(s2.last_distance, 200_000_000);
}

#[test]
fn speed_never_changes_across_updates() {
    let mut t = SpatialTransform::new(Vec3Fx::new(0, 0, 0), Vec3Fx::new(0, 0, 1000));
    let mut s = wanderer(2345, 0, 0);
    for _ in 0..500 {
        update(&mut t, &mut s, 90);
        assert_eq!(s.speed, 2345);
    }
}

#[test]
fn jitter_accumulator_never_exceeds_the_window() {
    let mut t = SpatialTransform::new(Vec3Fx::new(0, 0, 0), Vec3Fx::new(0, 0, 1000));
    let mut s = wanderer(1500, 0, 0);
    for dt in [0, 90, 90, 90, 250, 251, 1, 0, 249, 1, 1] {
        update(&mut t, &mut s, dt);
        assert!(s.last_rotation_change <= JITTER_WINDOW);
    }
}

#[test]
fn jitter_fires_the_instant_the_window_overflows() {
    let mut t = SpatialTransform::new(Vec3Fx::new(0, 0, 0), Vec3Fx::new(0, 0, 1000));
    let mut s = wanderer(1500, 0, 0);
    // 250 exactly: not yet over the window
    assert!(update(&mut t, &mut s, 250).is_none());
    assert_eq!(s.last_rotation_change, 250);
    // one more thousandth of a second: over, reset and draw
    assert!(update(&mut t, &mut s, 1).is_some());
    assert_eq!(s.last_rotation_change, 0);
}

#[test]
fn non_random_fields_evolve_identically_across_runs() {
    let dts = [130, 40, 500, 0, 90, 260, 70];
    let t0 = SpatialTransform::new(Vec3Fx::new(9000, 0, 4000), Vec3Fx::new(-707, 0, 707));
    let s0 = wanderer(1700, 100, 80_000_000);

    let mut ta = t0;
    let mut sa = s0;
    let mut trace_a = Vec::new();
    for dt in dts {
        update(&mut ta, &mut sa, dt);
        trace_a.push((ta, sa));
    }

    let mut tb = t0;
    let mut sb = s0;
    let mut trace_b = Vec::new();
    for dt in dts {
        update(&mut tb, &mut sb, dt);
        trace_b.push((tb, sb));
    }

    assert_eq!(trace_a, trace_b);
}

#[test]
fn update_all_steps_every_entity_and_reports_each_jitter() {
    let mut es = vec![
        (
            SpatialTransform::new(Vec3Fx::new(0, 0, 0), Vec3Fx::new(1000, 0, 0)),
            wanderer(2000, 0, 0),
        ),
        (
            SpatialTransform::new(Vec3Fx::new(10_000, 7000, 1000), Vec3Fx::new(1000, 0, 0)),
            wanderer(1000, 200, 100_000_000),
        ),
    ];
    let jitters = update_all(&mut es, 100);
    assert_eq!(jitters.len(), 2);
    // entity 0: window not yet overflowed (0 + 100 <= 250)
    assert!(jitters[0].is_none());
    assert_eq!(es[0].0.position, Vec3Fx::new(200, 0, 0));
    // entity 1: window overflowed (200 + 100 > 250), and it flipped
    assert!(jitters[1].is_some());
    assert_eq!(es[1].0.facing, Vec3Fx::new(-1000, 0, 0));
    assert_eq!(es[1].1.last_rotation_change, 0);
}
