//! The physics helpers that compute target positions for nodes.

use reng::fixed::Fx;
use reng::utilities::second_order_dynamics::SecondOrderDynamics;
use reng::utilities::spring::Spring;
use reng::utilities::verlet::Verlet;
use reng::vec3::Vec3;

fn fx(i: i64) -> Fx {
    Fx::from_int(i)
}

fn raw(r: i64) -> Fx {
    Fx { raw: r }
}

fn v(x: i64, y: i64, z: i64) -> Vec3 {
    Vec3::new(fx(x), fx(y), fx(z))
}

#[test]
fn spring_new_clamps_strength() {
    let s = Spring::new(v(0, 0, 0), v(1, 0, 0), fx(1), fx(5));
    assert_eq!(s.strength, fx(1));
    let s2 = Spring::new(v(0, 0, 0), v(1, 0, 0), fx(1), fx(-2));
    assert_eq!(s2.strength, fx(0));
    let s3 = Spring::new(v(0, 0, 0), v(1, 0, 0), fx(1), raw(32768));
    assert_eq!(s3.strength.raw, 32768);
}

#[test]
fn spring_force_points_back_along_axis() {
    // endpoints 5 apart, rest length 2, k = 1: force magnitude 3 along -x
    let s = Spring::new(v(0, 0, 0), v(5, 0, 0), fx(2), fx(1));
    let f = s.get_force(fx(1));
    assert_eq!(f, Vec3::new(fx(-3), fx(0), fx(0)));
    // coincident endpoints give no force
    let z = Spring::new(v(1, 1, 1), v(1, 1, 1), fx(2), fx(1));
    assert_eq!(z.get_force(fx(1)), Vec3::zero());
}

#[test]
fn spring_update_pulls_endpoints_toward_rest() {
    // 4 apart, rest 2, full strength: each end moves 1 inward
    let mut s = Spring::new(v(0, 0, 0), v(4, 0, 0), fx(2), fx(1));
    s.update();
    assert_eq!(s.p1, v(1, 0, 0));
    assert_eq!(s.p2, v(3, 0, 0));
    // at rest nothing moves
    let mut r = Spring::new(v(0, 0, 0), v(2, 0, 0), fx(2), fx(1));
    r.update();
    assert_eq!(r.p1, v(0, 0, 0));
    assert_eq!(r.p2, v(2, 0, 0));
}

#[test]
fn verlet_new_defaults_to_origin() {
    let p = Verlet::new(fx(2), None);
    assert_eq!(p.position, Vec3::zero());
    assert_eq!(p.prev_position, Vec3::zero());
    assert_eq!(p.vel, Vec3::zero());
    let q = Verlet::new(fx(2), Some(v(1, 2, 3)));
    assert_eq!(q.position, v(1, 2, 3));
    assert_eq!(q.prev_position, v(1, 2, 3));
}

#[test]
fn verlet_step_integrates_force() {
    // mass 2, force (4,0,0), dt 1: acceleration 2, position += 0.5*2*1*1
    // = 1, velocity += 2 then damped by 0.98.
    let mut p = Verlet::new(fx(2), None);
    p.force = v(4, 0, 0);
    p.update(fx(1));
    assert_eq!(p.position, v(1, 0, 0));
    // 2 * 0.98 in raw units with truncation
    assert_eq!(p.vel.x, Fx { raw: 2 * 64225 });
    assert_eq!(p.force, Vec3::zero());
}

#[test]
fn verlet_at_rest_stays_at_rest() {
    let mut p = Verlet::new(fx(1), Some(v(3, 3, 3)));
    p.update(raw(6554));
    assert_eq!(p.position, v(3, 3, 3));
    assert_eq!(p.vel, Vec3::zero());
}

#[test]
fn second_order_zero_step_changes_nothing() {
    let mut s = SecondOrderDynamics::new(fx(1), fx(1), fx(0), v(2, 2, 2));
    let y = s.update(fx(0), v(9, 9, 9), None);
    assert_eq!(y, v(2, 2, 2));
    assert_eq!(s.y, v(2, 2, 2));
}

#[test]
fn second_order_tracks_a_held_target() {
    // with damping 1 and generous steps the output settles near a target
    // that stays put
    let mut s = SecondOrderDynamics::new(fx(1), fx(1), fx(0), v(0, 0, 0));
    let target = v(10, 0, 0);
    let dt = raw(6554);  // about 0.1
    let mut last = Vec3::zero();
    for _ in 0..200 {
        last = s.update(dt, target, Some(Vec3::zero()));
    }
    assert!((last.x.raw - 10 * 65536).abs() <= 3277);
    assert_eq!(last.y.raw, 0);
    assert_eq!(last.z.raw, 0);
}
