//! Spatial queries: point containment and ray intersection.

use reng::collision::Volume;
use reng::fixed::Fx;
use reng::game_object::GameObject;
use reng::raycast::{closest_raycast, ray_cube_intersection, ray_sphere_intersection, raycast};
use reng::shapes::ShapeKind;
use reng::vec3::Vec3;

fn fx(i: i64) -> Fx {
    Fx::from_int(i)
}

fn raw(r: i64) -> Fx {
    Fx { raw: r }
}

fn v(x: i64, y: i64, z: i64) -> Vec3 {
    Vec3::new(fx(x), fx(y), fx(z))
}

fn shape_at(shape: ShapeKind, name: &str, position: Vec3) -> GameObject {
    let mut g = GameObject::new();
    g.shape = shape;
    g.name = name.to_string();
    g.transform.position = position;
    g
}

#[test]
fn sphere_contains_boundary_point() {
    let mut s = shape_at(ShapeKind::Sphere, "s", v(0, 0, 0));
    s.transform.scale = v(3, 1, 1);
    // exactly on the boundary: distance == radius counts as inside
    assert!(s.collide(v(3, 0, 0)));
    assert!(s.collide(v(0, -3, 0)));
    assert!(s.collide(v(1, 1, 1)));
    // one raw unit past the boundary along x is outside
    assert!(!s.collide(Vec3::new(raw(3 * 65536 + 1), fx(0), fx(0))));
    assert!(!s.collide(v(3, 1, 0)));
}

#[test]
fn sphere_radius_comes_from_scale_x_only() {
    let mut s = shape_at(ShapeKind::Sphere, "s", v(10, 0, 0));
    s.transform.scale = Vec3::new(fx(2), fx(50), fx(50));
    assert!(s.collide(v(12, 0, 0)));
    assert!(!s.collide(v(10, 3, 0)));
}

#[test]
fn cube_contains_face_point() {
    let c = shape_at(ShapeKind::Cube, "c", v(0, 0, 0));
    // the canonical cube is [-0.5, 0.5]^3, faces included
    assert!(c.collide(Vec3::new(raw(32768), fx(0), fx(0))));
    assert!(c.collide(Vec3::new(raw(-32768), raw(32768), raw(32768))));
    assert!(c.collide(v(0, 0, 0)));
    assert!(!c.collide(Vec3::new(raw(32769), fx(0), fx(0))));
    assert!(!c.collide(v(1, 0, 0)));
}

#[test]
fn cube_containment_honors_rotation_and_scale() {
    let mut c = shape_at(ShapeKind::Cube, "c", v(0, 0, 0));
    c.transform.scale = v(2, 1, 1);
    // unrotated: x extent reaches 1.0, y extent only 0.5
    assert!(c.collide(Vec3::new(raw(59000), fx(0), fx(0))));
    assert!(!c.collide(Vec3::new(fx(0), raw(59000), fx(0))));
    // after a quarter turn about z the long axis lies along y
    c.local_rotate(Vec3::new(fx(0), fx(0), raw(102944)));
    assert!(c.collide(Vec3::new(fx(0), raw(59000), fx(0))));
    assert!(!c.collide(Vec3::new(raw(59000), fx(0), fx(0))));
}

#[test]
fn empty_shape_never_collides() {
    let e = shape_at(ShapeKind::Empty, "e", v(7, 8, 9));
    assert!(!e.collide(v(7, 8, 9)));
    assert!(!e.collide(v(0, 0, 0)));
    assert!(!e.collide(v(-100, 3, 22)));
}

#[test]
fn ray_sphere_reports_near_root() {
    // origin (0,0,-5), direction +z, unit sphere at the origin: the near
    // root is exactly 4.
    let t = ray_sphere_intersection(v(0, 0, -5), v(0, 0, 1), v(0, 0, 0), fx(1));
    assert_eq!(t, Some(fx(4)));
}

#[test]
fn ray_sphere_from_inside_reports_exit() {
    let t = ray_sphere_intersection(v(0, 0, 0), v(0, 0, 1), v(0, 0, 0), fx(1));
    assert_eq!(t, Some(fx(1)));
}

#[test]
fn ray_sphere_behind_or_aside_misses() {
    // sphere behind the ray: both roots negative
    assert_eq!(
        ray_sphere_intersection(v(0, 0, 5), v(0, 0, 1), v(0, 0, 0), fx(1)),
        None
    );
    // ray passes wide of the sphere: negative discriminant
    assert_eq!(
        ray_sphere_intersection(v(0, 5, -5), v(0, 0, 1), v(0, 0, 0), fx(1)),
        None
    );
    // degenerate zero direction never hits
    assert_eq!(
        ray_sphere_intersection(v(0, 0, -5), v(0, 0, 0), v(0, 0, 0), fx(1)),
        None
    );
}

#[test]
fn ray_cube_slab_entry_distance() {
    // unit box around (0,0,5): entry exactly at 4.5
    let t = ray_cube_intersection(
        v(0, 0, 0),
        v(0, 0, 1),
        Vec3::new(raw(-32768), raw(-32768), raw(4 * 65536 + 32768)),
        Vec3::new(raw(32768), raw(32768), raw(5 * 65536 + 32768)),
    );
    assert_eq!(t, Some(raw(4 * 65536 + 32768)));
}

#[test]
fn ray_cube_parallel_axis_outside_misses() {
    // direction parallel to the x slabs while the origin sits outside them
    let t = ray_cube_intersection(v(2, 0, 0), v(0, 0, 1), v(-1, -1, 4), v(1, 1, 6));
    assert_eq!(t, None);
    // same ray from inside the x slabs hits
    let t2 = ray_cube_intersection(v(0, 0, 0), v(0, 0, 1), v(-1, -1, 4), v(1, 1, 6));
    assert_eq!(t2, Some(fx(4)));
}

#[test]
fn raycast_collects_qualifying_hits_with_points() {
    let s1 = shape_at(ShapeKind::Sphere, "near", v(0, 0, 6));
    let mut c1 = shape_at(ShapeKind::Cube, "box", v(0, 0, 10));
    c1.transform.scale = v(2, 2, 2);
    let far = shape_at(ShapeKind::Sphere, "far", v(0, 0, 200));
    let off = shape_at(ShapeKind::Sphere, "off", v(50, 0, 6));
    let skipped = shape_at(ShapeKind::Triangle, "tri", v(0, 0, 3));
    let hits = raycast(
        v(0, 0, 0),
        v(0, 0, 1),
        fx(100),
        vec![&s1, &c1, &far, &off, &skipped],
    );
    assert_eq!(hits.len(), 2);
    assert_eq!(hits[0].0, "near");
    assert_eq!(hits[0].1, fx(5));
    assert_eq!(hits[0].2, v(0, 0, 5));
    assert_eq!(hits[1].0, "box");
    assert_eq!(hits[1].1, fx(9));
    assert_eq!(hits[1].2, v(0, 0, 9));
}

#[test]
fn raycast_excludes_hits_beyond_max_distance() {
    let s = shape_at(ShapeKind::Sphere, "s", v(0, 0, 6));
    let hits = raycast(v(0, 0, 0), v(0, 0, 1), fx(4), vec![&s]);
    assert!(hits.is_empty());
    let hits2 = raycast(v(0, 0, 0), v(0, 0, 1), fx(5), vec![&s]);
    assert_eq!(hits2.len(), 1);
}

#[test]
fn ray_aimed_away_hits_nothing() {
    let s = shape_at(ShapeKind::Sphere, "s", v(0, 0, 6));
    let mut c = shape_at(ShapeKind::Cube, "c", v(3, 0, 6));
    c.transform.scale = v(1, 1, 1);
    let hits = raycast(v(0, 0, 0), v(0, 0, -1), fx(100), vec![&s, &c]);
    assert!(hits.is_empty());
    assert_eq!(
        closest_raycast(v(0, 0, 0), v(0, 0, -1), fx(100), vec![&s, &c]),
        None
    );
}

#[test]
fn closest_raycast_picks_minimum_distance() {
    // spheres hit at distances 5, 2 and 8: the one at 2 wins
    let a = shape_at(ShapeKind::Sphere, "a", v(0, 0, 6));
    let b = shape_at(ShapeKind::Sphere, "b", v(0, 0, 3));
    let c = shape_at(ShapeKind::Sphere, "c", v(0, 0, 9));
    let hit = closest_raycast(v(0, 0, 0), v(0, 0, 1), fx(100), vec![&a, &b, &c]).unwrap();
    assert_eq!(hit.0, "b");
    assert_eq!(hit.1, fx(2));
    assert_eq!(hit.2, v(0, 0, 2));
}

#[test]
fn closest_raycast_breaks_ties_by_first_encountered() {
    let a = shape_at(ShapeKind::Sphere, "first", v(0, 0, 6));
    let b = shape_at(ShapeKind::Sphere, "second", v(0, 0, 6));
    let hit = closest_raycast(v(0, 0, 0), v(0, 0, 1), fx(100), vec![&a, &b]).unwrap();
    assert_eq!(hit.0, "first");
}

#[test]
fn closest_raycast_on_empty_candidates_is_none() {
    assert_eq!(closest_raycast(v(0, 0, 0), v(0, 0, 1), fx(100), vec![]), None);
}
