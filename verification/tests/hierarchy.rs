//! Edit propagation through the scene tree: rigid translation, uniform
//! scaling, rotation semantics, and the facing operation.

use reng::fixed::Fx;
use reng::game_object::{quickGO, GameObject};
use reng::shapes::ShapeKind;
use reng::vec3::{Vec3, Vec4};

fn fx(i: i64) -> Fx {
    Fx::from_int(i)
}

fn raw(r: i64) -> Fx {
    Fx { raw: r }
}

fn v(x: i64, y: i64, z: i64) -> Vec3 {
    Vec3::new(fx(x), fx(y), fx(z))
}

fn node_at(x: i64, y: i64, z: i64) -> GameObject {
    let mut g = GameObject::new();
    g.transform.position = v(x, y, z);
    g
}

/// Root at (1,2,3) with a child at (5,2,3) and a grandchild at (5,10,3).
fn sample_tree() -> GameObject {
    let mut root = node_at(1, 2, 3);
    let mut child = node_at(5, 2, 3);
    let grandchild = node_at(5, 10, 3);
    child.children.push(grandchild);
    root.children.push(child);
    root.children.push(node_at(-4, 2, 3));
    root
}

#[test]
fn new_node_has_defaults() {
    let g = GameObject::new();
    assert_eq!(g.transform.position, Vec3::zero());
    assert_eq!(g.transform.scale, Vec3::new(fx(1), fx(1), fx(1)));
    assert_eq!(g.transform.rotation.w, fx(1));
    assert_eq!(g.transform.rotation.x, fx(0));
    assert!(matches!(g.shape, ShapeKind::Empty));
    assert!(g.children.is_empty());
    assert_eq!(g.name, "");
}

#[test]
fn translate_moves_every_node_by_delta() {
    let mut t = sample_tree();
    t.translate(v(10, -2, 7));
    assert_eq!(t.transform.position, v(11, 0, 10));
    assert_eq!(t.children[0].transform.position, v(15, 0, 10));
    assert_eq!(t.children[0].children[0].transform.position, v(15, 8, 10));
    assert_eq!(t.children[1].transform.position, v(6, 0, 10));
}

#[test]
fn translate_preserves_relative_offsets() {
    let before = sample_tree();
    let mut after = sample_tree();
    after.translate(v(123, -55, 9));
    let diff_before = before.children[0]
        .children[0]
        .transform
        .position
        .sub(before.children[1].transform.position);
    let diff_after = after.children[0]
        .children[0]
        .transform
        .position
        .sub(after.children[1].transform.position);
    assert_eq!(diff_before, diff_after);
}

#[test]
fn set_position_matches_translate_by_delta() {
    let mut a = sample_tree();
    let mut b = sample_tree();
    let target = v(30, 40, 50);
    a.set_position(target);
    b.translate(target.sub(b.transform.position));
    assert_eq!(a.transform.position, target);
    assert_eq!(a.transform.position, b.transform.position);
    assert_eq!(
        a.children[0].transform.position,
        b.children[0].transform.position
    );
    assert_eq!(
        a.children[0].children[0].transform.position,
        b.children[0].children[0].transform.position
    );
    assert_eq!(
        a.children[1].transform.position,
        b.children[1].transform.position
    );
}

#[test]
fn scale_multiplies_every_node_uniformly() {
    let mut t = sample_tree();
    t.children[0].transform.scale = v(3, 1, 1);
    t.scale(fx(2));
    assert_eq!(t.transform.scale, v(2, 2, 2));
    assert_eq!(t.children[0].transform.scale, v(6, 2, 2));
    assert_eq!(t.children[0].children[0].transform.scale, v(2, 2, 2));
    // positions are untouched by scaling
    assert_eq!(t.transform.position, v(1, 2, 3));
}

#[test]
fn scale3d_multiplies_componentwise() {
    let mut t = sample_tree();
    t.scale3D(v(2, 3, 4));
    assert_eq!(t.transform.scale, v(2, 3, 4));
    assert_eq!(t.children[0].transform.scale, v(2, 3, 4));
    t.scale3D(v(2, 1, 1));
    assert_eq!(t.transform.scale, v(4, 3, 4));
}

#[test]
fn local_rotate_turns_in_place_and_orbits_children() {
    // Rotate a parent at the origin by a quarter turn about z: the child
    // at (1,0,0) orbits to roughly (0,1,0); the parent does not move.
    let mut parent = node_at(0, 0, 0);
    parent.children.push(node_at(1, 0, 0));
    parent.local_rotate(Vec3::new(fx(0), fx(0), raw(102944)));
    assert_eq!(parent.transform.position, v(0, 0, 0));
    let c = parent.children[0].transform.position;
    assert!(c.x.raw.abs() <= 700);
    assert!((c.y.raw - 65536).abs() <= 700);
    assert_eq!(c.z.raw, 0);
}

#[test]
fn local_rotate_composes_with_inverse_to_identity() {
    // A single-axis rotation followed by its inverse restores the
    // orientation within tolerance, and descendant positions return.
    let e = Vec3::new(raw(19661), fx(0), fx(0));
    let e_inv = Vec3::new(raw(-19661), fx(0), fx(0));
    let mut lone = node_at(4, 5, 6);
    lone.local_rotate(e);
    lone.local_rotate(e_inv);
    let q = lone.transform.rotation;
    assert!(q.x.raw.abs() <= 200);
    assert!(q.y.raw.abs() <= 200);
    assert!(q.z.raw.abs() <= 200);
    assert!((q.w.raw - 65536).abs() <= 200);

    let mut parent = node_at(0, 0, 0);
    parent.children.push(node_at(0, 3, 0));
    parent.local_rotate(e);
    parent.local_rotate(e_inv);
    let c = parent.children[0].transform.position;
    assert!(c.x.raw.abs() <= 700);
    assert!((c.y.raw - 3 * 65536).abs() <= 700);
    assert!(c.z.raw.abs() <= 700);
}

#[test]
fn global_rotate_turns_about_world_origin() {
    // A quarter turn about z carries a node at (2,0,0) to roughly (0,2,0).
    let mut g = node_at(2, 0, 0);
    g.global_rotate(Vec3::new(fx(0), fx(0), raw(102944)));
    let p = g.transform.position;
    assert!(p.x.raw.abs() <= 1400);
    assert!((p.y.raw - 2 * 65536).abs() <= 1400);
    assert_eq!(p.z.raw, 0);
}

#[test]
fn set_rotation_snaps_children_to_absolute_orientation() {
    // Children end at the same absolute orientation as the parent, and
    // orbit the parent's pivot by the delta the parent turned by.
    let mut parent = node_at(0, 0, 0);
    let mut child = node_at(1, 0, 0);
    // give the child a distinct prior orientation
    child.local_rotate(Vec3::new(raw(30000), fx(0), fx(0)));
    parent.children.push(child);
    let e = Vec3::new(fx(0), fx(0), raw(102944));
    parent.set_rotation(e);
    let pq = parent.transform.rotation;
    let cq = parent.children[0].transform.rotation;
    assert_eq!(pq, cq);
    let c = parent.children[0].transform.position;
    assert!(c.x.raw.abs() <= 700);
    assert!((c.y.raw - 65536).abs() <= 700);
}

#[test]
fn look_at_along_forward_axis_is_identity() {
    let mut g = node_at(0, 0, 0);
    g.look_at(v(0, 0, 5));
    let q = g.transform.rotation;
    assert_eq!(q.x.raw, 0);
    assert_eq!(q.y.raw, 0);
    assert_eq!(q.z.raw, 0);
    assert_eq!(q.w.raw, 65536);
}

#[test]
fn look_at_sideways_yaws_a_quarter_turn() {
    let mut g = node_at(0, 0, 0);
    g.look_at(v(5, 0, 0));
    let q = g.transform.rotation;
    // a quarter turn about y: x and z vanish, y and w near sqrt(1/2)
    assert_eq!(q.x.raw, 0);
    assert_eq!(q.z.raw, 0);
    assert!((q.y.raw - 46341).abs() <= 200);
    assert!((q.w.raw - 46341).abs() <= 200);
}

#[test]
fn look_at_raw_orients_children_not_self() {
    let mut parent = node_at(0, 0, 0);
    parent.children.push(node_at(2, 2, 2));
    let q = parent.look_at_raw(v(5, 0, 0));
    assert_eq!(parent.transform.rotation.w.raw, 65536);
    assert_eq!(parent.children[0].transform.rotation, q);
    // the child does not move: it only turns
    assert_eq!(parent.children[0].transform.position, v(2, 2, 2));
}

#[test]
fn flatten_lists_parent_before_children_depth_first() {
    let t = sample_tree();
    let items = t.flatten();
    assert_eq!(items.len(), 4);
    assert_eq!(items[0].0.position, v(1, 2, 3));
    assert_eq!(items[1].0.position, v(5, 2, 3));
    assert_eq!(items[2].0.position, v(5, 10, 3));
    assert_eq!(items[3].0.position, v(-4, 2, 3));
}

#[test]
fn set_shape_and_color_metadata() {
    let mut g = GameObject::new();
    g.set_shape(ShapeKind::Sphere);
    assert!(matches!(g.shape, ShapeKind::Sphere));
    g.set_color(Vec4::new(fx(2), fx(-3), raw(32768), fx(1)));
    let c = g.get_color();
    assert_eq!(c.x, fx(1));
    assert_eq!(c.y, fx(0));
    assert_eq!(c.z.raw, 32768);
    assert_eq!(c.w, fx(1));
}

#[test]
fn quick_go_defaults_unhandled_shapes_to_cube() {
    assert!(matches!(quickGO(ShapeKind::Sphere).shape, ShapeKind::Sphere));
    assert!(matches!(quickGO(ShapeKind::Cube).shape, ShapeKind::Cube));
    assert!(matches!(quickGO(ShapeKind::Empty).shape, ShapeKind::Empty));
    assert!(matches!(quickGO(ShapeKind::Triangle).shape, ShapeKind::Cube));
    assert!(matches!(quickGO(ShapeKind::Line).shape, ShapeKind::Cube));
}
