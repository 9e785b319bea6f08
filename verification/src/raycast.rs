//! Ray-versus-shape queries over a batch of candidate nodes.
//!
//! `raycast` collects every qualifying hit (identifier, distance, hit
//! point); `closest_raycast` reduces that to the nearest hit, ties broken
//! in favor of the first one encountered.
//!
//! Spheres use the analytic quadratic; the smallest non-negative root is
//! reported, so a ray starting inside a sphere still reports the exit-side
//! hit.  Cubes use the axis-aligned slab method on the world-space bounding
//! box `position -/+ scale/2`, deliberately ignoring rotation (unlike the
//! containment test, which honors it) to keep the batch query cheap.
//! An axis whose direction component is zero constrains nothing
//! when the origin lies between the two slabs of that axis and rules the
//! ray out otherwise, which is the limit behavior of the reciprocal-based
//! formulation.  A direction that constrains no axis at all (all three
//! components zero, including a sphere direction whose squared length
//! rounds to zero) is degenerate and yields no hit.

use vstd::prelude::*;
use crate::fixed::{fits, fx_div, fx_mul, fx_sqrt, Fx};
use crate::game_object::{GameObject, NodeView};
use crate::shapes::ShapeKind;
use crate::vec3::{
    v3_add, v3_add_fits, v3_dot, v3_dot_fits, v3_scale, v3_scale_fits, v3_sub, v3_sub_fits, Vec3,
    V3,
};

verus! {

/// A reported hit, at the spec level: name, distance, world hit point.
pub type HitView = (Seq<char>, int, V3);

/// The ray-sphere quadratic, rounding as the executable code does.
/// `None` when the discriminant is negative, when both roots are negative
/// (the sphere lies behind the ray), or when the direction is degenerate.
pub open spec fn spec_ray_sphere(o: V3, d: V3, c: V3, r: int) -> Option<int> {
    let oc = v3_sub(o, c);
    let a = v3_dot(d, d);
    let b = v3_dot(oc, d) + v3_dot(oc, d);
    let cc = v3_dot(oc, oc) - fx_mul(r, r);
    let disc = fx_mul(b, b) - fx_mul(262144, fx_mul(a, cc));
    if disc < 0 || a == 0 {
        None
    } else {
        let s = fx_sqrt(disc);
        let t1 = fx_div(-b - s, a + a);
        let t2 = fx_div(-b + s, a + a);
        if t1 >= 0 {
            Some(t1)
        } else if t2 >= 0 {
            Some(t2)
        } else {
            None
        }
    }
}

/// The intermediates of the ray-sphere test, in the order the executable
/// code forms them.
pub open spec fn ray_sphere_fits(o: V3, d: V3, c: V3, r: int) -> bool {
    let oc = v3_sub(o, c);
    let a = v3_dot(d, d);
    let b = v3_dot(oc, d) + v3_dot(oc, d);
    let cc = v3_dot(oc, oc) - fx_mul(r, r);
    let disc = fx_mul(b, b) - fx_mul(262144, fx_mul(a, cc));
    &&& v3_sub_fits(o, c)
    &&& v3_dot_fits(d, d)
    &&& v3_dot_fits(oc, d) && fits(b)
    &&& v3_dot_fits(oc, oc) && fits(fx_mul(r, r)) && fits(cc)
    &&& fits(fx_mul(b, b)) && fits(fx_mul(a, cc)) && fits(fx_mul(262144, fx_mul(a, cc))) && fits(
        disc,
    )
    &&& (disc >= 0 && a != 0 ==> {
        let s = fx_sqrt(disc);
        &&& fits(-b - s) && fits(-b + s) && fits(a + a)
        &&& fits(fx_div(-b - s, a + a)) && fits(fx_div(-b + s, a + a))
    })
}

/// Larger of two optional bounds (`None` is no bound).
pub open spec fn omax(a: Option<int>, b: Option<int>) -> Option<int> {
    match a {
        Option::None => b,
        Option::Some(x) => match b {
            Option::None => a,
            Option::Some(y) => if x >= y {
                a
            } else {
                b
            },
        },
    }
}

/// Smaller of two optional bounds (`None` is no bound).
pub open spec fn omin(a: Option<int>, b: Option<int>) -> Option<int> {
    match a {
        Option::None => b,
        Option::Some(x) => match b {
            Option::None => a,
            Option::Some(y) => if x <= y {
                a
            } else {
                b
            },
        },
    }
}

/// Entry bound of one slab axis: `None` when the axis constrains nothing.
pub open spec fn slab_lo(o: int, d: int, mn: int, mx: int) -> Option<int> {
    if d == 0 {
        None
    } else {
        let t1 = fx_div(mn - o, d);
        let t2 = fx_div(mx - o, d);
        if t1 <= t2 {
            Some(t1)
        } else {
            Some(t2)
        }
    }
}

/// Exit bound of one slab axis: `None` when the axis constrains nothing.
pub open spec fn slab_hi(o: int, d: int, mn: int, mx: int) -> Option<int> {
    if d == 0 {
        None
    } else {
        let t1 = fx_div(mn - o, d);
        let t2 = fx_div(mx - o, d);
        if t1 >= t2 {
            Some(t1)
        } else {
            Some(t2)
        }
    }
}

/// Whether a zero-direction axis already rules the ray out: the origin
/// lies outside that axis' slab and can never enter it.
pub open spec fn parallel_miss(o: V3, d: V3, mn: V3, mx: V3) -> bool {
    ||| (d.x == 0 && (o.x < mn.x || o.x > mx.x))
    ||| (d.y == 0 && (o.y < mn.y || o.y > mx.y))
    ||| (d.z == 0 && (o.z < mn.z || o.z > mx.z))
}

/// The slab method against the axis-aligned box `[mn, mx]`, rounding as
/// the executable code does.  Reports the entry distance `t_near`; a hit
/// needs `t_near <= t_far` and `t_far >= 0`.
pub open spec fn spec_ray_cube(o: V3, d: V3, mn: V3, mx: V3) -> Option<int> {
    if parallel_miss(o, d, mn, mx) {
        None
    } else {
        let near = omax(
            omax(slab_lo(o.x, d.x, mn.x, mx.x), slab_lo(o.y, d.y, mn.y, mx.y)),
            slab_lo(o.z, d.z, mn.z, mx.z),
        );
        let far = omin(
            omin(slab_hi(o.x, d.x, mn.x, mx.x), slab_hi(o.y, d.y, mn.y, mx.y)),
            slab_hi(o.z, d.z, mn.z, mx.z),
        );
        match near {
            Option::Some(n) => match far {
                Option::Some(f) => if n <= f && f >= 0 {
                    Some(n)
                } else {
                    None
                },
                Option::None => None,
            },
            Option::None => None,
        }
    }
}

/// The intermediates of one slab axis, when its direction component is
/// non-zero.
pub open spec fn slab_axis_fits(o: int, d: int, mn: int, mx: int) -> bool {
    d != 0 ==> fits(mn - o) && fits(mx - o) && fits(fx_div(mn - o, d)) && fits(fx_div(mx - o, d))
}

pub open spec fn ray_cube_fits(o: V3, d: V3, mn: V3, mx: V3) -> bool {
    &&& slab_axis_fits(o.x, d.x, mn.x, mx.x)
    &&& slab_axis_fits(o.y, d.y, mn.y, mx.y)
    &&& slab_axis_fits(o.z, d.z, mn.z, mx.z)
}

/// Ray-sphere intersection: the smallest non-negative root of the
/// quadratic, if any.
pub fn ray_sphere_intersection(ray_origin: Vec3, ray_direction: Vec3, sphere_center: Vec3,
    sphere_radius: Fx) -> (res: Option<Fx>)
    requires
        ray_sphere_fits(ray_origin@, ray_direction@, sphere_center@, sphere_radius@),
    ensures
        res matches Some(t) ==> spec_ray_sphere(
            ray_origin@,
            ray_direction@,
            sphere_center@,
            sphere_radius@,
        ) == Some(t@),
        res is None ==> spec_ray_sphere(
            ray_origin@,
            ray_direction@,
            sphere_center@,
            sphere_radius@,
        ) is None,
{
    let oc = ray_origin.sub(sphere_center);
    let a = ray_direction.dot(ray_direction);
    let half_b = oc.dot(ray_direction);
    let b = half_b.add(half_b);
    let c = oc.dot(oc).sub(sphere_radius.mul(sphere_radius));
    let four = Fx { raw: 262144 };
    let discriminant = b.mul(b).sub(four.mul(a.mul(c)));
    if discriminant.is_neg() || a.raw == 0 {
        None
    } else {
        let s = discriminant.sqrt();
        let two_a = a.add(a);
        let t1 = b.neg().sub(s).div(two_a);
        let t2 = b.neg().add(s).div(two_a);
        if !t1.is_neg() {
            Some(t1)
        } else if !t2.is_neg() {
            Some(t2)
        } else {
            None
        }
    }
}

/// Ray versus axis-aligned box via the slab method.
#[verifier::rlimit(80)]
pub fn ray_cube_intersection(ray_origin: Vec3, ray_direction: Vec3, cube_min: Vec3, cube_max: Vec3)
    -> (res: Option<Fx>)
    requires
        ray_cube_fits(ray_origin@, ray_direction@, cube_min@, cube_max@),
    ensures
        res matches Some(t) ==> spec_ray_cube(ray_origin@, ray_direction@, cube_min@, cube_max@)
            == Some(t@),
        res is None ==> spec_ray_cube(ray_origin@, ray_direction@, cube_min@, cube_max@) is None,
{
    if ray_direction.x.raw == 0 && (ray_origin.x.lt(cube_min.x) || cube_max.x.lt(ray_origin.x)) {
        return None;
    }
    if ray_direction.y.raw == 0 && (ray_origin.y.lt(cube_min.y) || cube_max.y.lt(ray_origin.y)) {
        return None;
    }
    if ray_direction.z.raw == 0 && (ray_origin.z.lt(cube_min.z) || cube_max.z.lt(ray_origin.z)) {
        return None;
    }
    let mut near: Option<Fx> = None;
    let mut far: Option<Fx> = None;
    if ray_direction.x.raw != 0 {
        let t1 = cube_min.x.sub(ray_origin.x).div(ray_direction.x);
        let t2 = cube_max.x.sub(ray_origin.x).div(ray_direction.x);
        near = Some(t1.min(t2));
        far = Some(t1.max(t2));
    }
    if ray_direction.y.raw != 0 {
        let t1 = cube_min.y.sub(ray_origin.y).div(ray_direction.y);
        let t2 = cube_max.y.sub(ray_origin.y).div(ray_direction.y);
        near = match near {
            Some(n) => Some(n.max(t1.min(t2))),
            None => Some(t1.min(t2)),
        };
        far = match far {
            Some(f) => Some(f.min(t1.max(t2))),
            None => Some(t1.max(t2)),
        };
    }
    if ray_direction.z.raw != 0 {
        let t1 = cube_min.z.sub(ray_origin.z).div(ray_direction.z);
        let t2 = cube_max.z.sub(ray_origin.z).div(ray_direction.z);
        near = match near {
            Some(n) => Some(n.max(t1.min(t2))),
            None => Some(t1.min(t2)),
        };
        far = match far {
            Some(f) => Some(f.min(t1.max(t2))),
            None => Some(t1.max(t2)),
        };
    }
    match near {
        Some(n) => match far {
            Some(f) => if n.le(f) && !f.is_neg() {
                Some(n)
            } else {
                None
            },
            None => None,
        },
        None => None,
    }
}

/// Distance at which the ray meets a candidate node, by its shape: spheres
/// by the quadratic (radius `scale.x`), cubes by the slab method on the box
/// `position -/+ scale/2`; other shapes are never hit.
pub open spec fn spec_hit_distance(n: NodeView, o: V3, d: V3) -> Option<int> {
    match n.shape {
        ShapeKind::Sphere => spec_ray_sphere(o, d, n.transform.position, n.transform.scale.x),
        ShapeKind::Cube => {
            let half = v3_scale(n.transform.scale, 32768);
            spec_ray_cube(
                o,
                d,
                v3_sub(n.transform.position, half),
                v3_add(n.transform.position, half),
            )
        },
        _ => None,
    }
}

/// Whether a node is reported by the query: its shape is hit within
/// `maxd`.
pub open spec fn ray_qualifies(n: NodeView, o: V3, d: V3, maxd: int) -> bool {
    match spec_hit_distance(n, o, d) {
        Option::Some(t) => t <= maxd,
        Option::None => false,
    }
}

/// The hit record for a qualifying node: name, distance, world hit point.
pub open spec fn spec_hit(n: NodeView, o: V3, d: V3) -> HitView {
    match spec_hit_distance(n, o, d) {
        Option::Some(t) => (n.name, t, v3_add(o, v3_scale(d, t))),
        Option::None => (n.name, 0, o),
    }
}

/// The intermediates the query forms for one candidate node.
pub open spec fn object_ray_fits(n: NodeView, o: V3, d: V3, maxd: int) -> bool {
    let emit = (ray_qualifies(n, o, d, maxd) ==> {
        match spec_hit_distance(n, o, d) {
            Option::Some(t) => v3_scale_fits(d, t) && v3_add_fits(o, v3_scale(d, t)),
            Option::None => true,
        }
    });
    match n.shape {
        ShapeKind::Sphere => ray_sphere_fits(o, d, n.transform.position, n.transform.scale.x)
            && emit,
        ShapeKind::Cube => {
            let half = v3_scale(n.transform.scale, 32768);
            &&& v3_scale_fits(n.transform.scale, 32768)
            &&& v3_sub_fits(n.transform.position, half)
            &&& v3_add_fits(n.transform.position, half)
            &&& ray_cube_fits(
                o,
                d,
                v3_sub(n.transform.position, half),
                v3_add(n.transform.position, half),
            )
            &&& emit
        },
        _ => true,
    }
}

/// The hits the query reports, in candidate order.
pub open spec fn spec_raycast(objs: Seq<NodeView>, o: V3, d: V3, maxd: int) -> Seq<HitView>
    decreases objs.len(),
{
    if objs.len() == 0 {
        Seq::empty()
    } else {
        let rest = spec_raycast(objs.drop_last(), o, d, maxd);
        if ray_qualifies(objs.last(), o, d, maxd) {
            rest.push(spec_hit(objs.last(), o, d))
        } else {
            rest
        }
    }
}

/// Views of a sequence of hit records.
pub open spec fn hit_views(s: Seq<(String, Fx, Vec3)>) -> Seq<HitView> {
    Seq::new(s.len(), |i: int| s[i]@)
}

/// Views of a sequence of candidate nodes.
pub open spec fn object_views(s: Seq<&GameObject>) -> Seq<NodeView> {
    Seq::new(s.len(), |i: int| s[i]@)
}

/// Every candidate whose shape the ray meets within `max_distance`, as
/// `(name, distance, hit point)`, in candidate order.
#[verifier::loop_isolation(false)]
pub fn raycast(origin: Vec3, direction: Vec3, max_distance: Fx, objects: Vec<&GameObject>) -> (res:
    Vec<(String, Fx, Vec3)>)
    requires
        forall|i: int|
            0 <= i < objects@.len() ==> object_ray_fits(
                #[trigger] objects@[i]@,
                origin@,
                direction@,
                max_distance@,
            ),
    ensures
        hit_views(res@) == spec_raycast(object_views(objects@), origin@, direction@, max_distance@),
{
    let ghost ovs = object_views(objects@);
    let mut collisions: Vec<(String, Fx, Vec3)> = Vec::new();
    let n: usize = objects.len();
    let mut i: usize = 0;
    proof {
        assert(hit_views(collisions@) =~= spec_raycast(
            ovs.subrange(0, 0),
            origin@,
            direction@,
            max_distance@,
        ));
    }
    while i < n
        invariant
            i <= n,
            n == objects@.len(),
            hit_views(collisions@) == spec_raycast(
                ovs.subrange(0, i as int),
                origin@,
                direction@,
                max_distance@,
            ),
        decreases n - i,
    {
        let object = objects[i];
        proof {
            assert(object_ray_fits(objects@[i as int]@, origin@, direction@, max_distance@));
            assert(object@ == objects@[i as int]@);
        }
        let ghost pre = collisions@;
        match object.shape {
            ShapeKind::Sphere => {
                if let Some(distance) = ray_sphere_intersection(
                    origin,
                    direction,
                    object.transform.position,
                    object.transform.scale.x,
                ) {
                    if distance.le(max_distance) {
                        let hit_point = origin.add(direction.scale(distance));
                        collisions.push((object.name.clone(), distance, hit_point));
                    }
                }
            },
            ShapeKind::Cube => {
                let half = Fx { raw: 32768 };
                let half_scale = object.transform.scale.scale(half);
                let cube_min = object.transform.position.sub(half_scale);
                let cube_max = object.transform.position.add(half_scale);
                if let Some(distance) = ray_cube_intersection(
                    origin,
                    direction,
                    cube_min,
                    cube_max,
                ) {
                    if distance.le(max_distance) {
                        let hit_point = origin.add(direction.scale(distance));
                        collisions.push((object.name.clone(), distance, hit_point));
                    }
                }
            },
            _ => {},
        }
        proof {
            assert(ovs.subrange(0, i + 1 as int).drop_last() =~= ovs.subrange(0, i as int));
            assert(ovs.subrange(0, i + 1 as int).last() == object@);
            if ray_qualifies(object@, origin@, direction@, max_distance@) {
                assert(hit_views(collisions@) =~= hit_views(pre).push(
                    spec_hit(object@, origin@, direction@),
                ));
            }
            assert(hit_views(collisions@) =~= spec_raycast(
                ovs.subrange(0, i + 1 as int),
                origin@,
                direction@,
                max_distance@,
            ));
        }
        i = i + 1;
    }
    proof {
        assert(ovs.subrange(0, n as int) =~= ovs);
    }
    collisions
}

/// The nearest of a sequence of hits, ties broken in favor of the first
/// one encountered (strict comparison while folding left).
pub open spec fn spec_closest(s: Seq<HitView>) -> Option<HitView>
    decreases s.len(),
{
    if s.len() == 0 {
        None
    } else {
        let prev = spec_closest(s.drop_last());
        match prev {
            Option::None => Some(s.last()),
            Option::Some(p) => if p.1 > s.last().1 {
                Some(s.last())
            } else {
                prev
            },
        }
    }
}

/// The single nearest qualifying hit, or `None` when nothing qualifies.
#[verifier::loop_isolation(false)]
pub fn closest_raycast(origin: Vec3, direction: Vec3, max_distance: Fx, objects: Vec<
    &GameObject,
>) -> (res: Option<(String, Fx, Vec3)>)
    requires
        forall|i: int|
            0 <= i < objects@.len() ==> object_ray_fits(
                #[trigger] objects@[i]@,
                origin@,
                direction@,
                max_distance@,
            ),
    ensures
        res matches Some(h) ==> spec_closest(
            spec_raycast(object_views(objects@), origin@, direction@, max_distance@),
        ) == Some(h@),
        res is None ==> spec_closest(
            spec_raycast(object_views(objects@), origin@, direction@, max_distance@),
        ) is None,
{
    let hits = raycast(origin, direction, max_distance, objects);
    let ghost hvs = hit_views(hits@);
    let mut best: Option<usize> = None;
    let n: usize = hits.len();
    let mut i: usize = 0;
    proof {
        assert(hvs.subrange(0, 0) =~= Seq::<HitView>::empty());
    }
    while i < n
        invariant
            i <= n,
            n == hits@.len(),
            match best {
                Option::Some(b) => b < i && spec_closest(hvs.subrange(0, i as int)) == Some(
                    hits@[b as int]@,
                ),
                Option::None => i == 0,
            },
        decreases n - i,
    {
        proof {
            assert(hvs.subrange(0, i + 1 as int).drop_last() =~= hvs.subrange(0, i as int));
            assert(hvs.subrange(0, i + 1 as int).last() == hits@[i as int]@);
        }
        match best {
            None => {
                best = Some(i);
            },
            Some(b) => {
                if hits[i].1.lt(hits[b].1) {
                    best = Some(i);
                }
            },
        }
        i = i + 1;
    }
    proof {
        assert(hvs.subrange(0, n as int) =~= hvs);
    }
    match best {
        None => {
            proof {
                assert(hvs =~= Seq::<HitView>::empty());
            }
            None
        },
        Some(b) => {
            let h = &hits[b];
            let out = (h.0.clone(), h.1, h.2);
            proof {
                assert(out@ == hits@[b as int]@);
            }
            Some(out)
        },
    }
}

/// A ray that qualifies against no candidate yields an empty `raycast`
/// result, and hence a `closest_raycast` of "no hit".
pub proof fn lemma_no_hit_empty(objs: Seq<NodeView>, o: V3, d: V3, maxd: int)
    requires
        forall|i: int| 0 <= i < objs.len() ==> !ray_qualifies(#[trigger] objs[i], o, d, maxd),
    ensures
        spec_raycast(objs, o, d, maxd) == Seq::<HitView>::empty(),
        spec_closest(spec_raycast(objs, o, d, maxd)) is None,
    decreases objs.len(),
{
    if objs.len() > 0 {
        lemma_no_hit_empty(objs.drop_last(), o, d, maxd);
    }
    assert(spec_raycast(objs, o, d, maxd) =~= Seq::<HitView>::empty());
}

/// `c` sits at index `i` of `s`, and everything before it is strictly
/// farther.
pub open spec fn first_min_at(s: Seq<HitView>, i: int, c: HitView) -> bool {
    &&& 0 <= i < s.len()
    &&& s[i] == c
    &&& (forall|j: int| 0 <= j < i ==> (#[trigger] s[j]).1 > c.1)
}

/// The closest-hit reduction selects a minimum-distance hit, and among
/// equally near hits the first one encountered; it reports "no hit"
/// exactly on an empty hit sequence.
pub proof fn lemma_closest_selects_minimum(s: Seq<HitView>)
    ensures
        s.len() == 0 <==> spec_closest(s) is None,
        spec_closest(s) matches Some(c) ==> exists|i: int| first_min_at(s, i, c),
        spec_closest(s) matches Some(c) ==> forall|j: int|
            0 <= j < s.len() ==> (#[trigger] s[j]).1 >= c.1,
    decreases s.len(),
{
    if s.len() > 0 {
        let rest = s.drop_last();
        lemma_closest_selects_minimum(rest);
        assert(forall|j: int| 0 <= j < rest.len() ==> rest[j] == #[trigger] s[j]);
        match spec_closest(rest) {
            Option::None => {
                assert(first_min_at(s, s.len() - 1, s.last()));
            },
            Option::Some(p) => {
                if p.1 > s.last().1 {
                    assert(first_min_at(s, s.len() - 1, s.last()));
                } else {
                    let ip = choose|i: int| first_min_at(rest, i, p);
                    assert(first_min_at(s, ip, p));
                }
            },
        }
        match spec_closest(s) {
            Option::Some(c) => {
                assert(exists|i: int| first_min_at(s, i, c));
            },
            Option::None => {},
        }
    }
}

} // verus!
