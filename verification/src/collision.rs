//! Point-in-volume containment tests.
//!
//! A node's shape tag decides which test applies:
//! - `Sphere`: Euclidean distance from the node's position against the
//!   radius `scale.x` (rotation and the other scale components are ignored
//!   deliberately: spheres are rotation-invariant, and only `scale.x` acts
//!   as the radius).  The comparison is carried out on squared distances,
//!   which is the same closed-boundary test without a square root.
//! - `Cube`: the query point is carried into the cube's local space by the
//!   inverse of the node's transform (undo translation, rotate by the
//!   conjugate, divide by scale componentwise) and tested against the
//!   canonical cube `[-0.5, 0.5]^3`, boundary included.
//! - `Empty`: contains nothing.
//! - The remaining shapes have no containment test; querying them is a
//!   precondition violation, not a silent `false`.

use vstd::prelude::*;
use crate::fixed::{fits, fx_div, fx_mul, Fx};
use crate::game_object::{GameObject, NodeView};
use crate::quat::{q_conjugate, q_rotate, q_rotate_fits, qv_fits};
use crate::shapes::ShapeKind;
use crate::transform::TfV;
use crate::vec3::{v3_dist_sq, v3_dist_sq_fits, v3_sub, v3_sub_fits, Vec3, V3};

verus! {

/// Whether a point lies within the sphere of radius `scale.x` centered at
/// `position`: squared distance at most squared radius, for a non-negative
/// radius (a negative radius is a degenerate volume that contains
/// nothing, matching a distance-versus-radius comparison).
pub open spec fn sphere_contains(t: TfV, p: V3) -> bool {
    t.scale.x >= 0 && v3_dist_sq(p, t.position) <= fx_mul(t.scale.x, t.scale.x)
}

pub open spec fn sphere_test_fits(t: TfV, p: V3) -> bool {
    v3_dist_sq_fits(p, t.position) && fits(fx_mul(t.scale.x, t.scale.x))
}

/// The query point expressed in the cube's local space: translation undone,
/// rotation undone by the conjugate, scale divided back out componentwise.
pub open spec fn cube_local_point(t: TfV, p: V3) -> V3 {
    let d = v3_sub(p, t.position);
    let r = q_rotate(q_conjugate(t.rotation), d);
    V3 { x: fx_div(r.x, t.scale.x), y: fx_div(r.y, t.scale.y), z: fx_div(r.z, t.scale.z) }
}

/// The canonical unit cube `[-0.5, 0.5]^3`, closed on every face.
pub open spec fn in_unit_cube(l: V3) -> bool {
    -32768 <= l.x <= 32768 && -32768 <= l.y <= 32768 && -32768 <= l.z <= 32768
}

pub open spec fn cube_contains(t: TfV, p: V3) -> bool {
    in_unit_cube(cube_local_point(t, p))
}

/// The cube test needs a non-degenerate scale (the caller's
/// responsibility) and representable intermediates.
pub open spec fn cube_test_fits(t: TfV, p: V3) -> bool {
    let d = v3_sub(p, t.position);
    let r = q_rotate(q_conjugate(t.rotation), d);
    &&& t.scale.x != 0 && t.scale.y != 0 && t.scale.z != 0
    &&& v3_sub_fits(p, t.position)
    &&& qv_fits(t.rotation)
    &&& q_rotate_fits(q_conjugate(t.rotation), d)
    &&& fits(fx_div(r.x, t.scale.x)) && fits(fx_div(r.y, t.scale.y)) && fits(
        fx_div(r.z, t.scale.z),
    )
}

/// Which points a node's volume contains.
pub open spec fn spec_collide(n: NodeView, p: V3) -> bool {
    match n.shape {
        ShapeKind::Empty => false,
        ShapeKind::Sphere => sphere_contains(n.transform, p),
        ShapeKind::Cube => cube_contains(n.transform, p),
        _ => false,
    }
}

/// The inputs on which the containment test is defined: shapes with a
/// test, with representable intermediates.  The shapes without a test make
/// this false: calling the query on them is a precondition violation.
pub open spec fn collide_ok(n: NodeView, p: V3) -> bool {
    match n.shape {
        ShapeKind::Empty => true,
        ShapeKind::Sphere => sphere_test_fits(n.transform, p),
        ShapeKind::Cube => cube_test_fits(n.transform, p),
        _ => false,
    }
}

/// Point-in-volume containment.
pub trait Volume {
    /// The inputs the test accepts.
    spec fn collide_allowed(&self, p: Vec3) -> bool;

    /// Which points the volume contains.
    spec fn contains_point(&self, p: Vec3) -> bool;

    /// Whether the world-space point `p` lies inside this volume.
    fn collide(&self, p: Vec3) -> (r: bool)
        requires
            self.collide_allowed(p),
        ensures
            r == self.contains_point(p),
    ;
}

impl Volume for GameObject {
    open spec fn collide_allowed(&self, p: Vec3) -> bool {
        collide_ok(self@, p@)
    }

    open spec fn contains_point(&self, p: Vec3) -> bool {
        spec_collide(self@, p@)
    }

    fn collide(&self, p: Vec3) -> (r: bool) {
        match self.shape {
            ShapeKind::Empty => false,
            ShapeKind::Sphere => {
                let center = self.transform.position;
                let radius = self.transform.scale.x;
                if radius.is_neg() {
                    false
                } else {
                    p.dist_sq(center).le(radius.mul(radius))
                }
            },
            ShapeKind::Cube => {
                let d = p.sub(self.transform.position);
                let r = self.transform.rotation.conjugate().rotate(d);
                let lx = r.x.div(self.transform.scale.x);
                let ly = r.y.div(self.transform.scale.y);
                let lz = r.z.div(self.transform.scale.z);
                let half = Fx { raw: 32768 };
                let neg_half = Fx { raw: -32768 };
                neg_half.le(lx) && lx.le(half) && neg_half.le(ly) && ly.le(half) && neg_half.le(lz)
                    && lz.le(half)
            },
            ShapeKind::Quad | ShapeKind::Circle | ShapeKind::Triangle | ShapeKind::Line => {
                // These shapes have no containment test; the precondition
                // rules them out, so this arm cannot be reached.
                proof {
                    assert(false);
                }
                false
            },
        }
    }
}

/// A point exactly `radius` away from a sphere's center is inside: the
/// boundary comparison is `<=`, not `<`.
pub proof fn lemma_sphere_boundary(t: TfV, p: V3)
    requires
        t.scale.x >= 0,
        v3_dist_sq(p, t.position) == fx_mul(t.scale.x, t.scale.x),
    ensures
        sphere_contains(t, p),
{
}

/// A point exactly on a cube face (local `x` coordinate 0.5) is inside,
/// provided the other local coordinates lie within the slab: every face of
/// the canonical cube is closed.
pub proof fn lemma_cube_face_boundary(t: TfV, p: V3)
    requires
        cube_local_point(t, p).x == 32768,
        -32768 <= cube_local_point(t, p).y <= 32768,
        -32768 <= cube_local_point(t, p).z <= 32768,
    ensures
        cube_contains(t, p),
{
}

/// A node with the `Empty` shape contains no point at all, its own
/// position included.
pub proof fn lemma_empty_never_collides(n: NodeView, p: V3)
    requires
        n.shape == ShapeKind::Empty,
    ensures
        !spec_collide(n, p),
{
}

} // verus!
