//! The scene tree: nodes with world-space transforms, and the edit
//! operations that propagate through a subtree.
//!
//! Every node stores its own *world-space* transform, so each edit must walk
//! the subtree and re-derive descendant transforms; the contracts state the
//! resulting tree exactly, as a recursive function of the tree before the
//! edit.

use vstd::prelude::*;
use crate::fixed::Fx;
use crate::quat::{
    from_basis_fits, q_conjugate, q_from_basis, q_from_euler, q_mul, q_mul_fits, q_rotate,
    q_rotate_fits, qv_fits, Quaternion, QV,
};
use crate::shapes::ShapeKind;
use crate::transform::{tf_default, TfV, Transform};
use crate::vec3::{
    v3_add, v3_add_fits, v3_cmul, v3_cmul_fits, v3_cross, v3_cross_fits, v3_fits_all,
    v3_normalize, v3_normalize_fits, v3_scale, v3_scale_fits, v3_sub, v3_sub_fits, v4_clamp_unit,
    Vec3, Vec4, V3, V4,
};

verus! {

/// A node of the scene tree.
///
/// `transform` is world-space, not parent-relative.  `children` owns the
/// subtree; a node appears under at most one parent.  `color`, `name` and
/// `tag` are presentation and identification metadata that the spatial
/// algorithms never read (`name` labels raycast hits).
pub struct GameObject {
    pub transform: Transform,
    pub shape: ShapeKind,
    pub color: Vec4,
    pub name: String,
    pub tag: String,
    pub children: Vec<GameObject>,
}

/// Mathematical view of a node: the same shape of data with every field
/// replaced by its view, children included.
#[verifier::ext_equal]
pub ghost struct NodeView {
    pub transform: TfV,
    pub shape: ShapeKind,
    pub color: V4,
    pub name: Seq<char>,
    pub tag: Seq<char>,
    pub children: Seq<NodeView>,
}

/// The view of a node, defined recursively over its children.
pub open spec fn node_view(g: GameObject) -> NodeView
    decreases g,
{
    NodeView {
        transform: g.transform@,
        shape: g.shape,
        color: g.color@,
        name: g.name@,
        tag: g.tag@,
        children: Seq::new(
            g.children@.len(),
            |i: int|
                if 0 <= i < g.children@.len() {
                    node_view(g.children@[i])
                } else {
                    vstd::pervasive::arbitrary()
                },
        ),
    }
}

impl View for GameObject {
    type V = NodeView;

    open spec fn view(&self) -> NodeView {
        node_view(*self)
    }
}

/// Number of nodes in a subtree; the measure that recursive edits
/// decrease.
pub open spec fn size(n: NodeView) -> nat
    decreases n, 0int,
{
    1 + size_children(n.children, 0)
}

/// Number of nodes in the subtrees rooted at `s[i..]`.
pub open spec fn size_children(s: Seq<NodeView>, i: int) -> nat
    decreases s, s.len() - i,
{
    if i < 0 || i >= s.len() {
        0
    } else {
        size(s[i]) + size_children(s, i + 1)
    }
}

proof fn lemma_size_children_ge(s: Seq<NodeView>, i: int, k: int)
    requires
        0 <= i <= k < s.len(),
    ensures
        size_children(s, i) >= size(s[k]),
    decreases k - i,
{
    if i < k {
        lemma_size_children_ge(s, i + 1, k);
    }
}

/// A child subtree is strictly smaller than its parent.
pub proof fn lemma_child_smaller(n: NodeView, k: int)
    requires
        0 <= k < n.children.len(),
    ensures
        size(n.children[k]) < size(n),
{
    lemma_size_children_ge(n.children, 0, k);
}

/// The tree after `translate`: the whole subtree shifted rigidly by `d`.
pub open spec fn spec_translate(n: NodeView, d: V3) -> NodeView
    decreases n,
{
    NodeView {
        transform: TfV {
            position: v3_add(n.transform.position, d),
            rotation: n.transform.rotation,
            scale: n.transform.scale,
        },
        shape: n.shape,
        color: n.color,
        name: n.name,
        tag: n.tag,
        children: Seq::new(
            n.children.len(),
            |i: int|
                if 0 <= i < n.children.len() {
                    spec_translate(n.children[i], d)
                } else {
                    vstd::pervasive::arbitrary()
                },
        ),
    }
}

/// Every position shifted by `d` throughout the subtree stays
/// representable.
pub open spec fn translate_fits(n: NodeView, d: V3) -> bool
    decreases n,
{
    &&& v3_add_fits(n.transform.position, d)
    &&& (forall|i: int|
        0 <= i < n.children.len() ==> translate_fits(#[trigger] n.children[i], d))
}

/// The tree after `set_position`: the edited node lands exactly on `p`,
/// and every descendant moves by the delta the edited node moved by.
pub open spec fn spec_set_position(n: NodeView, p: V3) -> NodeView {
    let d = v3_sub(p, n.transform.position);
    NodeView {
        transform: TfV { position: p, rotation: n.transform.rotation, scale: n.transform.scale },
        shape: n.shape,
        color: n.color,
        name: n.name,
        tag: n.tag,
        children: Seq::new(
            n.children.len(),
            |i: int|
                if 0 <= i < n.children.len() {
                    spec_translate(n.children[i], d)
                } else {
                    vstd::pervasive::arbitrary()
                },
        ),
    }
}

pub open spec fn set_position_fits(n: NodeView, p: V3) -> bool {
    &&& v3_sub_fits(p, n.transform.position)
    &&& (forall|i: int|
        0 <= i < n.children.len() ==> translate_fits(
            #[trigger] n.children[i],
            v3_sub(p, n.transform.position),
        ))
}

/// The tree after a uniform `scale`: every node's scale multiplied by the
/// same factor.
pub open spec fn spec_scale(n: NodeView, s: int) -> NodeView
    decreases n,
{
    NodeView {
        transform: TfV {
            position: n.transform.position,
            rotation: n.transform.rotation,
            scale: v3_scale(n.transform.scale, s),
        },
        shape: n.shape,
        color: n.color,
        name: n.name,
        tag: n.tag,
        children: Seq::new(
            n.children.len(),
            |i: int|
                if 0 <= i < n.children.len() {
                    spec_scale(n.children[i], s)
                } else {
                    vstd::pervasive::arbitrary()
                },
        ),
    }
}

pub open spec fn scale_fits(n: NodeView, s: int) -> bool
    decreases n,
{
    &&& v3_scale_fits(n.transform.scale, s)
    &&& (forall|i: int| 0 <= i < n.children.len() ==> scale_fits(#[trigger] n.children[i], s))
}

/// The tree after `scale3D`: every node's scale multiplied componentwise
/// by the same vector.
pub open spec fn spec_scale3(n: NodeView, s: V3) -> NodeView
    decreases n,
{
    NodeView {
        transform: TfV {
            position: n.transform.position,
            rotation: n.transform.rotation,
            scale: v3_cmul(n.transform.scale, s),
        },
        shape: n.shape,
        color: n.color,
        name: n.name,
        tag: n.tag,
        children: Seq::new(
            n.children.len(),
            |i: int|
                if 0 <= i < n.children.len() {
                    spec_scale3(n.children[i], s)
                } else {
                    vstd::pervasive::arbitrary()
                },
        ),
    }
}

pub open spec fn scale3_fits(n: NodeView, s: V3) -> bool
    decreases n,
{
    &&& v3_cmul_fits(n.transform.scale, s)
    &&& (forall|i: int| 0 <= i < n.children.len() ==> scale3_fits(#[trigger] n.children[i], s))
}

/// The tree after setting an absolute target orientation: every node of
/// the subtree snaps to the same absolute orientation, and each child
/// orbits its parent's pivot by the delta rotation the parent just made.
pub open spec fn spec_set_rotation_quat(n: NodeView, target: QV) -> NodeView
    decreases n,
{
    let delta = q_mul(target, q_conjugate(n.transform.rotation));
    NodeView {
        transform: TfV {
            position: n.transform.position,
            rotation: target,
            scale: n.transform.scale,
        },
        shape: n.shape,
        color: n.color,
        name: n.name,
        tag: n.tag,
        children: Seq::new(
            n.children.len(),
            |i: int|
                if 0 <= i < n.children.len() {
                    let c = spec_set_rotation_quat(n.children[i], target);
                    NodeView {
                        transform: TfV {
                            position: v3_add(
                                n.transform.position,
                                q_rotate(
                                    delta,
                                    v3_sub(
                                        n.children[i].transform.position,
                                        n.transform.position,
                                    ),
                                ),
                            ),
                            rotation: c.transform.rotation,
                            scale: c.transform.scale,
                        },
                        shape: c.shape,
                        color: c.color,
                        name: c.name,
                        tag: c.tag,
                        children: c.children,
                    }
                } else {
                    vstd::pervasive::arbitrary()
                },
        ),
    }
}

pub open spec fn set_rotation_quat_fits(n: NodeView, target: QV) -> bool
    decreases n,
{
    let delta = q_mul(target, q_conjugate(n.transform.rotation));
    &&& qv_fits(n.transform.rotation)
    &&& q_mul_fits(target, q_conjugate(n.transform.rotation))
    &&& (forall|i: int|
        0 <= i < n.children.len() ==> {
            let cpos = (#[trigger] n.children[i]).transform.position;
            &&& v3_sub_fits(cpos, n.transform.position)
            &&& q_rotate_fits(delta, v3_sub(cpos, n.transform.position))
            &&& v3_add_fits(
                n.transform.position,
                q_rotate(delta, v3_sub(cpos, n.transform.position)),
            )
            &&& set_rotation_quat_fits(n.children[i], target)
        })
}

/// The tree after `local_rotate`: the node's own orientation turns by the
/// Euler increment, and each child subtree orbits rigidly about the node's
/// position while every descendant's facing turns by the same increment.
pub open spec fn spec_local_rotate(n: NodeView, e: V3) -> NodeView
    decreases n,
{
    let q = q_from_euler(e);
    NodeView {
        transform: TfV {
            position: n.transform.position,
            rotation: q_mul(n.transform.rotation, q),
            scale: n.transform.scale,
        },
        shape: n.shape,
        color: n.color,
        name: n.name,
        tag: n.tag,
        children: Seq::new(
            n.children.len(),
            |i: int|
                if 0 <= i < n.children.len() {
                    let child = n.children[i];
                    let newp = v3_add(
                        n.transform.position,
                        q_rotate(q, v3_sub(child.transform.position, n.transform.position)),
                    );
                    spec_set_position(spec_local_rotate(child, e), newp)
                } else {
                    vstd::pervasive::arbitrary()
                },
        ),
    }
}

pub open spec fn local_rotate_fits(n: NodeView, e: V3) -> bool
    decreases n,
{
    let q = q_from_euler(e);
    &&& v3_fits_all(e)
    &&& q_mul_fits(n.transform.rotation, q)
    &&& (forall|i: int|
        0 <= i < n.children.len() ==> {
            let child = #[trigger] n.children[i];
            let diff = v3_sub(child.transform.position, n.transform.position);
            let newp = v3_add(n.transform.position, q_rotate(q, diff));
            &&& v3_sub_fits(child.transform.position, n.transform.position)
            &&& q_rotate_fits(q, diff)
            &&& v3_add_fits(n.transform.position, q_rotate(q, diff))
            &&& local_rotate_fits(child, e)
            &&& set_position_fits(spec_local_rotate(child, e), newp)
        })
}

/// The tree after `global_rotate`: like `local_rotate`, but the node's own
/// position also rotates about the world origin first, and children orbit
/// the node's updated position.
pub open spec fn spec_global_rotate(n: NodeView, e: V3) -> NodeView
    decreases n,
{
    let q = q_from_euler(e);
    let newpos = q_rotate(q, n.transform.position);
    NodeView {
        transform: TfV {
            position: newpos,
            rotation: q_mul(q, n.transform.rotation),
            scale: n.transform.scale,
        },
        shape: n.shape,
        color: n.color,
        name: n.name,
        tag: n.tag,
        children: Seq::new(
            n.children.len(),
            |i: int|
                if 0 <= i < n.children.len() {
                    let child = n.children[i];
                    let newp = v3_add(
                        newpos,
                        q_rotate(q, v3_sub(child.transform.position, newpos)),
                    );
                    spec_set_position(spec_global_rotate(child, e), newp)
                } else {
                    vstd::pervasive::arbitrary()
                },
        ),
    }
}

pub open spec fn global_rotate_fits(n: NodeView, e: V3) -> bool
    decreases n,
{
    let q = q_from_euler(e);
    let newpos = q_rotate(q, n.transform.position);
    &&& v3_fits_all(e)
    &&& q_rotate_fits(q, n.transform.position)
    &&& q_mul_fits(q, n.transform.rotation)
    &&& (forall|i: int|
        0 <= i < n.children.len() ==> {
            let child = #[trigger] n.children[i];
            let diff = v3_sub(child.transform.position, newpos);
            let newp = v3_add(newpos, q_rotate(q, diff));
            &&& v3_sub_fits(child.transform.position, newpos)
            &&& q_rotate_fits(q, diff)
            &&& v3_add_fits(newpos, q_rotate(q, diff))
            &&& global_rotate_fits(child, e)
            &&& set_position_fits(spec_global_rotate(child, e), newp)
        })
}

impl GameObject {
    /// A fresh standalone node: default transform, `Empty` shape, white
    /// color, empty name and tag, no children.
    pub fn new() -> (r: GameObject)
        ensures
            r@ == (NodeView {
                transform: tf_default(),
                shape: ShapeKind::Empty,
                color: (V4 { x: 65536, y: 65536, z: 65536, w: 65536 }),
                name: Seq::<char>::empty(),
                tag: Seq::<char>::empty(),
                children: Seq::<NodeView>::empty(),
            }),
    {
        let r = GameObject {
            transform: Transform::new(),
            shape: ShapeKind::Empty,
            color: Vec4::one(),
            name: String::new(),
            tag: String::new(),
            children: Vec::new(),
        };
        proof {
            assert(r@.children =~= Seq::<NodeView>::empty());
            assert(r@ =~= (NodeView {
                transform: tf_default(),
                shape: ShapeKind::Empty,
                color: (V4 { x: 65536, y: 65536, z: 65536, w: 65536 }),
                name: Seq::<char>::empty(),
                tag: Seq::<char>::empty(),
                children: Seq::<NodeView>::empty(),
            }));
        }
        r
    }

    /// Replace this node's shape tag.  The tag and the transform are
    /// independent: changing the shape neither rescales nor repositions
    /// anything.
    pub fn set_shape(&mut self, new_shape: ShapeKind)
        ensures
            final(self)@ == (NodeView {
                transform: old(self)@.transform,
                shape: new_shape,
                color: old(self)@.color,
                name: old(self)@.name,
                tag: old(self)@.tag,
                children: old(self)@.children,
            }),
    {
        self.shape = new_shape;
        proof {
            assert(self@ =~= (NodeView {
                transform: old(self)@.transform,
                shape: new_shape,
                color: old(self)@.color,
                name: old(self)@.name,
                tag: old(self)@.tag,
                children: old(self)@.children,
            }));
        }
    }

    /// Set this node's color, clamped channelwise into `[0, 1]`.
    pub fn set_color(&mut self, color: Vec4)
        ensures
            final(self)@ == (NodeView {
                transform: old(self)@.transform,
                shape: old(self)@.shape,
                color: v4_clamp_unit(color@),
                name: old(self)@.name,
                tag: old(self)@.tag,
                children: old(self)@.children,
            }),
    {
        let fixed_color = color.clamp_unit();
        self.color = fixed_color;
        proof {
            assert(self@ =~= (NodeView {
                transform: old(self)@.transform,
                shape: old(self)@.shape,
                color: v4_clamp_unit(color@),
                name: old(self)@.name,
                tag: old(self)@.tag,
                children: old(self)@.children,
            }));
        }
    }

    /// This node's color.
    pub fn get_color(&self) -> (r: Vec4)
        ensures
            r@ == self@.color,
    {
        self.color
    }

    /// Shift this node and its whole subtree rigidly by `change`: every
    /// descendant moves by the same delta, so relative offsets are
    /// preserved.
    #[verifier::loop_isolation(false)]
    pub fn translate(&mut self, change: Vec3)
        requires
            translate_fits(old(self)@, change@),
        ensures
            final(self)@ == spec_translate(old(self)@, change@),
        decreases size(old(self)@),
    {
        self.transform.position = self.transform.position.add(change);
        let n: usize = self.children.len();
        let mut i: usize = 0;
        while i < n
            invariant
                i <= n,
                n == self.children.len(),
                self.transform@ == spec_translate(old(self)@, change@).transform,
                self.shape == old(self).shape,
                self.color == old(self).color,
                self.name == old(self).name,
                self.tag == old(self).tag,
                forall|j: int|
                    0 <= j < i ==> node_view(#[trigger] self.children@[j]) == spec_translate(
                        old(self)@.children[j],
                        change@,
                    ),
                forall|j: int| i <= j < n ==> #[trigger] self.children@[j] == old(self).children@[j],
            decreases n - i,
        {
            proof {
                lemma_child_smaller(old(self)@, i as int);
            }
            self.children[i].translate(change);
            i = i + 1;
        }
        proof {
            assert(self@.children =~= spec_translate(old(self)@, change@).children);
            assert(self@ =~= spec_translate(old(self)@, change@));
        }
    }

    /// Move this node to an absolute position; every descendant moves by
    /// the same delta the node itself moved by (not to recomputed absolute
    /// targets of their own).
    #[verifier::loop_isolation(false)]
    pub fn set_position(&mut self, position: Vec3)
        requires
            set_position_fits(old(self)@, position@),
        ensures
            final(self)@ == spec_set_position(old(self)@, position@),
    {
        let delta = position.sub(self.transform.position);
        self.transform.position = position;
        let n: usize = self.children.len();
        let mut i: usize = 0;
        while i < n
            invariant
                i <= n,
                n == self.children.len(),
                delta@ == v3_sub(position@, old(self)@.transform.position),
                self.transform@ == spec_set_position(old(self)@, position@).transform,
                self.shape == old(self).shape,
                self.color == old(self).color,
                self.name == old(self).name,
                self.tag == old(self).tag,
                forall|j: int|
                    0 <= j < i ==> node_view(#[trigger] self.children@[j]) == spec_translate(
                        old(self)@.children[j],
                        delta@,
                    ),
                forall|j: int| i <= j < n ==> #[trigger] self.children@[j] == old(self).children@[j],
            decreases n - i,
        {
            self.children[i].translate(delta);
            i = i + 1;
        }
        proof {
            assert(self@.children =~= spec_set_position(old(self)@, position@).children);
            assert(self@ =~= spec_set_position(old(self)@, position@));
        }
    }

    /// Multiply the scale of this node and of every descendant by the same
    /// uniform factor.
    #[verifier::loop_isolation(false)]
    pub fn scale(&mut self, factor: Fx)
        requires
            scale_fits(old(self)@, factor@),
        ensures
            final(self)@ == spec_scale(old(self)@, factor@),
        decreases size(old(self)@),
    {
        self.transform.scale = self.transform.scale.scale(factor);
        let n: usize = self.children.len();
        let mut i: usize = 0;
        while i < n
            invariant
                i <= n,
                n == self.children.len(),
                self.transform@ == spec_scale(old(self)@, factor@).transform,
                self.shape == old(self).shape,
                self.color == old(self).color,
                self.name == old(self).name,
                self.tag == old(self).tag,
                forall|j: int|
                    0 <= j < i ==> node_view(#[trigger] self.children@[j]) == spec_scale(
                        old(self)@.children[j],
                        factor@,
                    ),
                forall|j: int| i <= j < n ==> #[trigger] self.children@[j] == old(self).children@[j],
            decreases n - i,
        {
            proof {
                lemma_child_smaller(old(self)@, i as int);
            }
            self.children[i].scale(factor);
            i = i + 1;
        }
        proof {
            assert(self@.children =~= spec_scale(old(self)@, factor@).children);
            assert(self@ =~= spec_scale(old(self)@, factor@));
        }
    }

    /// Multiply the scale of this node and of every descendant
    /// componentwise by the same vector.
    #[verifier::loop_isolation(false)]
    pub fn scale3D(&mut self, vector: Vec3)
        requires
            scale3_fits(old(self)@, vector@),
        ensures
            final(self)@ == spec_scale3(old(self)@, vector@),
        decreases size(old(self)@),
    {
        self.transform.scale = self.transform.scale.cmul(vector);
        let n: usize = self.children.len();
        let mut i: usize = 0;
        while i < n
            invariant
                i <= n,
                n == self.children.len(),
                self.transform@ == spec_scale3(old(self)@, vector@).transform,
                self.shape == old(self).shape,
                self.color == old(self).color,
                self.name == old(self).name,
                self.tag == old(self).tag,
                forall|j: int|
                    0 <= j < i ==> node_view(#[trigger] self.children@[j]) == spec_scale3(
                        old(self)@.children[j],
                        vector@,
                    ),
                forall|j: int| i <= j < n ==> #[trigger] self.children@[j] == old(self).children@[j],
            decreases n - i,
        {
            proof {
                lemma_child_smaller(old(self)@, i as int);
            }
            self.children[i].scale3D(vector);
            i = i + 1;
        }
        proof {
            assert(self@.children =~= spec_scale3(old(self)@, vector@).children);
            assert(self@ =~= spec_scale3(old(self)@, vector@));
        }
    }

    /// Set this node's absolute orientation to a target quaternion.  Every
    /// descendant snaps to the same absolute orientation (not a relative
    /// offset), and each child orbits its parent's pivot by the delta
    /// rotation the parent just made.
    #[verifier::loop_isolation(false)]
    pub fn set_rotation_quat(&mut self, new_rotation: Quaternion)
        requires
            set_rotation_quat_fits(old(self)@, new_rotation@),
        ensures
            final(self)@ == spec_set_rotation_quat(old(self)@, new_rotation@),
        decreases size(old(self)@),
    {
        let delta_rotation = new_rotation.mul(self.transform.rotation.conjugate());
        self.transform.rotation = new_rotation;
        let pos = self.transform.position;
        let n: usize = self.children.len();
        let mut i: usize = 0;
        while i < n
            invariant
                i <= n,
                n == self.children.len(),
                pos@ == old(self)@.transform.position,
                delta_rotation@ == q_mul(
                    new_rotation@,
                    q_conjugate(old(self)@.transform.rotation),
                ),
                self.transform@ == spec_set_rotation_quat(old(self)@, new_rotation@).transform,
                self.shape == old(self).shape,
                self.color == old(self).color,
                self.name == old(self).name,
                self.tag == old(self).tag,
                forall|j: int|
                    0 <= j < i ==> node_view(#[trigger] self.children@[j])
                        == spec_set_rotation_quat(old(self)@, new_rotation@).children[j],
                forall|j: int| i <= j < n ==> #[trigger] self.children@[j] == old(self).children@[j],
            decreases n - i,
        {
            proof {
                lemma_child_smaller(old(self)@, i as int);
            }
            let cpos = self.children[i].transform.position;
            self.children[i].set_rotation_quat(new_rotation);
            let newp = pos.add(delta_rotation.rotate(cpos.sub(pos)));
            self.children[i].transform.position = newp;
            proof {
                assert(node_view(self.children@[i as int]) =~= spec_set_rotation_quat(
                    old(self)@,
                    new_rotation@,
                ).children[i as int]);
            }
            i = i + 1;
        }
        proof {
            assert(self@.children =~= spec_set_rotation_quat(old(self)@, new_rotation@).children);
            assert(self@ =~= spec_set_rotation_quat(old(self)@, new_rotation@));
        }
    }

    /// Set this node's absolute orientation from Euler angles: the
    /// quaternion built from them becomes the whole subtree's orientation,
    /// with children orbiting as `set_rotation_quat` describes.
    pub fn set_rotation(&mut self, rotation: Vec3)
        requires
            v3_fits_all(rotation@),
            set_rotation_quat_fits(old(self)@, q_from_euler(rotation@)),
        ensures
            final(self)@ == spec_set_rotation_quat(old(self)@, q_from_euler(rotation@)),
    {
        let new_rotation = Quaternion::from_euler(rotation);
        self.set_rotation_quat(new_rotation);
    }

    /// Orient this node's local forward axis toward `target_position`,
    /// using world-up as the reference; the subtree follows as
    /// `set_rotation_quat` describes.
    pub fn look_at(&mut self, target_position: Vec3)
        requires
            look_quat_fits(old(self)@.transform.position, target_position@),
            set_rotation_quat_fits(
                old(self)@,
                spec_look_quat(old(self)@.transform.position, target_position@),
            ),
        ensures
            final(self)@ == spec_set_rotation_quat(
                old(self)@,
                spec_look_quat(old(self)@.transform.position, target_position@),
            ),
    {
        let forward = target_position.sub(self.transform.position).normalize();
        let world_up = Vec3::new(Fx::zero(), Fx::one(), Fx::zero());
        let right = world_up.cross(forward).normalize();
        let new_up = forward.cross(right);
        let q = Quaternion::from_basis(right, new_up, forward);
        self.set_rotation_quat(q);
    }

    /// Compute the facing orientation toward `target_position` and return
    /// it, snapping every direct child subtree to it while leaving this
    /// node's own transform untouched.
    #[verifier::loop_isolation(false)]
    pub fn look_at_raw(&mut self, target_position: Vec3) -> (r: Quaternion)
        requires
            look_quat_fits(old(self)@.transform.position, target_position@),
            forall|i: int|
                0 <= i < old(self)@.children.len() ==> set_rotation_quat_fits(
                    #[trigger] old(self)@.children[i],
                    spec_look_quat(old(self)@.transform.position, target_position@),
                ),
        ensures
            r@ == spec_look_quat(old(self)@.transform.position, target_position@),
            final(self)@ == spec_look_at_raw(
                old(self)@,
                spec_look_quat(old(self)@.transform.position, target_position@),
            ),
    {
        let forward = target_position.sub(self.transform.position).normalize();
        let world_up = Vec3::new(Fx::zero(), Fx::one(), Fx::zero());
        let right = world_up.cross(forward).normalize();
        let new_up = forward.cross(right);
        let q = Quaternion::from_basis(right, new_up, forward);
        let n: usize = self.children.len();
        let mut i: usize = 0;
        while i < n
            invariant
                i <= n,
                n == self.children.len(),
                q@ == spec_look_quat(old(self)@.transform.position, target_position@),
                self.transform == old(self).transform,
                self.shape == old(self).shape,
                self.color == old(self).color,
                self.name == old(self).name,
                self.tag == old(self).tag,
                forall|j: int|
                    0 <= j < i ==> node_view(#[trigger] self.children@[j])
                        == spec_set_rotation_quat(old(self)@.children[j], q@),
                forall|j: int| i <= j < n ==> #[trigger] self.children@[j] == old(self).children@[j],
            decreases n - i,
        {
            self.children[i].set_rotation_quat(q);
            i = i + 1;
        }
        proof {
            assert(self@.children =~= spec_look_at_raw(
                old(self)@,
                spec_look_quat(old(self)@.transform.position, target_position@),
            ).children);
            assert(self@ =~= spec_look_at_raw(
                old(self)@,
                spec_look_quat(old(self)@.transform.position, target_position@),
            ));
        }
        q
    }

    /// Turn this node's orientation by the Euler increment; each child
    /// subtree orbits rigidly about this node's position, every
    /// descendant's own facing turning by the same increment.
    #[verifier::loop_isolation(false)]
    pub fn local_rotate(&mut self, rotation: Vec3)
        requires
            local_rotate_fits(old(self)@, rotation@),
        ensures
            final(self)@ == spec_local_rotate(old(self)@, rotation@),
        decreases size(old(self)@),
    {
        let q = Quaternion::from_euler(rotation);
        self.transform.rotation = self.transform.rotation.mul(q);
        let pos = self.transform.position;
        let n: usize = self.children.len();
        let mut i: usize = 0;
        while i < n
            invariant
                i <= n,
                n == self.children.len(),
                pos@ == old(self)@.transform.position,
                q@ == q_from_euler(rotation@),
                self.transform@ == spec_local_rotate(old(self)@, rotation@).transform,
                self.shape == old(self).shape,
                self.color == old(self).color,
                self.name == old(self).name,
                self.tag == old(self).tag,
                forall|j: int|
                    0 <= j < i ==> node_view(#[trigger] self.children@[j]) == spec_local_rotate(
                        old(self)@,
                        rotation@,
                    ).children[j],
                forall|j: int| i <= j < n ==> #[trigger] self.children@[j] == old(self).children@[j],
            decreases n - i,
        {
            proof {
                lemma_child_smaller(old(self)@, i as int);
            }
            let cpos = self.children[i].transform.position;
            let new_pos = pos.add(q.rotate(cpos.sub(pos)));
            self.children[i].local_rotate(rotation);
            self.children[i].set_position(new_pos);
            i = i + 1;
        }
        proof {
            assert(self@.children =~= spec_local_rotate(old(self)@, rotation@).children);
            assert(self@ =~= spec_local_rotate(old(self)@, rotation@));
        }
    }

    /// Turn this node and its subtree about the world origin: the node's
    /// own position and orientation rotate by the Euler increment, and
    /// each child subtree then orbits the node's updated position.
    #[verifier::loop_isolation(false)]
    pub fn global_rotate(&mut self, rotation: Vec3)
        requires
            global_rotate_fits(old(self)@, rotation@),
        ensures
            final(self)@ == spec_global_rotate(old(self)@, rotation@),
        decreases size(old(self)@),
    {
        let q = Quaternion::from_euler(rotation);
        self.transform.rotation = q.mul(self.transform.rotation);
        self.transform.position = q.rotate(self.transform.position);
        let pos = self.transform.position;
        let n: usize = self.children.len();
        let mut i: usize = 0;
        while i < n
            invariant
                i <= n,
                n == self.children.len(),
                pos@ == q_rotate(q_from_euler(rotation@), old(self)@.transform.position),
                q@ == q_from_euler(rotation@),
                self.transform@ == spec_global_rotate(old(self)@, rotation@).transform,
                self.shape == old(self).shape,
                self.color == old(self).color,
                self.name == old(self).name,
                self.tag == old(self).tag,
                forall|j: int|
                    0 <= j < i ==> node_view(#[trigger] self.children@[j]) == spec_global_rotate(
                        old(self)@,
                        rotation@,
                    ).children[j],
                forall|j: int| i <= j < n ==> #[trigger] self.children@[j] == old(self).children@[j],
            decreases n - i,
        {
            proof {
                lemma_child_smaller(old(self)@, i as int);
            }
            let cpos = self.children[i].transform.position;
            let new_pos = pos.add(q.rotate(cpos.sub(pos)));
            self.children[i].global_rotate(rotation);
            self.children[i].set_position(new_pos);
            i = i + 1;
        }
        proof {
            assert(self@.children =~= spec_global_rotate(old(self)@, rotation@).children);
            assert(self@ =~= spec_global_rotate(old(self)@, rotation@));
        }
    }
}

/// The orientation that faces `target` from `pos`, with world-up as the
/// reference: forward points toward the target, right is the normalized
/// cross of world-up with forward, and up completes the basis.
/// Degenerate inputs (target at the position, or forward parallel to
/// world-up) are excluded by `look_quat_fits`.
pub open spec fn spec_look_quat(pos: V3, target: V3) -> QV {
    let forward = v3_normalize(v3_sub(target, pos));
    let right = v3_normalize(v3_cross((V3 { x: 0, y: 65536, z: 0 }), forward));
    let up2 = v3_cross(forward, right);
    q_from_basis(right, up2, forward)
}

pub open spec fn look_quat_fits(pos: V3, target: V3) -> bool {
    let forward = v3_normalize(v3_sub(target, pos));
    let right = v3_normalize(v3_cross((V3 { x: 0, y: 65536, z: 0 }), forward));
    let up2 = v3_cross(forward, right);
    &&& v3_sub_fits(target, pos)
    &&& v3_normalize_fits(v3_sub(target, pos))
    &&& v3_cross_fits((V3 { x: 0, y: 65536, z: 0 }), forward)
    &&& v3_normalize_fits(v3_cross((V3 { x: 0, y: 65536, z: 0 }), forward))
    &&& v3_cross_fits(forward, right)
    &&& from_basis_fits(right, up2, forward)
}

/// The tree after `look_at_raw`: the node itself is untouched, and every
/// direct child subtree snaps to the facing orientation.
pub open spec fn spec_look_at_raw(n: NodeView, q: QV) -> NodeView {
    NodeView {
        transform: n.transform,
        shape: n.shape,
        color: n.color,
        name: n.name,
        tag: n.tag,
        children: Seq::new(
            n.children.len(),
            |i: int|
                if 0 <= i < n.children.len() {
                    spec_set_rotation_quat(n.children[i], q)
                } else {
                    vstd::pervasive::arbitrary()
                },
        ),
    }
}

/// The shape a quick-built object ends up with: the tags the queries and
/// the renderer handle directly pass through; every other tag falls back
/// to a cube.
pub open spec fn quick_shape(shape: ShapeKind) -> ShapeKind {
    match shape {
        ShapeKind::Cube => ShapeKind::Cube,
        ShapeKind::Sphere => ShapeKind::Sphere,
        ShapeKind::Empty => ShapeKind::Empty,
        _ => ShapeKind::Cube,
    }
}

/// A freshly built standalone object carrying the given shape tag (with
/// unhandled tags falling back to a cube).
#[allow(non_snake_case)]
pub fn quickGO(shape: ShapeKind) -> (r: GameObject)
    ensures
        r@ == (NodeView {
            transform: tf_default(),
            shape: quick_shape(shape),
            color: (V4 { x: 65536, y: 65536, z: 65536, w: 65536 }),
            name: Seq::<char>::empty(),
            tag: Seq::<char>::empty(),
            children: Seq::<NodeView>::empty(),
        }),
{
    let mut go = GameObject::new();
    match shape {
        ShapeKind::Cube => go.set_shape(ShapeKind::Cube),
        ShapeKind::Sphere => go.set_shape(ShapeKind::Sphere),
        ShapeKind::Empty => go.set_shape(ShapeKind::Empty),
        _ => go.set_shape(ShapeKind::Cube),
    }
    go
}

/// What a renderer reads per node, in draw order.
pub type DrawItemView = (TfV, ShapeKind, V4);

/// The depth-first draw order of a subtree: each node before its
/// children, children in sequence order.
pub open spec fn spec_flatten(n: NodeView) -> Seq<DrawItemView>
    decreases n, 1int,
{
    seq![(n.transform, n.shape, n.color)] + spec_flatten_children(n.children, 0)
}

/// The draw order of the subtrees rooted at `s[i..]`, concatenated.
pub open spec fn spec_flatten_children(s: Seq<NodeView>, i: int) -> Seq<DrawItemView>
    decreases s, s.len() - i,
{
    if i < 0 || i >= s.len() {
        Seq::empty()
    } else {
        spec_flatten(s[i]) + spec_flatten_children(s, i + 1)
    }
}

/// Views of a sequence of draw items.
pub open spec fn draw_items_view(s: Seq<(Transform, ShapeKind, Vec4)>) -> Seq<DrawItemView> {
    Seq::new(s.len(), |i: int| s[i]@)
}

impl GameObject {
    /// The subtree in depth-first draw order — each node's transform,
    /// shape and color, parent before children — as a renderer visits it
    /// to build draw calls.
    #[verifier::loop_isolation(false)]
    pub fn flatten(&self) -> (r: Vec<(Transform, ShapeKind, Vec4)>)
        ensures
            draw_items_view(r@) == spec_flatten(self@),
        decreases size(self@),
    {
        let mut out: Vec<(Transform, ShapeKind, Vec4)> = Vec::new();
        out.push((self.transform, self.shape, self.color));
        let ghost cvs = self@.children;
        let n: usize = self.children.len();
        let mut i: usize = 0;
        proof {
            assert(draw_items_view(out@) =~= seq![(self@.transform, self@.shape, self@.color)]);
        }
        while i < n
            invariant
                i <= n,
                n == self.children.len(),
                draw_items_view(out@) + spec_flatten_children(cvs, i as int) == spec_flatten(
                    self@,
                ),
            decreases n - i,
        {
            proof {
                lemma_child_smaller(self@, i as int);
            }
            let mut sub = self.children[i].flatten();
            let ghost pre = out@;
            out.append(&mut sub);
            proof {
                assert(draw_items_view(out@) =~= draw_items_view(pre) + spec_flatten(
                    cvs[i as int],
                ));
                assert(draw_items_view(out@) + spec_flatten_children(cvs, i + 1 as int)
                    =~= (draw_items_view(pre) + spec_flatten_children(cvs, i as int)));
            }
            i = i + 1;
        }
        proof {
            assert(draw_items_view(out@) =~= spec_flatten(self@));
        }
        out
    }
}

/// Whether `path` denotes a node of the tree: each entry selects a child
/// of the node reached so far.
pub open spec fn valid_path(n: NodeView, path: Seq<int>) -> bool
    decreases path.len(),
{
    ||| path.len() == 0
    ||| (0 <= path[0] < n.children.len() && valid_path(
        n.children[path[0]],
        path.subrange(1, path.len() as int),
    ))
}

/// The node a valid path denotes.
pub open spec fn node_at(n: NodeView, path: Seq<int>) -> NodeView
    decreases path.len(),
{
    if path.len() == 0 {
        n
    } else if 0 <= path[0] < n.children.len() {
        node_at(n.children[path[0]], path.subrange(1, path.len() as int))
    } else {
        n
    }
}

/// Translation is rigid: every node of the translated tree sits at its old
/// position shifted by `d`, with rotation and scale untouched, and the tree
/// keeps its shape.
pub proof fn lemma_translate_rigid(t: NodeView, d: V3, path: Seq<int>)
    requires
        valid_path(t, path),
    ensures
        valid_path(spec_translate(t, d), path),
        node_at(spec_translate(t, d), path) == spec_translate(node_at(t, path), d),
        node_at(spec_translate(t, d), path).transform.position == v3_add(
            node_at(t, path).transform.position,
            d,
        ),
        node_at(spec_translate(t, d), path).transform.rotation == node_at(
            t,
            path,
        ).transform.rotation,
        node_at(spec_translate(t, d), path).transform.scale == node_at(t, path).transform.scale,
    decreases path.len(),
{
    if path.len() != 0 {
        lemma_translate_rigid(t.children[path[0]], d, path.subrange(1, path.len() as int));
    }
}

/// Translation preserves the relative offset between any two nodes of the
/// tree.
pub proof fn lemma_translate_preserves_offsets(t: NodeView, d: V3, p1: Seq<int>, p2: Seq<int>)
    requires
        valid_path(t, p1),
        valid_path(t, p2),
    ensures
        v3_sub(
            node_at(spec_translate(t, d), p1).transform.position,
            node_at(spec_translate(t, d), p2).transform.position,
        ) == v3_sub(node_at(t, p1).transform.position, node_at(t, p2).transform.position),
{
    lemma_translate_rigid(t, d, p1);
    lemma_translate_rigid(t, d, p2);
    assert(v3_sub(
        v3_add(node_at(t, p1).transform.position, d),
        v3_add(node_at(t, p2).transform.position, d),
    ) =~= v3_sub(node_at(t, p1).transform.position, node_at(t, p2).transform.position));
}

/// Setting an absolute position is the same edit as translating by the
/// difference from the old position.
pub proof fn lemma_set_position_is_translate(t: NodeView, p: V3)
    ensures
        spec_set_position(t, p) == spec_translate(t, v3_sub(p, t.transform.position)),
{
    let d = v3_sub(p, t.transform.position);
    assert(v3_add(t.transform.position, d) =~= p);
    assert(spec_set_position(t, p).children =~= spec_translate(t, d).children);
    assert(spec_set_position(t, p) =~= spec_translate(t, d));
}

/// Uniform scaling multiplies every node's scale by the same factor,
/// leaving positions and rotations untouched.
pub proof fn lemma_scale_uniform(t: NodeView, s: int, path: Seq<int>)
    requires
        valid_path(t, path),
    ensures
        valid_path(spec_scale(t, s), path),
        node_at(spec_scale(t, s), path) == spec_scale(node_at(t, path), s),
        node_at(spec_scale(t, s), path).transform.scale == v3_scale(
            node_at(t, path).transform.scale,
            s,
        ),
        node_at(spec_scale(t, s), path).transform.position == node_at(
            t,
            path,
        ).transform.position,
        node_at(spec_scale(t, s), path).transform.rotation == node_at(
            t,
            path,
        ).transform.rotation,
    decreases path.len(),
{
    if path.len() != 0 {
        lemma_scale_uniform(t.children[path[0]], s, path.subrange(1, path.len() as int));
    }
}

} // verus!
