//! The closed set of shape tags a node can carry.

use vstd::prelude::*;

verus! {

/// Which volume / ray-intersection routine applies to a node.
///
/// Spatial queries implement `Sphere` and `Cube` (and `Empty`, which never
/// contains or intersects anything); the remaining tags are drawable shapes
/// with no query routine, and the queries state that restriction as a
/// precondition.
#[derive(Clone, Copy, Debug, PartialEq, Eq, Structural)]
pub enum ShapeKind {
    Empty,
    Sphere,
    Cube,
    Quad,
    Circle,
    Triangle,
    Line,
}

impl View for ShapeKind {
    type V = ShapeKind;

    open spec fn view(&self) -> ShapeKind {
        *self
    }
}

} // verus!
