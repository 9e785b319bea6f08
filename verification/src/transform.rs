//! A node's world-space placement: position, rotation and scale.

use vstd::prelude::*;
use crate::quat::{qv_fits, qv_identity, Quaternion, QV};
use crate::vec3::{v3_fits_all, Vec3, V3};

verus! {

/// Mathematical view of a transform.
#[verifier::ext_equal]
pub ghost struct TfV {
    pub position: V3,
    pub rotation: QV,
    pub scale: V3,
}

/// Every component of the transform inside the representable range.
pub open spec fn tf_fits(t: TfV) -> bool {
    v3_fits_all(t.position) && qv_fits(t.rotation) && v3_fits_all(t.scale)
}

/// A world-space transform: where a node sits, how it is oriented, and how
/// large it is.  A sphere uses `scale.x` as its radius; a cube uses `scale`
/// as its full extents.
#[derive(Clone, Copy, Debug, PartialEq, Eq, Structural)]
pub struct Transform {
    pub position: Vec3,
    pub rotation: Quaternion,
    pub scale: Vec3,
}

impl View for Transform {
    type V = TfV;

    open spec fn view(&self) -> TfV {
        TfV { position: self.position@, rotation: self.rotation@, scale: self.scale@ }
    }
}

/// The default transform: at the origin, unrotated, unit scale.
pub open spec fn tf_default() -> TfV {
    TfV {
        position: (V3 { x: 0, y: 0, z: 0 }),
        rotation: qv_identity(),
        scale: (V3 { x: 65536, y: 65536, z: 65536 }),
    }
}

impl Transform {
    /// The default transform: at the origin, unrotated, unit scale.
    pub fn new() -> (r: Transform)
        ensures
            r@ == tf_default(),
    {
        Transform { position: Vec3::zero(), rotation: Quaternion::identity(), scale: Vec3::one() }
    }
}

} // verus!
