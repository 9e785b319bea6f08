//! A linear spring between two points.

use vstd::prelude::*;
use crate::fixed::{fits, fx_div, fx_mul, Fx};
use crate::vec3::{
    lemma_v3_dot_self_nonneg, v3_add, v3_add_fits, v3_dot, v3_dot_fits, v3_len, v3_normalize,
    v3_normalize_fits, v3_scale, v3_scale_fits, v3_sub, v3_sub_fits, Vec3, V3,
};

verus! {

/// Mathematical view of a spring.
#[verifier::ext_equal]
pub ghost struct SpringV {
    pub p1: V3,
    pub p2: V3,
    pub size: int,
    pub strength: int,
}

/// A spring between `p1` and `p2` with rest length `size`; `strength`
/// (in `[0, 1]`) is the fraction of the offset corrected per step.
#[derive(Clone, Copy, Debug, PartialEq, Eq, Structural)]
pub struct Spring {
    pub p1: Vec3,
    pub p2: Vec3,
    pub size: Fx,
    pub strength: Fx,
}

impl View for Spring {
    type V = SpringV;

    open spec fn view(&self) -> SpringV {
        SpringV { p1: self.p1@, p2: self.p2@, size: self.size@, strength: self.strength@ }
    }
}

/// The strength a new spring keeps: the argument clamped into `[0, 1]`.
pub open spec fn clamped_strength(s: int) -> int {
    if s < 0 {
        0
    } else if s > 65536 {
        65536
    } else {
        s
    }
}

/// The distance between the spring's endpoints.
pub open spec fn spring_dist(s: SpringV) -> int {
    v3_len(v3_sub(s.p2, s.p1))
}

/// The restoring force for a spring constant `k`:
/// `-k * (dist - size)` along the unit axis from `p1` to `p2`, and zero
/// for coincident endpoints.
pub open spec fn spec_spring_force(s: SpringV, k: int) -> V3 {
    let dir = v3_sub(s.p2, s.p1);
    let dist = spring_dist(s);
    let offset = dist - s.size;
    if dist != 0 {
        v3_scale(v3_normalize(dir), fx_mul(-k, offset))
    } else {
        V3 { x: 0, y: 0, z: 0 }
    }
}

pub open spec fn spring_force_fits(s: SpringV, k: int) -> bool {
    let dir = v3_sub(s.p2, s.p1);
    let dist = spring_dist(s);
    let offset = dist - s.size;
    &&& v3_sub_fits(s.p2, s.p1)
    &&& v3_dot_fits(dir, dir)
    &&& fits(offset)
    &&& fits(-k)
    &&& fits(fx_mul(-k, offset))
    &&& (dist != 0 ==> v3_normalize_fits(dir) && v3_scale_fits(
        v3_normalize(dir),
        fx_mul(-k, offset),
    ))
}

/// The endpoints after one correction step: each pulled half the offset
/// toward rest, scaled by the spring's strength; coincident endpoints
/// stay put.
pub open spec fn spec_spring_update(s: SpringV) -> SpringV {
    let dir = v3_sub(s.p2, s.p1);
    let dist = spring_dist(s);
    let offset = dist - s.size;
    if dist != 0 {
        let correction = v3_scale(
            v3_scale(v3_normalize(dir), fx_div(offset, 131072)),
            s.strength,
        );
        SpringV {
            p1: v3_add(s.p1, correction),
            p2: v3_sub(s.p2, correction),
            size: s.size,
            strength: s.strength,
        }
    } else {
        s
    }
}

pub open spec fn spring_update_fits(s: SpringV) -> bool {
    let dir = v3_sub(s.p2, s.p1);
    let dist = spring_dist(s);
    let offset = dist - s.size;
    let correction = v3_scale(
        v3_scale(v3_normalize(dir), fx_div(offset, 131072)),
        s.strength,
    );
    &&& v3_sub_fits(s.p2, s.p1)
    &&& v3_dot_fits(dir, dir)
    &&& fits(offset)
    &&& fits(fx_div(offset, 131072))
    &&& (dist != 0 ==> {
        &&& v3_normalize_fits(dir)
        &&& v3_scale_fits(v3_normalize(dir), fx_div(offset, 131072))
        &&& v3_scale_fits(v3_scale(v3_normalize(dir), fx_div(offset, 131072)), s.strength)
        &&& v3_add_fits(s.p1, correction)
        &&& v3_sub_fits(s.p2, correction)
    })
}

/// The length is zero exactly when the squared length rounds to zero, so
/// a non-zero length meets the normalization precondition.
proof fn lemma_dist_zero_iff(s: SpringV)
    requires
        v3_dot_fits(v3_sub(s.p2, s.p1), v3_sub(s.p2, s.p1)),
    ensures
        spring_dist(s) != 0 ==> v3_dot(v3_sub(s.p2, s.p1), v3_sub(s.p2, s.p1)) >= 1,
        spring_dist(s) >= 0,
{
    let dir = v3_sub(s.p2, s.p1);
    lemma_v3_dot_self_nonneg(dir);
    crate::fixed::lemma_isqrt_bounds(v3_dot(dir, dir) * 65536);
}

impl Spring {
    /// A spring with the given endpoints and rest length; the strength is
    /// clamped into `[0, 1]`.
    pub fn new(p1: Vec3, p2: Vec3, size: Fx, spring_strength: Fx) -> (r: Spring)
        ensures
            r@ == (SpringV {
                p1: p1@,
                p2: p2@,
                size: size@,
                strength: clamped_strength(spring_strength@),
            }),
    {
        let mut strength = spring_strength;
        if strength.is_neg() {
            strength = Fx::zero();
        } else if Fx::one().lt(strength) {
            strength = Fx::one();
        }
        Spring { p1, p2, size, strength }
    }

    /// The restoring force for spring constant `k`.
    pub fn get_force(&self, k: Fx) -> (r: Vec3)
        requires
            spring_force_fits(self@, k@),
        ensures
            r@ == spec_spring_force(self@, k@),
    {
        proof {
            lemma_dist_zero_iff(self@);
        }
        let dir = self.p2.sub(self.p1);
        let dist = dir.length();
        let offset = dist.sub(self.size);
        if dist.raw != 0 {
            dir.normalize().scale(k.neg().mul(offset))
        } else {
            Vec3::zero()
        }
    }

    /// One correction step: both endpoints move toward rest length by
    /// half the offset, scaled by the strength.
    pub fn update(&mut self)
        requires
            spring_update_fits(old(self)@),
        ensures
            final(self)@ == spec_spring_update(old(self)@),
    {
        proof {
            lemma_dist_zero_iff(old(self)@);
        }
        let dir = self.p2.sub(self.p1);
        let dist = dir.length();
        let offset = dist.sub(self.size);
        if dist.raw != 0 {
            let correction = dir.normalize().scale(offset.div(Fx { raw: 131072 })).scale(
                self.strength,
            );
            self.p1 = self.p1.add(correction);
            self.p2 = self.p2.sub(correction);
        }
    }
}

} // verus!
