//! Three-component vectors over the fixed-point scalar, and the
//! four-component color vector.
//!
//! Each executable operation mirrors a spec-level function over `V3`, the
//! mathematical view of a vector (three raw integers), together with a
//! `*_fits` predicate stating exactly which intermediate results must stay
//! inside the representable range.

use vstd::prelude::*;
use crate::fixed::{fits, fx_div, fx_mul, fx_sqrt, lemma_fx_sqrt_at_least, Fx};

verus! {

/// Mathematical view of a vector: the three raw fixed-point values.
#[verifier::ext_equal]
pub ghost struct V3 {
    pub x: int,
    pub y: int,
    pub z: int,
}

/// Mathematical view of a color: four raw fixed-point values.
#[verifier::ext_equal]
pub ghost struct V4 {
    pub x: int,
    pub y: int,
    pub z: int,
    pub w: int,
}

/// All three components inside the representable range.
pub open spec fn v3_fits_all(v: V3) -> bool {
    fits(v.x) && fits(v.y) && fits(v.z)
}

pub open spec fn v3_add(a: V3, b: V3) -> V3 {
    V3 { x: a.x + b.x, y: a.y + b.y, z: a.z + b.z }
}

pub open spec fn v3_add_fits(a: V3, b: V3) -> bool {
    fits(a.x + b.x) && fits(a.y + b.y) && fits(a.z + b.z)
}

pub open spec fn v3_sub(a: V3, b: V3) -> V3 {
    V3 { x: a.x - b.x, y: a.y - b.y, z: a.z - b.z }
}

pub open spec fn v3_sub_fits(a: V3, b: V3) -> bool {
    fits(a.x - b.x) && fits(a.y - b.y) && fits(a.z - b.z)
}

/// Componentwise product with a scalar.
pub open spec fn v3_scale(a: V3, s: int) -> V3 {
    V3 { x: fx_mul(a.x, s), y: fx_mul(a.y, s), z: fx_mul(a.z, s) }
}

pub open spec fn v3_scale_fits(a: V3, s: int) -> bool {
    fits(fx_mul(a.x, s)) && fits(fx_mul(a.y, s)) && fits(fx_mul(a.z, s))
}

/// Componentwise quotient by a scalar.
pub open spec fn v3_div_s(a: V3, s: int) -> V3 {
    V3 { x: fx_div(a.x, s), y: fx_div(a.y, s), z: fx_div(a.z, s) }
}

pub open spec fn v3_div_s_fits(a: V3, s: int) -> bool {
    s != 0 && fits(fx_div(a.x, s)) && fits(fx_div(a.y, s)) && fits(fx_div(a.z, s))
}

/// Componentwise product of two vectors.
pub open spec fn v3_cmul(a: V3, b: V3) -> V3 {
    V3 { x: fx_mul(a.x, b.x), y: fx_mul(a.y, b.y), z: fx_mul(a.z, b.z) }
}

pub open spec fn v3_cmul_fits(a: V3, b: V3) -> bool {
    fits(fx_mul(a.x, b.x)) && fits(fx_mul(a.y, b.y)) && fits(fx_mul(a.z, b.z))
}

/// Dot product, summed left to right.
pub open spec fn v3_dot(a: V3, b: V3) -> int {
    fx_mul(a.x, b.x) + fx_mul(a.y, b.y) + fx_mul(a.z, b.z)
}

pub open spec fn v3_dot_fits(a: V3, b: V3) -> bool {
    &&& fits(fx_mul(a.x, b.x))
    &&& fits(fx_mul(a.y, b.y))
    &&& fits(fx_mul(a.z, b.z))
    &&& fits(fx_mul(a.x, b.x) + fx_mul(a.y, b.y))
    &&& fits(v3_dot(a, b))
}

/// Cross product.
pub open spec fn v3_cross(a: V3, b: V3) -> V3 {
    V3 {
        x: fx_mul(a.y, b.z) - fx_mul(a.z, b.y),
        y: fx_mul(a.z, b.x) - fx_mul(a.x, b.z),
        z: fx_mul(a.x, b.y) - fx_mul(a.y, b.x),
    }
}

pub open spec fn v3_cross_fits(a: V3, b: V3) -> bool {
    &&& fits(fx_mul(a.y, b.z)) && fits(fx_mul(a.z, b.y)) && fits(
        fx_mul(a.y, b.z) - fx_mul(a.z, b.y),
    )
    &&& fits(fx_mul(a.z, b.x)) && fits(fx_mul(a.x, b.z)) && fits(
        fx_mul(a.z, b.x) - fx_mul(a.x, b.z),
    )
    &&& fits(fx_mul(a.x, b.y)) && fits(fx_mul(a.y, b.x)) && fits(
        fx_mul(a.x, b.y) - fx_mul(a.y, b.x),
    )
}

/// Squared distance between two points: the dot product of the difference
/// with itself.
pub open spec fn v3_dist_sq(a: V3, b: V3) -> int {
    v3_dot(v3_sub(a, b), v3_sub(a, b))
}

pub open spec fn v3_dist_sq_fits(a: V3, b: V3) -> bool {
    v3_sub_fits(a, b) && v3_dot_fits(v3_sub(a, b), v3_sub(a, b))
}

/// Euclidean length: the square root of the self dot product.
pub open spec fn v3_len(v: V3) -> int {
    fx_sqrt(v3_dot(v, v))
}

/// The vector divided componentwise by its length.  Meaningful when the
/// squared length does not round to zero (`v3_dot(v, v) >= 1`), which the
/// `fits` predicate demands.
pub open spec fn v3_normalize(v: V3) -> V3 {
    let l = v3_len(v);
    V3 { x: fx_div(v.x, l), y: fx_div(v.y, l), z: fx_div(v.z, l) }
}

pub open spec fn v3_normalize_fits(v: V3) -> bool {
    &&& v3_dot_fits(v, v)
    &&& v3_dot(v, v) >= 1
    &&& fits(fx_div(v.x, v3_len(v))) && fits(fx_div(v.y, v3_len(v))) && fits(
        fx_div(v.z, v3_len(v)),
    )
}

/// The self dot product cannot be negative.
pub proof fn lemma_v3_dot_self_nonneg(v: V3)
    ensures
        v3_dot(v, v) >= 0,
{
    assert(fx_mul(v.x, v.x) >= 0) by (nonlinear_arith);
    assert(fx_mul(v.y, v.y) >= 0) by (nonlinear_arith);
    assert(fx_mul(v.z, v.z) >= 0) by (nonlinear_arith);
}

/// A vector of three fixed-point scalars.
#[derive(Clone, Copy, Debug, PartialEq, Eq, Structural)]
pub struct Vec3 {
    pub x: Fx,
    pub y: Fx,
    pub z: Fx,
}

impl View for Vec3 {
    type V = V3;

    open spec fn view(&self) -> V3 {
        V3 { x: self.x@, y: self.y@, z: self.z@ }
    }
}

impl Vec3 {
    /// The zero vector.
    pub fn zero() -> (r: Vec3)
        ensures
            r@ == (V3 { x: 0, y: 0, z: 0 }),
    {
        Vec3 { x: Fx::zero(), y: Fx::zero(), z: Fx::zero() }
    }

    /// The vector with every component 1.
    pub fn one() -> (r: Vec3)
        ensures
            r@ == (V3 { x: 65536, y: 65536, z: 65536 }),
    {
        Vec3 { x: Fx::one(), y: Fx::one(), z: Fx::one() }
    }

    /// Build a vector from three scalars.
    pub fn new(x: Fx, y: Fx, z: Fx) -> (r: Vec3)
        ensures
            r@ == (V3 { x: x@, y: y@, z: z@ }),
    {
        Vec3 { x, y, z }
    }

    pub fn add(self, o: Vec3) -> (r: Vec3)
        requires
            v3_add_fits(self@, o@),
        ensures
            r@ == v3_add(self@, o@),
    {
        Vec3 { x: self.x.add(o.x), y: self.y.add(o.y), z: self.z.add(o.z) }
    }

    pub fn sub(self, o: Vec3) -> (r: Vec3)
        requires
            v3_sub_fits(self@, o@),
        ensures
            r@ == v3_sub(self@, o@),
    {
        Vec3 { x: self.x.sub(o.x), y: self.y.sub(o.y), z: self.z.sub(o.z) }
    }

    /// Componentwise product with a scalar.
    pub fn scale(self, s: Fx) -> (r: Vec3)
        requires
            v3_scale_fits(self@, s@),
        ensures
            r@ == v3_scale(self@, s@),
    {
        Vec3 { x: self.x.mul(s), y: self.y.mul(s), z: self.z.mul(s) }
    }

    /// Componentwise quotient by a scalar.
    pub fn div_s(self, s: Fx) -> (r: Vec3)
        requires
            v3_div_s_fits(self@, s@),
        ensures
            r@ == v3_div_s(self@, s@),
    {
        Vec3 { x: self.x.div(s), y: self.y.div(s), z: self.z.div(s) }
    }

    /// Componentwise product of two vectors.
    pub fn cmul(self, o: Vec3) -> (r: Vec3)
        requires
            v3_cmul_fits(self@, o@),
        ensures
            r@ == v3_cmul(self@, o@),
    {
        Vec3 { x: self.x.mul(o.x), y: self.y.mul(o.y), z: self.z.mul(o.z) }
    }

    pub fn dot(self, o: Vec3) -> (r: Fx)
        requires
            v3_dot_fits(self@, o@),
        ensures
            r@ == v3_dot(self@, o@),
    {
        self.x.mul(o.x).add(self.y.mul(o.y)).add(self.z.mul(o.z))
    }

    pub fn cross(self, o: Vec3) -> (r: Vec3)
        requires
            v3_cross_fits(self@, o@),
        ensures
            r@ == v3_cross(self@, o@),
    {
        Vec3 {
            x: self.y.mul(o.z).sub(self.z.mul(o.y)),
            y: self.z.mul(o.x).sub(self.x.mul(o.z)),
            z: self.x.mul(o.y).sub(self.y.mul(o.x)),
        }
    }

    /// Euclidean length.
    pub fn length(self) -> (r: Fx)
        requires
            v3_dot_fits(self@, self@),
        ensures
            r@ == v3_len(self@),
            r@ >= 0,
    {
        proof {
            lemma_v3_dot_self_nonneg(self@);
        }
        self.dot(self).sqrt()
    }

    /// The unit vector in this vector's direction.
    pub fn normalize(self) -> (r: Vec3)
        requires
            v3_normalize_fits(self@),
        ensures
            r@ == v3_normalize(self@),
    {
        proof {
            lemma_fx_sqrt_at_least(v3_dot(self@, self@), 1);
        }
        let len = self.dot(self).sqrt();
        Vec3 { x: self.x.div(len), y: self.y.div(len), z: self.z.div(len) }
    }

    /// Squared distance to another point.
    pub fn dist_sq(self, o: Vec3) -> (r: Fx)
        requires
            v3_dist_sq_fits(self@, o@),
        ensures
            r@ == v3_dist_sq(self@, o@),
    {
        let d = self.sub(o);
        d.dot(d)
    }
}

/// A vector of four fixed-point scalars, used for colors.
#[derive(Clone, Copy, Debug, PartialEq, Eq, Structural)]
pub struct Vec4 {
    pub x: Fx,
    pub y: Fx,
    pub z: Fx,
    pub w: Fx,
}

impl View for Vec4 {
    type V = V4;

    open spec fn view(&self) -> V4 {
        V4 { x: self.x@, y: self.y@, z: self.z@, w: self.w@ }
    }
}

/// Each component clamped into the unit interval `[0, 1]`.
pub open spec fn v4_clamp_unit(c: V4) -> V4 {
    V4 {
        x: clamp_unit_one(c.x),
        y: clamp_unit_one(c.y),
        z: clamp_unit_one(c.z),
        w: clamp_unit_one(c.w),
    }
}

pub open spec fn clamp_unit_one(x: int) -> int {
    if x < 0 {
        0
    } else if x > 65536 {
        65536
    } else {
        x
    }
}

impl Vec4 {
    /// The color with every channel 1.
    pub fn one() -> (r: Vec4)
        ensures
            r@ == (V4 { x: 65536, y: 65536, z: 65536, w: 65536 }),
    {
        Vec4 { x: Fx::one(), y: Fx::one(), z: Fx::one(), w: Fx::one() }
    }

    /// Build a color from four scalars.
    pub fn new(x: Fx, y: Fx, z: Fx, w: Fx) -> (r: Vec4)
        ensures
            r@ == (V4 { x: x@, y: y@, z: z@, w: w@ }),
    {
        Vec4 { x, y, z, w }
    }

    /// Every channel clamped into `[0, 1]`.
    pub fn clamp_unit(self) -> (r: Vec4)
        ensures
            r@ == v4_clamp_unit(self@),
    {
        Vec4 {
            x: self.x.clamp(Fx::zero(), Fx::one()),
            y: self.y.clamp(Fx::zero(), Fx::one()),
            z: self.z.clamp(Fx::zero(), Fx::one()),
            w: self.w.clamp(Fx::zero(), Fx::one()),
        }
    }
}

} // verus!
