//! Rotations as quaternions over the fixed-point scalar.
//!
//! A rotation is the usual unit-length quaternion; the engine never relies
//! on the length being exactly one (fixed-point rounding perturbs it), so
//! every contract states the exact fixed-point computation instead.
//! A point is rotated by the conjugation formula
//! `v' = (w*w - b.b) v + 2 (v.b) b + 2 w (b x v)` where `b` is the vector
//! part: the expansion of `q v q*` that avoids building intermediate
//! quaternions.

use vstd::prelude::*;
use crate::fixed::{
    fits, fx_div, fx_mul, fx_sqrt, iabs, lemma_fx_div_bound, lemma_fx_mul_bound,
    lemma_fx_sqrt_at_least, Fx,
};
use crate::trig::{fx_cos, fx_sin, lemma_cos_bound, lemma_sin_bound};
use crate::vec3::{
    v3_add, v3_add_fits, v3_cross, v3_cross_fits, v3_dot, v3_dot_fits, v3_fits_all, v3_scale,
    v3_scale_fits, Vec3, V3,
};

verus! {

/// Mathematical view of a quaternion: four raw fixed-point values
/// (vector part `x, y, z`, scalar part `w`).
#[verifier::ext_equal]
pub ghost struct QV {
    pub x: int,
    pub y: int,
    pub z: int,
    pub w: int,
}

/// All four components inside the representable range.
pub open spec fn qv_fits(q: QV) -> bool {
    fits(q.x) && fits(q.y) && fits(q.z) && fits(q.w)
}

/// The identity rotation.
pub open spec fn qv_identity() -> QV {
    QV { x: 0, y: 0, z: 0, w: 65536 }
}

/// The conjugate: vector part negated.
pub open spec fn q_conjugate(q: QV) -> QV {
    QV { x: -q.x, y: -q.y, z: -q.z, w: q.w }
}

/// Hamilton product of two quaternions.
pub open spec fn q_mul(a: QV, b: QV) -> QV {
    QV {
        x: fx_mul(a.w, b.x) + fx_mul(a.x, b.w) + fx_mul(a.y, b.z) - fx_mul(a.z, b.y),
        y: fx_mul(a.w, b.y) - fx_mul(a.x, b.z) + fx_mul(a.y, b.w) + fx_mul(a.z, b.x),
        z: fx_mul(a.w, b.z) + fx_mul(a.x, b.y) - fx_mul(a.y, b.x) + fx_mul(a.z, b.w),
        w: fx_mul(a.w, b.w) - fx_mul(a.x, b.x) - fx_mul(a.y, b.y) - fx_mul(a.z, b.z),
    }
}

/// The intermediate results of the Hamilton product, in the order the
/// executable code forms them.
pub open spec fn q_mul_fits(a: QV, b: QV) -> bool {
    &&& fits(fx_mul(a.w, b.x)) && fits(fx_mul(a.x, b.w)) && fits(fx_mul(a.y, b.z)) && fits(
        fx_mul(a.z, b.y),
    )
    &&& fits(fx_mul(a.w, b.x) + fx_mul(a.x, b.w))
    &&& fits(fx_mul(a.w, b.x) + fx_mul(a.x, b.w) + fx_mul(a.y, b.z))
    &&& fits(q_mul(a, b).x)
    &&& fits(fx_mul(a.w, b.y)) && fits(fx_mul(a.x, b.z)) && fits(fx_mul(a.y, b.w)) && fits(
        fx_mul(a.z, b.x),
    )
    &&& fits(fx_mul(a.w, b.y) - fx_mul(a.x, b.z))
    &&& fits(fx_mul(a.w, b.y) - fx_mul(a.x, b.z) + fx_mul(a.y, b.w))
    &&& fits(q_mul(a, b).y)
    &&& fits(fx_mul(a.w, b.z)) && fits(fx_mul(a.x, b.y)) && fits(fx_mul(a.y, b.x)) && fits(
        fx_mul(a.z, b.w),
    )
    &&& fits(fx_mul(a.w, b.z) + fx_mul(a.x, b.y))
    &&& fits(fx_mul(a.w, b.z) + fx_mul(a.x, b.y) - fx_mul(a.y, b.x))
    &&& fits(q_mul(a, b).z)
    &&& fits(fx_mul(a.w, b.w)) && fits(fx_mul(a.x, b.x)) && fits(fx_mul(a.y, b.y)) && fits(
        fx_mul(a.z, b.z),
    )
    &&& fits(fx_mul(a.w, b.w) - fx_mul(a.x, b.x))
    &&& fits(fx_mul(a.w, b.w) - fx_mul(a.x, b.x) - fx_mul(a.y, b.y))
    &&& fits(q_mul(a, b).w)
}

/// The vector part of a quaternion.
pub open spec fn qv_vec(q: QV) -> V3 {
    V3 { x: q.x, y: q.y, z: q.z }
}

/// A point rotated by a quaternion, by conjugation.
pub open spec fn q_rotate(q: QV, v: V3) -> V3 {
    let b = qv_vec(q);
    let s1 = fx_mul(q.w, q.w) - v3_dot(b, b);
    let k2 = v3_dot(v, b) + v3_dot(v, b);
    let w2 = q.w + q.w;
    v3_add(v3_add(v3_scale(v, s1), v3_scale(b, k2)), v3_scale(v3_cross(b, v), w2))
}

/// The intermediate results of the rotation, in the order the executable
/// code forms them.
pub open spec fn q_rotate_fits(q: QV, v: V3) -> bool {
    let b = qv_vec(q);
    let s1 = fx_mul(q.w, q.w) - v3_dot(b, b);
    let k2 = v3_dot(v, b) + v3_dot(v, b);
    let w2 = q.w + q.w;
    &&& fits(fx_mul(q.w, q.w)) && v3_dot_fits(b, b) && fits(s1)
    &&& v3_dot_fits(v, b) && fits(k2)
    &&& fits(w2)
    &&& v3_scale_fits(v, s1) && v3_scale_fits(b, k2)
    &&& v3_cross_fits(b, v) && v3_scale_fits(v3_cross(b, v), w2)
    &&& v3_add_fits(v3_scale(v, s1), v3_scale(b, k2))
    &&& v3_add_fits(v3_add(v3_scale(v, s1), v3_scale(b, k2)), v3_scale(v3_cross(b, v), w2))
}

/// Every component's magnitude at most `k`.
pub open spec fn qv_bounded(q: QV, k: int) -> bool {
    iabs(q.x) <= k && iabs(q.y) <= k && iabs(q.z) <= k && iabs(q.w) <= k
}

/// Two quaternions with moderately bounded components multiply without
/// overflow, and the product's components obey the combined bound.
#[verifier::rlimit(80)]
pub proof fn lemma_q_mul_bounded(a: QV, b: QV, ka: int, kb: int)
    requires
        qv_bounded(a, ka),
        qv_bounded(b, kb),
        0 <= ka <= 0x4000_0000,
        0 <= kb <= 0x4000_0000,
    ensures
        q_mul_fits(a, b),
        qv_bounded(q_mul(a, b), 4 * ((ka * kb) / 65536)),
{
    assert(ka * kb <= 0x1000_0000_0000_0000) by (nonlinear_arith)
        requires
            0 <= ka <= 0x4000_0000,
            0 <= kb <= 0x4000_0000,
    ;
    lemma_fx_mul_bound(a.w, b.x, ka, kb);
    lemma_fx_mul_bound(a.x, b.w, ka, kb);
    lemma_fx_mul_bound(a.y, b.z, ka, kb);
    lemma_fx_mul_bound(a.z, b.y, ka, kb);
    lemma_fx_mul_bound(a.w, b.y, ka, kb);
    lemma_fx_mul_bound(a.x, b.z, ka, kb);
    lemma_fx_mul_bound(a.y, b.w, ka, kb);
    lemma_fx_mul_bound(a.z, b.x, ka, kb);
    lemma_fx_mul_bound(a.w, b.z, ka, kb);
    lemma_fx_mul_bound(a.x, b.y, ka, kb);
    lemma_fx_mul_bound(a.y, b.x, ka, kb);
    lemma_fx_mul_bound(a.z, b.w, ka, kb);
    lemma_fx_mul_bound(a.w, b.w, ka, kb);
    lemma_fx_mul_bound(a.x, b.x, ka, kb);
    lemma_fx_mul_bound(a.y, b.y, ka, kb);
    lemma_fx_mul_bound(a.z, b.z, ka, kb);
}

/// The quaternion for the rotation sequence about the x, then y, then z
/// axis by the given angles: the product of the three axis rotations, each
/// built from the half-angle sine and cosine.
pub open spec fn q_from_euler(e: V3) -> QV {
    let qx = QV { x: fx_sin(fx_mul(e.x, 32768)), y: 0, z: 0, w: fx_cos(fx_mul(e.x, 32768)) };
    let qy = QV { x: 0, y: fx_sin(fx_mul(e.y, 32768)), z: 0, w: fx_cos(fx_mul(e.y, 32768)) };
    let qz = QV { x: 0, y: 0, z: fx_sin(fx_mul(e.z, 32768)), w: fx_cos(fx_mul(e.z, 32768)) };
    q_mul(q_mul(qx, qy), qz)
}

/// The quaternion of the rotation matrix whose columns are the
/// orthonormal basis `right, up, forward`, by the classic
/// largest-pivot method: the branch keyed on the trace (or the largest
/// diagonal entry) keeps the square-root argument at least one.
/// Entry `m{row}{col}` of the matrix is component `row` of column `col`.
pub open spec fn q_from_basis(r: V3, u: V3, f: V3) -> QV {
    let trace = r.x + u.y + f.z;
    if trace > 0 {
        let s = fx_sqrt(trace + 65536);
        QV {
            x: fx_div(u.z - f.y, s + s),
            y: fx_div(f.x - r.z, s + s),
            z: fx_div(r.y - u.x, s + s),
            w: fx_mul(s, 32768),
        }
    } else if r.x >= u.y && r.x >= f.z {
        let s = fx_sqrt(65536 + r.x - u.y - f.z);
        QV {
            x: fx_mul(s, 32768),
            y: fx_div(u.x + r.y, s + s),
            z: fx_div(f.x + r.z, s + s),
            w: fx_div(u.z - f.y, s + s),
        }
    } else if u.y >= f.z {
        let s = fx_sqrt(65536 + u.y - r.x - f.z);
        QV {
            x: fx_div(u.x + r.y, s + s),
            y: fx_mul(s, 32768),
            z: fx_div(f.y + u.z, s + s),
            w: fx_div(f.x - r.z, s + s),
        }
    } else {
        let s = fx_sqrt(65536 + f.z - r.x - u.y);
        QV {
            x: fx_div(f.x + r.z, s + s),
            y: fx_div(f.y + u.z, s + s),
            z: fx_mul(s, 32768),
            w: fx_div(r.y - u.x, s + s),
        }
    }
}

/// The sums and differences of basis entries the conversion forms.
pub open spec fn from_basis_fits(r: V3, u: V3, f: V3) -> bool {
    &&& fits(r.x + u.y) && fits(r.x + u.y + f.z) && fits(r.x + u.y + f.z + 65536)
    &&& fits(65536 + r.x) && fits(65536 + r.x - u.y) && fits(65536 + r.x - u.y - f.z)
    &&& fits(65536 + u.y) && fits(65536 + u.y - r.x) && fits(65536 + u.y - r.x - f.z)
    &&& fits(65536 + f.z) && fits(65536 + f.z - r.x) && fits(65536 + f.z - r.x - u.y)
    &&& fits(u.z - f.y) && fits(f.x - r.z) && fits(r.y - u.x)
    &&& fits(u.x + r.y) && fits(f.x + r.z) && fits(f.y + u.z)
}

/// A quaternion of four fixed-point scalars.
#[derive(Clone, Copy, Debug, PartialEq, Eq, Structural)]
pub struct Quaternion {
    pub x: Fx,
    pub y: Fx,
    pub z: Fx,
    pub w: Fx,
}

impl View for Quaternion {
    type V = QV;

    open spec fn view(&self) -> QV {
        QV { x: self.x@, y: self.y@, z: self.z@, w: self.w@ }
    }
}

impl Quaternion {
    /// The identity rotation.
    pub fn identity() -> (r: Quaternion)
        ensures
            r@ == qv_identity(),
    {
        Quaternion { x: Fx::zero(), y: Fx::zero(), z: Fx::zero(), w: Fx::one() }
    }

    /// Build a quaternion from four scalars.
    pub fn new(x: Fx, y: Fx, z: Fx, w: Fx) -> (r: Quaternion)
        ensures
            r@ == (QV { x: x@, y: y@, z: z@, w: w@ }),
    {
        Quaternion { x, y, z, w }
    }

    /// The conjugate rotation (the inverse, for a unit quaternion).
    pub fn conjugate(self) -> (r: Quaternion)
        requires
            qv_fits(self@),
        ensures
            r@ == q_conjugate(self@),
    {
        Quaternion { x: self.x.neg(), y: self.y.neg(), z: self.z.neg(), w: self.w }
    }

    /// Hamilton product: the rotation `self` followed in composition order
    /// by `o` (acting as `self` applied after `o` on column vectors).
    pub fn mul(self, o: Quaternion) -> (r: Quaternion)
        requires
            q_mul_fits(self@, o@),
        ensures
            r@ == q_mul(self@, o@),
    {
        let x = self.w.mul(o.x).add(self.x.mul(o.w)).add(self.y.mul(o.z)).sub(self.z.mul(o.y));
        let y = self.w.mul(o.y).sub(self.x.mul(o.z)).add(self.y.mul(o.w)).add(self.z.mul(o.x));
        let z = self.w.mul(o.z).add(self.x.mul(o.y)).sub(self.y.mul(o.x)).add(self.z.mul(o.w));
        let w = self.w.mul(o.w).sub(self.x.mul(o.x)).sub(self.y.mul(o.y)).sub(self.z.mul(o.z));
        Quaternion { x, y, z, w }
    }

    /// The rotation about the x, then y, then z axis by the given Euler
    /// angles (radians).
    pub fn from_euler(e: Vec3) -> (r: Quaternion)
        requires
            v3_fits_all(e@),
        ensures
            r@ == q_from_euler(e@),
    {
        let half = Fx { raw: 32768 };
        proof {
            lemma_fx_mul_bound(e.x@, 32768, 0x7fff_ffff_ffff_ffff, 32768);
            lemma_fx_mul_bound(e.y@, 32768, 0x7fff_ffff_ffff_ffff, 32768);
            lemma_fx_mul_bound(e.z@, 32768, 0x7fff_ffff_ffff_ffff, 32768);
        }
        let hx = e.x.mul(half);
        let hy = e.y.mul(half);
        let hz = e.z.mul(half);
        let qx = Quaternion::new(hx.sin(), Fx::zero(), Fx::zero(), hx.cos());
        let qy = Quaternion::new(Fx::zero(), hy.sin(), Fx::zero(), hy.cos());
        let qz = Quaternion::new(Fx::zero(), Fx::zero(), hz.sin(), hz.cos());
        proof {
            lemma_sin_bound(hx@);
            lemma_cos_bound(hx@);
            lemma_sin_bound(hy@);
            lemma_cos_bound(hy@);
            lemma_sin_bound(hz@);
            lemma_cos_bound(hz@);
            lemma_q_mul_bounded(qx@, qy@, 151000, 151000);
            lemma_q_mul_bounded(q_mul(qx@, qy@), qz@, 4 * ((151000int * 151000) / 65536), 151000);
        }
        qx.mul(qy).mul(qz)
    }

    /// The rotation whose matrix has the given orthonormal columns
    /// `right, up, forward`.
    pub fn from_basis(right: Vec3, up: Vec3, forward: Vec3) -> (res: Quaternion)
        requires
            from_basis_fits(right@, up@, forward@),
        ensures
            res@ == q_from_basis(right@, up@, forward@),
    {
        let one = Fx { raw: 65536 };
        let half = Fx { raw: 32768 };
        let trace = right.x.add(up.y).add(forward.z);
        if trace.raw > 0 {
            let arg = trace.add(one);
            proof {
                lemma_fx_sqrt_at_least(arg@, 65536);
            }
            let s = arg.sqrt();
            let s2 = s.add(s);
            proof {
                lemma_fx_div_bound(up.z@ - forward.y@, s2@);
                lemma_fx_div_bound(forward.x@ - right.z@, s2@);
                lemma_fx_div_bound(right.y@ - up.x@, s2@);
                lemma_fx_mul_bound(s@, 32768, 0x100_0000_0000, 32768);
            }
            Quaternion {
                x: up.z.sub(forward.y).div(s2),
                y: forward.x.sub(right.z).div(s2),
                z: right.y.sub(up.x).div(s2),
                w: s.mul(half),
            }
        } else if !right.x.lt(up.y) && !right.x.lt(forward.z) {
            let arg = one.add(right.x).sub(up.y).sub(forward.z);
            proof {
                lemma_fx_sqrt_at_least(arg@, 65536);
            }
            let s = arg.sqrt();
            let s2 = s.add(s);
            proof {
                lemma_fx_div_bound(up.x@ + right.y@, s2@);
                lemma_fx_div_bound(forward.x@ + right.z@, s2@);
                lemma_fx_div_bound(up.z@ - forward.y@, s2@);
                lemma_fx_mul_bound(s@, 32768, 0x100_0000_0000, 32768);
            }
            Quaternion {
                x: s.mul(half),
                y: up.x.add(right.y).div(s2),
                z: forward.x.add(right.z).div(s2),
                w: up.z.sub(forward.y).div(s2),
            }
        } else if !up.y.lt(forward.z) {
            let arg = one.add(up.y).sub(right.x).sub(forward.z);
            proof {
                lemma_fx_sqrt_at_least(arg@, 65536);
            }
            let s = arg.sqrt();
            let s2 = s.add(s);
            proof {
                lemma_fx_div_bound(up.x@ + right.y@, s2@);
                lemma_fx_div_bound(forward.y@ + up.z@, s2@);
                lemma_fx_div_bound(forward.x@ - right.z@, s2@);
                lemma_fx_mul_bound(s@, 32768, 0x100_0000_0000, 32768);
            }
            Quaternion {
                x: up.x.add(right.y).div(s2),
                y: s.mul(half),
                z: forward.y.add(up.z).div(s2),
                w: forward.x.sub(right.z).div(s2),
            }
        } else {
            let arg = one.add(forward.z).sub(right.x).sub(up.y);
            proof {
                lemma_fx_sqrt_at_least(arg@, 65536);
            }
            let s = arg.sqrt();
            let s2 = s.add(s);
            proof {
                lemma_fx_div_bound(forward.x@ + right.z@, s2@);
                lemma_fx_div_bound(forward.y@ + up.z@, s2@);
                lemma_fx_div_bound(right.y@ - up.x@, s2@);
                lemma_fx_mul_bound(s@, 32768, 0x100_0000_0000, 32768);
            }
            Quaternion {
                x: forward.x.add(right.z).div(s2),
                y: forward.y.add(up.z).div(s2),
                z: s.mul(half),
                w: right.y.sub(up.x).div(s2),
            }
        }
    }

    /// The vector part as a `Vec3`.
    pub fn vec_part(self) -> (r: Vec3)
        ensures
            r@ == qv_vec(self@),
    {
        Vec3 { x: self.x, y: self.y, z: self.z }
    }

    /// Rotate a point by this quaternion.
    pub fn rotate(self, v: Vec3) -> (r: Vec3)
        requires
            q_rotate_fits(self@, v@),
        ensures
            r@ == q_rotate(self@, v@),
    {
        let b = self.vec_part();
        let s1 = self.w.mul(self.w).sub(b.dot(b));
        let k = v.dot(b);
        let k2 = k.add(k);
        let w2 = self.w.add(self.w);
        let term1 = v.scale(s1);
        let term2 = b.scale(k2);
        let term3 = b.cross(v).scale(w2);
        term1.add(term2).add(term3)
    }
}

} // verus!
