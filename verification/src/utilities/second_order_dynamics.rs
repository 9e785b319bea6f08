//! A second-order dynamics smoother: the output position `y` follows an
//! input position with tunable frequency, damping and response.

use vstd::prelude::*;
use crate::fixed::{fits, fx_div, fx_mul, Fx};
use crate::vec3::{
    v3_add, v3_add_fits, v3_div_s, v3_div_s_fits, v3_scale, v3_scale_fits, v3_sub, v3_sub_fits,
    Vec3, V3,
};

verus! {

/// Mathematical view of the smoother's state.
#[verifier::ext_equal]
pub ghost struct SodV {
    pub xp: V3,
    pub y: V3,
    pub yd: V3,
    pub k1: int,
    pub k2: int,
    pub k3: int,
    pub force: V3,
}

/// Second-order dynamics state: `y` is the smoothed output, `force` an
/// extra acceleration accumulated between steps.
#[derive(Clone, Copy, Debug, PartialEq, Eq, Structural)]
pub struct SecondOrderDynamics {
    xp: Vec3,
    pub y: Vec3,
    yd: Vec3,
    k1: Fx,
    k2: Fx,
    k3: Fx,
    pub force: Vec3,
}

impl View for SecondOrderDynamics {
    type V = SodV;

    closed spec fn view(&self) -> SodV {
        SodV {
            xp: self.xp@,
            y: self.y@,
            yd: self.yd@,
            k1: self.k1@,
            k2: self.k2@,
            k3: self.k3@,
            force: self.force@,
        }
    }
}

/// The constants derived from frequency `f`, damping `z` and response
/// time `r`: `k1 = z/(pi f)`, `k2 = 1/(2 pi f)^2`, `k3 = r z/(2 pi f)`.
pub open spec fn sod_k1(f: int, z: int) -> int {
    fx_div(z, fx_mul(205887, f))
}

pub open spec fn sod_k2(f: int) -> int {
    fx_div(65536, fx_mul(fx_mul(411774, f), fx_mul(411774, f)))
}

pub open spec fn sod_k3(f: int, z: int, r: int) -> int {
    fx_div(fx_mul(r, z), fx_mul(411774, f))
}

/// The denominators of the constants must not vanish (a frequency whose
/// product with pi rounds to zero is out of range), and the products must
/// be representable.
pub open spec fn sod_new_fits(f: int, z: int, r: int) -> bool {
    &&& fx_mul(205887, f) != 0
    &&& fx_mul(411774, f) != 0
    &&& fx_mul(fx_mul(411774, f), fx_mul(411774, f)) != 0
    &&& fits(fx_mul(205887, f)) && fits(sod_k1(f, z))
    &&& fits(fx_mul(411774, f)) && fits(fx_mul(fx_mul(411774, f), fx_mul(411774, f))) && fits(
        sod_k2(f),
    )
    &&& fits(fx_mul(r, z)) && fits(sod_k3(f, z, r))
}

/// The stabilized inertia constant for a step of length `t`:
/// `max(k2, t*t/2 + t*k1/2)`.
pub open spec fn sod_k2_stable(s: SodV, t: int) -> int {
    let a = fx_div(fx_mul(t, t), 131072);
    let b = fx_div(fx_mul(t, s.k1), 131072);
    if s.k2 >= a + b {
        s.k2
    } else {
        a + b
    }
}

/// The input velocity for a step: the given one, or the difference
/// quotient of the input positions.
pub open spec fn sod_xd(s: SodV, t: int, pos: V3, vel: Option<Vec3>) -> V3 {
    match vel {
        Option::Some(v) => v@,
        Option::None => v3_div_s(v3_sub(pos, s.xp), t),
    }
}

/// One smoothing step of length `t` toward input position `pos`: `y`
/// advances by `t*yd`, then `yd` by the second-order update with the
/// accumulated force, which is consumed.  A zero `t` changes nothing.
pub open spec fn spec_sod_update(s: SodV, t: int, pos: V3, vel: Option<Vec3>) -> SodV {
    if t == 0 {
        s
    } else {
        let xd = sod_xd(s, t, pos, vel);
        let k2s = sod_k2_stable(s, t);
        let y = v3_add(s.y, v3_scale(s.yd, t));
        let inner = v3_sub(v3_sub(v3_add(pos, v3_scale(xd, s.k3)), y), v3_scale(s.yd, s.k1));
        let yd = v3_add(s.yd, v3_scale(v3_add(v3_div_s(inner, k2s), s.force), t));
        SodV {
            xp: pos,
            y,
            yd,
            k1: s.k1,
            k2: s.k2,
            k3: s.k3,
            force: (V3 { x: 0, y: 0, z: 0 }),
        }
    }
}

pub open spec fn sod_update_fits(s: SodV, t: int, pos: V3, vel: Option<Vec3>) -> bool {
    t != 0 ==> {
        let xd = sod_xd(s, t, pos, vel);
        let k2s = sod_k2_stable(s, t);
        let y = v3_add(s.y, v3_scale(s.yd, t));
        let inner = v3_sub(v3_sub(v3_add(pos, v3_scale(xd, s.k3)), y), v3_scale(s.yd, s.k1));
        &&& (vel is None ==> v3_sub_fits(pos, s.xp) && v3_div_s_fits(v3_sub(pos, s.xp), t))
        &&& fits(fx_mul(t, t)) && fits(fx_div(fx_mul(t, t), 131072))
        &&& fits(fx_mul(t, s.k1)) && fits(fx_div(fx_mul(t, s.k1), 131072))
        &&& fits(fx_div(fx_mul(t, t), 131072) + fx_div(fx_mul(t, s.k1), 131072))
        &&& v3_scale_fits(s.yd, t)
        &&& v3_add_fits(s.y, v3_scale(s.yd, t))
        &&& v3_scale_fits(xd, s.k3)
        &&& v3_add_fits(pos, v3_scale(xd, s.k3))
        &&& v3_sub_fits(v3_add(pos, v3_scale(xd, s.k3)), y)
        &&& v3_scale_fits(s.yd, s.k1)
        &&& v3_sub_fits(v3_sub(v3_add(pos, v3_scale(xd, s.k3)), y), v3_scale(s.yd, s.k1))
        &&& v3_div_s_fits(inner, k2s)
        &&& v3_add_fits(v3_div_s(inner, k2s), s.force)
        &&& v3_scale_fits(v3_add(v3_div_s(inner, k2s), s.force), t)
        &&& v3_add_fits(s.yd, v3_scale(v3_add(v3_div_s(inner, k2s), s.force), t))
    }
}

impl SecondOrderDynamics {
    /// A smoother with the given frequency, damping ratio and response
    /// time, starting at `pos0` with no velocity and no accumulated
    /// force.
    pub fn new(frequency: Fx, damping: Fx, response_time: Fx, pos0: Vec3) -> (r:
        SecondOrderDynamics)
        requires
            sod_new_fits(frequency@, damping@, response_time@),
        ensures
            r@ == (SodV {
                xp: pos0@,
                y: pos0@,
                yd: (V3 { x: 0, y: 0, z: 0 }),
                k1: sod_k1(frequency@, damping@),
                k2: sod_k2(frequency@),
                k3: sod_k3(frequency@, damping@, response_time@),
                force: (V3 { x: 0, y: 0, z: 0 }),
            }),
    {
        let pi = Fx { raw: 205887 };
        let two_pi_f = pi.add(pi).mul(frequency);
        let k1 = damping.div(pi.mul(frequency));
        let k2 = Fx::one().div(two_pi_f.mul(two_pi_f));
        let k3 = response_time.mul(damping).div(two_pi_f);
        SecondOrderDynamics {
            xp: pos0,
            y: pos0,
            yd: Vec3::zero(),
            k1,
            k2,
            k3,
            force: Vec3::zero(),
        }
    }

    /// One smoothing step of length `t` toward input position `pos`,
    /// with an optionally supplied input velocity; returns the new
    /// output position.  A zero step length changes nothing.
    pub fn update(&mut self, t: Fx, pos: Vec3, vel: Option<Vec3>) -> (r: Vec3)
        requires
            sod_update_fits(old(self)@, t@, pos@, vel),
        ensures
            final(self)@ == spec_sod_update(old(self)@, t@, pos@, vel),
            r@ == spec_sod_update(old(self)@, t@, pos@, vel).y,
    {
        if t.raw == 0 {
            return self.y;
        }
        let xd = match vel {
            Some(v) => v,
            None => pos.sub(self.xp).div_s(t),
        };
        self.xp = pos;

        let half_tt = t.mul(t).div(Fx { raw: 131072 });
        let half_tk1 = t.mul(self.k1).div(Fx { raw: 131072 });
        let k2_stable = self.k2.max(half_tt.add(half_tk1));

        self.y = self.y.add(self.yd.scale(t));
        let inner = pos.add(xd.scale(self.k3)).sub(self.y).sub(self.yd.scale(self.k1));
        self.yd = self.yd.add(inner.div_s(k2_stable).add(self.force).scale(t));

        self.force = Vec3::zero();
        self.y
    }
}

} // verus!
