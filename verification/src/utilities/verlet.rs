//! A velocity-Verlet particle integrator with damping.

use vstd::prelude::*;
use crate::fixed::Fx;
use crate::vec3::{
    v3_add, v3_add_fits, v3_div_s, v3_div_s_fits, v3_scale, v3_scale_fits, Vec3, V3,
};

verus! {

/// Mathematical view of a particle.
#[verifier::ext_equal]
pub ghost struct VerletV {
    pub mass: int,
    pub position: V3,
    pub prev_position: V3,
    pub vel: V3,
    pub acceleration: V3,
    pub force: V3,
}

/// A point mass integrated step by step: forces accumulate into `force`
/// and one `update` turns them into acceleration, position and damped
/// velocity.
#[derive(Clone, Copy, Debug, PartialEq, Eq, Structural)]
pub struct Verlet {
    pub mass: Fx,
    pub position: Vec3,
    pub prev_position: Vec3,
    pub vel: Vec3,
    acceleration: Vec3,
    pub force: Vec3,
}

impl View for Verlet {
    type V = VerletV;

    closed spec fn view(&self) -> VerletV {
        VerletV {
            mass: self.mass@,
            position: self.position@,
            prev_position: self.prev_position@,
            vel: self.vel@,
            acceleration: self.acceleration@,
            force: self.force@,
        }
    }
}

/// The particle after one step of length `dt`: acceleration is
/// `force / mass`, the position advances by `vel*dt + 0.5*acc*dt*dt`, the
/// velocity by the averaged acceleration, damped by the factor `0.98`,
/// and the accumulated force is consumed.
pub open spec fn spec_verlet_update(v: VerletV, dt: int) -> VerletV {
    let acc = v3_div_s(v.force, v.mass);
    let pos = v3_add(
        v.position,
        v3_add(
            v3_scale(v.vel, dt),
            v3_scale(v3_scale(v3_scale(acc, 32768), dt), dt),
        ),
    );
    let vel = v3_scale(
        v3_add(v.vel, v3_scale(v3_scale(v3_add(acc, acc), 32768), dt)),
        64225,
    );
    VerletV {
        mass: v.mass,
        position: pos,
        prev_position: v.prev_position,
        vel,
        acceleration: acc,
        force: (V3 { x: 0, y: 0, z: 0 }),
    }
}

pub open spec fn verlet_update_fits(v: VerletV, dt: int) -> bool {
    let acc = v3_div_s(v.force, v.mass);
    let half_acc_step = v3_scale(v3_scale(v3_scale(acc, 32768), dt), dt);
    let vel_step = v3_scale(v3_scale(v3_add(acc, acc), 32768), dt);
    &&& v3_div_s_fits(v.force, v.mass)
    &&& v3_scale_fits(v.vel, dt)
    &&& v3_scale_fits(acc, 32768)
    &&& v3_scale_fits(v3_scale(acc, 32768), dt)
    &&& v3_scale_fits(v3_scale(v3_scale(acc, 32768), dt), dt)
    &&& v3_add_fits(v3_scale(v.vel, dt), half_acc_step)
    &&& v3_add_fits(v.position, v3_add(v3_scale(v.vel, dt), half_acc_step))
    &&& v3_add_fits(acc, acc)
    &&& v3_scale_fits(v3_add(acc, acc), 32768)
    &&& v3_scale_fits(v3_scale(v3_add(acc, acc), 32768), dt)
    &&& v3_add_fits(v.vel, vel_step)
    &&& v3_scale_fits(v3_add(v.vel, vel_step), 64225)
}

impl Verlet {
    /// A particle of the given mass, at the given position (the origin
    /// when none is given), at rest with no accumulated force.
    pub fn new(mass: Fx, position: Option<Vec3>) -> (r: Verlet)
        ensures
            r@ == (VerletV {
                mass: mass@,
                position: match position {
                    Option::Some(p) => p@,
                    Option::None => (V3 { x: 0, y: 0, z: 0 }),
                },
                prev_position: match position {
                    Option::Some(p) => p@,
                    Option::None => (V3 { x: 0, y: 0, z: 0 }),
                },
                vel: (V3 { x: 0, y: 0, z: 0 }),
                acceleration: (V3 { x: 0, y: 0, z: 0 }),
                force: (V3 { x: 0, y: 0, z: 0 }),
            }),
    {
        let pos = match position {
            Some(p) => p,
            None => Vec3::zero(),
        };
        Verlet {
            mass,
            position: pos,
            prev_position: pos,
            vel: Vec3::zero(),
            acceleration: Vec3::zero(),
            force: Vec3::zero(),
        }
    }

    /// Advance the particle by one step of length `dt`.
    pub fn update(&mut self, dt: Fx)
        requires
            verlet_update_fits(old(self)@, dt@),
        ensures
            final(self)@ == spec_verlet_update(old(self)@, dt@),
    {
        let half = Fx { raw: 32768 };
        let damping = Fx { raw: 64225 };
        self.acceleration = self.force.div_s(self.mass);

        self.position = self.position.add(
            self.vel.scale(dt).add(self.acceleration.scale(half).scale(dt).scale(dt)),
        );

        let new_acceleration = self.force.div_s(self.mass);

        self.vel = self.vel.add(
            self.acceleration.add(new_acceleration).scale(half).scale(dt),
        ).scale(damping);

        self.force = Vec3::zero();
    }
}

} // verus!
