use vstd::prelude::*;

use crate::celestial::bounded;
use crate::error::ConfigError;
use crate::vec3::{
    clampi, integrate, pos_after, v3_in, vel_after, Vec3, ACCEL_LIMIT, COORD_LIMIT, DT_LIMIT,
    MASS_LIMIT,
};

verus! {

/// A massless test particle: pulled by every celestial body, generating no
/// gravity of its own.  Its mass is informational only.
#[derive(Clone, Debug)]
pub struct Spaceship {
    pub name: String,
    /// Mass in kilograms; positive, but never entering the dynamics.
    pub mass: i128,
    /// Position in micrometres.
    pub pos: Vec3,
    /// Velocity in nanometres per second.
    pub vel: Vec3,
}

impl Spaceship {
    /// The fixed-point ranges every spacecraft must stay within.
    pub open spec fn wf(&self) -> bool {
        &&& 0 < self.mass <= MASS_LIMIT
        &&& v3_in(self.pos@, COORD_LIMIT as int)
        &&& v3_in(self.vel@, COORD_LIMIT as int)
    }

    /// Two spacecraft agree on every field (string fields compared by
    /// contents).
    pub open spec fn like(&self, other: &Spaceship) -> bool {
        &&& self.name@ == other.name@
        &&& self.mass == other.mass
        &&& self.pos == other.pos
        &&& self.vel == other.vel
    }

    /// Construct a spacecraft, rejecting a non-positive mass and any
    /// parameter outside the representable range.
    pub fn new(name: String, mass: i128, pos: Vec3, vel: Vec3) -> (r: Result<
        Spaceship,
        ConfigError,
    >)
        ensures
            mass <= 0 <==> r == Err::<Spaceship, ConfigError>(ConfigError::NonPositiveMass),
            r matches Ok(s) ==> {
                &&& s.wf()
                &&& s.name@ == name@
                &&& s.mass == mass
                &&& s.pos == pos
                &&& s.vel == vel
            },
            r is Ok <==> {
                &&& 0 < mass <= MASS_LIMIT
                &&& v3_in(pos@, COORD_LIMIT as int)
                &&& v3_in(vel@, COORD_LIMIT as int)
            },
    {
        if mass <= 0 {
            return Err(ConfigError::NonPositiveMass);
        }
        if mass > MASS_LIMIT || !bounded(&pos) || !bounded(&vel) {
            return Err(ConfigError::OutOfRange);
        }
        Ok(Spaceship { name, mass, pos, vel })
    }

    /// An identical spacecraft (string fields cloned).
    pub fn duplicate(&self) -> (r: Spaceship)
        ensures
            r.like(self),
    {
        Spaceship { name: self.name.clone(), mass: self.mass, pos: self.pos, vel: self.vel }
    }

    pub fn name(&self) -> (r: String)
        ensures
            r@ == self.name@,
    {
        self.name.clone()
    }

    pub fn pos(&self) -> (r: Vec3)
        ensures
            r == self.pos,
    {
        self.pos
    }

    pub fn mass(&self) -> (r: i128)
        ensures
            r == self.mass,
    {
        self.mass
    }

    pub fn vel(&self) -> (r: Vec3)
        ensures
            r == self.vel,
    {
        self.vel
    }

    /// One semi-implicit Euler step under the given acceleration.
    pub fn apply_gravity(&mut self, acceleration: Vec3, delta_t: u64)
        requires
            old(self).wf(),
            v3_in(acceleration@, ACCEL_LIMIT as int),
            delta_t <= DT_LIMIT,
        ensures
            final(self).vel@ == vel_after(old(self).vel@, acceleration@, delta_t as int),
            final(self).pos@ == pos_after(
                old(self).pos@,
                vel_after(old(self).vel@, acceleration@, delta_t as int),
                delta_t as int,
            ),
            final(self).name@ == old(self).name@,
            final(self).mass == old(self).mass,
            final(self).wf(),
    {
        let (pos, vel) = integrate(self.pos, self.vel, acceleration, delta_t);
        self.pos = pos;
        self.vel = vel;
    }

    /// Double the y-component of the velocity (clamped into the coordinate
    /// box): the behaviour behind the `speedup` event.
    pub fn speedup(&mut self)
        requires
            old(self).wf(),
        ensures
            final(self).vel@.y == clampi(2 * old(self).vel@.y, COORD_LIMIT as int),
            final(self).vel@.x == old(self).vel@.x,
            final(self).vel@.z == old(self).vel@.z,
            final(self).pos == old(self).pos,
            final(self).name@ == old(self).name@,
            final(self).mass == old(self).mass,
            final(self).wf(),
    {
        let doubled: i128 = 2 * self.vel.y;
        self.vel = Vec3 {
            x: self.vel.x,
            y: crate::vec3::clamp_i128(doubled, COORD_LIMIT),
            z: self.vel.z,
        };
    }
}

} // verus!
