use vstd::prelude::*;

use crate::error::ConfigError;
use crate::vec3::{
    clampi, integrate, pos_after, v3_in, vel_after, Vec3, ACCEL_LIMIT, COORD_LIMIT, DT_LIMIT,
    MASS_LIMIT,
};

verus! {

/// A gravity-generating body: it attracts every other celestial body and
/// every spacecraft, and is itself attracted by the other celestial bodies.
#[derive(Clone, Debug)]
pub struct Celestial {
    pub name: String,
    /// Mass in kilograms; positive.
    pub mass: i128,
    /// Position in micrometres.
    pub pos: Vec3,
    /// Velocity in nanometres per second.
    pub vel: Vec3,
    /// Radius in micrometres; non-negative.
    pub rad: i128,
}

impl Celestial {
    /// The fixed-point ranges every celestial body must stay within.
    pub open spec fn wf(&self) -> bool {
        &&& 0 < self.mass <= MASS_LIMIT
        &&& v3_in(self.pos@, COORD_LIMIT as int)
        &&& v3_in(self.vel@, COORD_LIMIT as int)
        &&& 0 <= self.rad <= COORD_LIMIT
    }

    /// Two celestial bodies agree on every field (string fields compared by
    /// contents).
    pub open spec fn like(&self, other: &Celestial) -> bool {
        &&& self.name@ == other.name@
        &&& self.mass == other.mass
        &&& self.pos == other.pos
        &&& self.vel == other.vel
        &&& self.rad == other.rad
    }

    /// Construct a celestial body, rejecting a non-positive mass and any
    /// parameter outside the representable range.
    pub fn new(name: String, mass: i128, pos: Vec3, vel: Vec3, rad: i128) -> (r: Result<
        Celestial,
        ConfigError,
    >)
        ensures
            mass <= 0 <==> r == Err::<Celestial, ConfigError>(ConfigError::NonPositiveMass),
            r matches Ok(c) ==> {
                &&& c.wf()
                &&& c.name@ == name@
                &&& c.mass == mass
                &&& c.pos == pos
                &&& c.vel == vel
                &&& c.rad == rad
            },
            r is Ok <==> {
                &&& 0 < mass <= MASS_LIMIT
                &&& v3_in(pos@, COORD_LIMIT as int)
                &&& v3_in(vel@, COORD_LIMIT as int)
                &&& 0 <= rad <= COORD_LIMIT
            },
    {
        if mass <= 0 {
            return Err(ConfigError::NonPositiveMass);
        }
        if mass > MASS_LIMIT || rad < 0 || rad > COORD_LIMIT || !bounded(&pos) || !bounded(&vel) {
            return Err(ConfigError::OutOfRange);
        }
        Ok(Celestial { name, mass, pos, vel, rad })
    }

    /// An identical body (string fields cloned).
    pub fn duplicate(&self) -> (r: Celestial)
        ensures
            r.like(self),
    {
        Celestial {
            name: self.name.clone(),
            mass: self.mass,
            pos: self.pos,
            vel: self.vel,
            rad: self.rad,
        }
    }

    pub fn name(&self) -> (r: String)
        ensures
            r@ == self.name@,
    {
        self.name.clone()
    }

    pub fn pos(&self) -> (r: Vec3)
        ensures
            r == self.pos,
    {
        self.pos
    }

    pub fn set_pos(&mut self, pos: Vec3)
        ensures
            final(self).pos == pos,
            final(self).name@ == old(self).name@,
            final(self).mass == old(self).mass,
            final(self).vel == old(self).vel,
            final(self).rad == old(self).rad,
    {
        self.pos = pos;
    }

    pub fn vel(&self) -> (r: Vec3)
        ensures
            r == self.vel,
    {
        self.vel
    }

    pub fn mass(&self) -> (r: i128)
        ensures
            r == self.mass,
    {
        self.mass
    }

    pub fn rad(&self) -> (r: i128)
        ensures
            r == self.rad,
    {
        self.rad
    }

    /// Double the y-component of the velocity (clamped into the coordinate
    /// box): the behaviour behind the `speedup` event.
    pub fn speedup(&mut self)
        requires
            old(self).wf(),
        ensures
            final(self).vel@.y == clampi(2 * old(self).vel@.y, COORD_LIMIT as int),
            final(self).vel@.x == old(self).vel@.x,
            final(self).vel@.z == old(self).vel@.z,
            final(self).pos == old(self).pos,
            final(self).name@ == old(self).name@,
            final(self).mass == old(self).mass,
            final(self).rad == old(self).rad,
            final(self).wf(),
    {
        let doubled: i128 = 2 * self.vel.y;
        self.vel = Vec3 {
            x: self.vel.x,
            y: crate::vec3::clamp_i128(doubled, COORD_LIMIT),
            z: self.vel.z,
        };
    }

    /// One semi-implicit Euler step under the given acceleration: the
    /// velocity moves by `acceleration * dt` first, and the position then
    /// moves with the updated velocity.
    pub fn apply_gravity(&mut self, acceleration: Vec3, delta_t: u64)
        requires
            old(self).wf(),
            v3_in(acceleration@, ACCEL_LIMIT as int),
            delta_t <= DT_LIMIT,
        ensures
            final(self).vel@ == vel_after(old(self).vel@, acceleration@, delta_t as int),
            final(self).pos@ == pos_after(
                old(self).pos@,
                vel_after(old(self).vel@, acceleration@, delta_t as int),
                delta_t as int,
            ),
            final(self).name@ == old(self).name@,
            final(self).mass == old(self).mass,
            final(self).rad == old(self).rad,
            final(self).wf(),
    {
        let (pos, vel) = integrate(self.pos, self.vel, acceleration, delta_t);
        self.pos = pos;
        self.vel = vel;
    }
}

/// Every component within the coordinate box.
pub fn bounded(v: &Vec3) -> (r: bool)
    ensures
        r == v3_in(v@, COORD_LIMIT as int),
{
    -COORD_LIMIT <= v.x && v.x <= COORD_LIMIT && -COORD_LIMIT <= v.y && v.y <= COORD_LIMIT
        && -COORD_LIMIT <= v.z && v.z <= COORD_LIMIT
}

} // verus!
