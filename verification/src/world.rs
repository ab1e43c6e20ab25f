use vstd::prelude::*;
use vstd::string::StringExecFns;

use crate::celestial::{bounded, Celestial};
use crate::celestials::{
    accel_at, cels_like, cels_wf, lemma_accel_upto_congruent, Celestials,
};
use crate::error::ConfigError;
use crate::spaceship::Spaceship;
use crate::vec3::{pos_after, vel_after, Vec3, COORD_LIMIT, DT_LIMIT, MASS_LIMIT};

verus! {

/// Either kind of body, for uniform consumption by observers.
#[derive(Clone, Debug)]
pub enum Body {
    Celestial(Celestial),
    Spaceship(Spaceship),
}

pub open spec fn body_name(b: Body) -> Seq<char> {
    match b {
        Body::Celestial(c) => c.name@,
        Body::Spaceship(s) => s.name@,
    }
}

pub open spec fn body_pos(b: Body) -> Vec3 {
    match b {
        Body::Celestial(c) => c.pos,
        Body::Spaceship(s) => s.pos,
    }
}

/// `b` is a celestial variant agreeing with `c` on every field.
pub open spec fn is_cel_like(b: Body, c: Celestial) -> bool {
    match b {
        Body::Celestial(x) => x.like(&c),
        Body::Spaceship(_) => false,
    }
}

/// `b` is a spacecraft variant agreeing with `s` on every field.
pub open spec fn is_ship_like(b: Body, s: Spaceship) -> bool {
    match b {
        Body::Celestial(_) => false,
        Body::Spaceship(x) => x.like(&s),
    }
}

impl Body {
    pub fn pos(&self) -> (r: Vec3)
        ensures
            r == body_pos(*self),
    {
        match self {
            Body::Celestial(c) => c.pos,
            Body::Spaceship(s) => s.pos,
        }
    }

    pub fn name(&self) -> (r: String)
        ensures
            r@ == body_name(*self),
    {
        match self {
            Body::Celestial(c) => c.name(),
            Body::Spaceship(s) => s.name(),
        }
    }
}

/// All spacecraft are well-formed and their names are pairwise distinct.
pub open spec fn ships_wf(ss: Seq<Spaceship>) -> bool {
    &&& forall|i: int| 0 <= i < ss.len() ==> (#[trigger] ss[i]).wf()
    &&& forall|i: int, j: int|
        #![trigger ss[i].name@, ss[j].name@]
        0 <= i < j < ss.len() ==> ss[i].name@ != ss[j].name@
}

/// The celestial at index `i` of `src`, advanced by one tick: its
/// acceleration is taken from the frozen pre-tick sources `src` with
/// itself excluded by index, the velocity moves first, and the position
/// follows with the updated velocity.
pub open spec fn cel_stepped(c: Celestial, c2: Celestial, src: Seq<Celestial>, i: int, dt: int) -> bool {
    let a = accel_at(src, c.pos@, i);
    let nv = vel_after(c.vel@, a, dt);
    &&& c2.vel@ == nv
    &&& c2.pos@ == pos_after(c.pos@, nv, dt)
    &&& c2.name@ == c.name@
    &&& c2.mass == c.mass
    &&& c2.rad == c.rad
}

/// A spacecraft advanced by one tick: its acceleration is taken from the
/// frozen pre-tick sources `src` with nothing excluded.
pub open spec fn ship_stepped(s: Spaceship, s2: Spaceship, src: Seq<Celestial>, dt: int) -> bool {
    let a = accel_at(src, s.pos@, -1);
    let nv = vel_after(s.vel@, a, dt);
    &&& s2.vel@ == nv
    &&& s2.pos@ == pos_after(s.pos@, nv, dt)
    &&& s2.name@ == s.name@
    &&& s2.mass == s.mass
}

/// There is a spacecraft of this name in the sequence.
pub open spec fn has_ship_name(ss: Seq<Spaceship>, name: Seq<char>) -> bool {
    exists|i: int| 0 <= i < ss.len() && (#[trigger] ss[i]).name@ == name
}

/// `s2` is `s` with the y-velocity doubled (clamped) and all else equal.
pub open spec fn ship_sped(s: Spaceship, s2: Spaceship) -> bool {
    &&& s2.vel@.y == crate::vec3::clampi(2 * s.vel@.y, COORD_LIMIT as int)
    &&& s2.vel@.x == s.vel@.x
    &&& s2.vel@.z == s.vel@.z
    &&& s2.pos == s.pos
    &&& s2.name@ == s.name@
    &&& s2.mass == s.mass
}

/// `c2` is `c` with the y-velocity doubled (clamped) and all else equal.
pub open spec fn cel_sped(c: Celestial, c2: Celestial) -> bool {
    &&& c2.vel@.y == crate::vec3::clampi(2 * c.vel@.y, COORD_LIMIT as int)
    &&& c2.vel@.x == c.vel@.x
    &&& c2.vel@.z == c.vel@.z
    &&& c2.pos == c.pos
    &&& c2.name@ == c.name@
    &&& c2.mass == c.mass
    &&& c2.rad == c.rad
}

/// The name of the one event the driver knows how to apply.
pub fn speedup_event_name() -> (r: String)
    ensures
        r@ == "speedup"@,
{
    String::from_str("speedup")
}

/// Saturating addition within `u128`.
pub open spec fn sat_add_u128(a: int, b: int) -> int {
    if a + b > u128::MAX as int {
        u128::MAX as int
    } else {
        a + b
    }
}

/// The complete simulation state: gravity sources, spacecraft, the
/// measured tick rate, and the simulated time accumulated so far.
#[derive(Clone, Debug)]
pub struct World {
    pub celestials: Celestials,
    pub spaceships: Vec<Spaceship>,
    /// Ticks completed during the last measured wall-clock second.
    pub true_sim_fps: u32,
    /// Simulated time elapsed since construction, in microseconds.
    pub elapsed_us: u128,
}

impl World {
    pub open spec fn wf(&self) -> bool {
        &&& self.celestials.wf()
        &&& ships_wf(self.spaceships@)
    }

    /// Build a world from initial bodies, rejecting any ill-formed body
    /// and any name collision within either mapping before the simulation
    /// can start.
    pub fn new(celestials: Celestials, spaceships: Vec<Spaceship>) -> (r: Result<
        World,
        ConfigError,
    >)
        ensures
            r is Ok <==> cels_wf(celestials@) && ships_wf(spaceships@),
            r matches Ok(w) ==> {
                &&& w.celestials == celestials
                &&& w.spaceships == spaceships
                &&& w.true_sim_fps == 0
                &&& w.elapsed_us == 0
                &&& w.wf()
            },
            r == Err::<World, ConfigError>(ConfigError::NonPositiveMass) ==> (exists|i: int|
                0 <= i < celestials@.len() && (#[trigger] celestials@[i]).mass <= 0) || (exists|
                i: int,
            |
                0 <= i < spaceships@.len() && (#[trigger] spaceships@[i]).mass <= 0),
            r == Err::<World, ConfigError>(ConfigError::DuplicateName) ==> !(forall|i: int, j: int|
                #![trigger celestials@[i].name@, celestials@[j].name@]
                0 <= i < j < celestials@.len() ==> celestials@[i].name@ != celestials@[j].name@)
                || !(forall|i: int, j: int|
                #![trigger spaceships@[i].name@, spaceships@[j].name@]
                0 <= i < j < spaceships@.len() ==> spaceships@[i].name@ != spaceships@[j].name@),
    {
        let cn: usize = celestials.0.len();
        let mut i: usize = 0;
        while i < cn
            invariant
                cn == celestials@.len(),
                i <= cn,
                forall|k: int| 0 <= k < i ==> (#[trigger] celestials@[k]).wf(),
            decreases cn - i,
        {
            let c = &celestials.0[i];
            if c.mass <= 0 {
                return Err(ConfigError::NonPositiveMass);
            }
            if c.mass > MASS_LIMIT || c.rad < 0 || c.rad > COORD_LIMIT || !bounded(&c.pos)
                || !bounded(&c.vel) {
                return Err(ConfigError::OutOfRange);
            }
            i = i + 1;
        }
        let mut i: usize = 0;
        while i < cn
            invariant
                cn == celestials@.len(),
                i <= cn,
                forall|p: int, q: int|
                    #![trigger celestials@[p].name@, celestials@[q].name@]
                    0 <= p < q < celestials@.len() && p < i ==> celestials@[p].name@
                        != celestials@[q].name@,
            decreases cn - i,
        {
            let mut j: usize = i + 1;
            while j < cn
                invariant
                    cn == celestials@.len(),
                    i < j || i + 1 == j,
                    i < cn,
                    j <= cn,
                    forall|q: int|
                        i < q < j ==> (#[trigger] celestials@[q]).name@ != celestials@[i as int].name@,
                decreases cn - j,
            {
                if celestials.0[i].name == celestials.0[j].name {
                    return Err(ConfigError::DuplicateName);
                }
                j = j + 1;
            }
            i = i + 1;
        }
        let sn: usize = spaceships.len();
        let mut i: usize = 0;
        while i < sn
            invariant
                sn == spaceships@.len(),
                i <= sn,
                forall|k: int| 0 <= k < i ==> (#[trigger] spaceships@[k]).wf(),
            decreases sn - i,
        {
            let s = &spaceships[i];
            if s.mass <= 0 {
                return Err(ConfigError::NonPositiveMass);
            }
            if s.mass > MASS_LIMIT || !bounded(&s.pos) || !bounded(&s.vel) {
                return Err(ConfigError::OutOfRange);
            }
            i = i + 1;
        }
        let mut i: usize = 0;
        while i < sn
            invariant
                sn == spaceships@.len(),
                i <= sn,
                forall|p: int, q: int|
                    #![trigger spaceships@[p].name@, spaceships@[q].name@]
                    0 <= p < q < spaceships@.len() && p < i ==> spaceships@[p].name@
                        != spaceships@[q].name@,
            decreases sn - i,
        {
            let mut j: usize = i + 1;
            while j < sn
                invariant
                    sn == spaceships@.len(),
                    i < j || i + 1 == j,
                    i < sn,
                    j <= sn,
                    forall|q: int|
                        i < q < j ==> (#[trigger] spaceships@[q]).name@ != spaceships@[i as int].name@,
                decreases sn - j,
            {
                if spaceships[i].name == spaceships[j].name {
                    return Err(ConfigError::DuplicateName);
                }
                j = j + 1;
            }
            i = i + 1;
        }
        Ok(World { celestials, spaceships, true_sim_fps: 0, elapsed_us: 0 })
    }

    /// The stock world: the Sun/Earth/Moon system with the station.
    pub fn new_solar() -> (r: World)
        ensures
            r.wf(),
            r.celestials@.len() == 3,
            r.celestials@[0].name@ == "Sun"@,
            r.celestials@[1].name@ == "Earth"@,
            r.celestials@[1].pos == (Vec3 { x: 152_100_000_000_000_000, y: 0, z: 0 }),
            r.celestials@[2].name@ == "Moon"@,
            r.spaceships@.len() == 1,
            r.spaceships@[0].name@ == "ISS"@,
            r.spaceships@[0].pos == (Vec3 { x: 152_106_793_000_000_000, y: 0, z: 0 }),
            r.spaceships@[0].vel == (Vec3 { x: 0, y: 36_950_000_000_000, z: 0 }),
            r.true_sim_fps == 0,
            r.elapsed_us == 0,
    {
        let celestials = crate::config::new_solar();
        let mut spaceships: Vec<Spaceship> = Vec::new();
        spaceships.push(crate::config::iss());
        match World::new(celestials, spaceships) {
            Ok(w) => w,
            Err(_) => unreached(),
        }
    }

    /// All bodies as one list: celestial bodies first, then spacecraft,
    /// each in its collection's order.
    pub fn get_bodies(&self) -> (r: Vec<Body>)
        ensures
            r@.len() == self.celestials@.len() + self.spaceships@.len(),
            forall|i: int|
                0 <= i < self.celestials@.len() ==> is_cel_like(
                    #[trigger] r@[i],
                    self.celestials@[i],
                ),
            forall|i: int|
                self.celestials@.len() <= i < r@.len() ==> is_ship_like(
                    #[trigger] r@[i],
                    self.spaceships@[i - self.celestials@.len()],
                ),
    {
        let mut r: Vec<Body> = Vec::new();
        let cn: usize = self.celestials.0.len();
        let mut i: usize = 0;
        while i < cn
            invariant
                cn == self.celestials@.len(),
                i <= cn,
                r@.len() == i,
                forall|k: int|
                    0 <= k < i ==> is_cel_like(#[trigger] r@[k], self.celestials@[k]),
            decreases cn - i,
        {
            r.push(Body::Celestial(self.celestials.0[i].duplicate()));
            i = i + 1;
        }
        let sn: usize = self.spaceships.len();
        let mut i: usize = 0;
        while i < sn
            invariant
                cn == self.celestials@.len(),
                sn == self.spaceships@.len(),
                i <= sn,
                r@.len() == cn + i,
                forall|k: int|
                    0 <= k < cn ==> is_cel_like(#[trigger] r@[k], self.celestials@[k]),
                forall|k: int|
                    cn <= k < r@.len() ==> is_ship_like(#[trigger] r@[k], self.spaceships@[k - cn]),
            decreases sn - i,
        {
            r.push(Body::Spaceship(self.spaceships[i].duplicate()));
            i = i + 1;
        }
        r
    }

    /// Same as `get_bodies`.
    pub fn get(&self) -> (r: Vec<Body>)
        ensures
            r@.len() == self.celestials@.len() + self.spaceships@.len(),
            forall|i: int|
                0 <= i < self.celestials@.len() ==> is_cel_like(
                    #[trigger] r@[i],
                    self.celestials@[i],
                ),
            forall|i: int|
                self.celestials@.len() <= i < r@.len() ==> is_ship_like(
                    #[trigger] r@[i],
                    self.spaceships@[i - self.celestials@.len()],
                ),
    {
        self.get_bodies()
    }

    /// Apply the named event to the named body.  Spacecraft are searched
    /// first, then celestial bodies.  An absent target or an unknown event
    /// leaves the world exactly as it was and reports `false`; the
    /// simulation goes on either way.  The one known event is `speedup`,
    /// a doubling of the target's y-velocity.
    pub fn trigger_event(&mut self, target_name: &String, event: &String) -> (applied: bool)
        requires
            old(self).wf(),
        ensures
            final(self).wf(),
            applied <==> (event@ == "speedup"@ && (has_ship_name(
                old(self).spaceships@,
                target_name@,
            ) || crate::celestials::has_name(old(self).celestials@, target_name@))),
            !applied ==> *final(self) == *old(self),
            final(self).true_sim_fps == old(self).true_sim_fps,
            final(self).elapsed_us == old(self).elapsed_us,
            final(self).celestials@.len() == old(self).celestials@.len(),
            final(self).spaceships@.len() == old(self).spaceships@.len(),
            (applied && has_ship_name(old(self).spaceships@, target_name@)) ==> (exists|i: int|
                0 <= i < old(self).spaceships@.len() && (#[trigger] old(self).spaceships@[i]).name@
                    == target_name@ && ship_sped(old(self).spaceships@[i], final(self).spaceships@[i])
                    && final(self).spaceships@ == old(self).spaceships@.update(
                    i,
                    final(self).spaceships@[i],
                )) && final(self).celestials == old(self).celestials,
            (applied && !has_ship_name(old(self).spaceships@, target_name@)) ==> (exists|i: int|
                0 <= i < old(self).celestials@.len() && (#[trigger] old(self).celestials@[i]).name@
                    == target_name@ && cel_sped(old(self).celestials@[i], final(self).celestials@[i])
                    && final(self).celestials@ == old(self).celestials@.update(
                    i,
                    final(self).celestials@[i],
                )) && final(self).spaceships == old(self).spaceships,
    {
        let speedup_name: String = speedup_event_name();
        if !(*event == speedup_name) {
            return false;
        }
        let sn: usize = self.spaceships.len();
        let mut i: usize = 0;
        while i < sn
            invariant
                self == old(self),
                old(self).wf(),
                event@ == "speedup"@,
                sn == self.spaceships@.len(),
                i <= sn,
                forall|k: int|
                    0 <= k < i ==> (#[trigger] self.spaceships@[k]).name@ != target_name@,
            decreases sn - i,
        {
            if self.spaceships[i].name == *target_name {
                let mut ship: Spaceship = self.spaceships[i].duplicate();
                proof {
                    assert(old(self).spaceships@[i as int].wf());
                    assert(ship.wf());
                }
                ship.speedup();
                self.spaceships.set(i, ship);
                proof {
                    let k = i as int;
                    assert((#[trigger] old(self).spaceships@[k]).name@ == target_name@);
                    assert(has_ship_name(old(self).spaceships@, target_name@));
                    assert(ship_sped(old(self).spaceships@[k], self.spaceships@[k]));
                    assert(self.spaceships@ == old(self).spaceships@.update(
                        k,
                        self.spaceships@[k],
                    ));
                    assert forall|p: int, q: int|
                        #![trigger self.spaceships@[p].name@, self.spaceships@[q].name@]
                        0 <= p < q < self.spaceships@.len() implies self.spaceships@[p].name@
                        != self.spaceships@[q].name@ by {
                        assert(old(self).spaceships@[p].name@ != old(self).spaceships@[q].name@);
                    }
                    assert forall|p: int|
                        0 <= p < self.spaceships@.len() implies (#[trigger] self.spaceships@[
                        p]).wf() by {
                        assert(old(self).spaceships@[p].wf());
                    }
                }
                return true;
            }
            i = i + 1;
        }
        let cn: usize = self.celestials.0.len();
        let mut i: usize = 0;
        while i < cn
            invariant
                self == old(self),
                old(self).wf(),
                event@ == "speedup"@,
                forall|k: int|
                    0 <= k < self.spaceships@.len() ==> (#[trigger] self.spaceships@[k]).name@
                        != target_name@,
                cn == self.celestials@.len(),
                i <= cn,
                forall|k: int|
                    0 <= k < i ==> (#[trigger] self.celestials@[k]).name@ != target_name@,
            decreases cn - i,
        {
            if self.celestials.0[i].name == *target_name {
                let mut cel: Celestial = self.celestials.0[i].duplicate();
                proof {
                    assert(old(self).celestials@[i as int].wf());
                    assert(cel.wf());
                }
                cel.speedup();
                self.celestials.0.set(i, cel);
                proof {
                    let k = i as int;
                    assert((#[trigger] old(self).celestials@[k]).name@ == target_name@);
                    assert(crate::celestials::has_name(old(self).celestials@, target_name@));
                    assert(!has_ship_name(old(self).spaceships@, target_name@));
                    assert(cel_sped(old(self).celestials@[k], self.celestials@[k]));
                    assert(self.celestials@ == old(self).celestials@.update(
                        k,
                        self.celestials@[k],
                    ));
                    assert forall|p: int, q: int|
                        #![trigger self.celestials@[p].name@, self.celestials@[q].name@]
                        0 <= p < q < self.celestials@.len() implies self.celestials@[p].name@
                        != self.celestials@[q].name@ by {
                        assert(old(self).celestials@[p].name@ != old(self).celestials@[q].name@);
                    }
                    assert forall|p: int|
                        0 <= p < self.celestials@.len() implies (#[trigger] self.celestials@[
                        p]).wf() by {
                        assert(old(self).celestials@[p].wf());
                    }
                }
                return true;
            }
            i = i + 1;
        }
        proof {
            assert(!has_ship_name(self.spaceships@, target_name@));
            assert(!crate::celestials::has_name(self.celestials@, target_name@));
        }
        false
    }

    /// Advance the whole world by one tick of `delta_t` microseconds of
    /// simulated time.  All accelerations are evaluated against the frozen
    /// pre-tick celestial positions: no body sees another body's updated
    /// position within the same tick.  Spacecraft feel every source;
    /// each celestial body feels every source but itself (excluded by
    /// index, never by name).
    pub fn update(&mut self, delta_t: u64)
        requires
            old(self).wf(),
            delta_t <= DT_LIMIT,
        ensures
            final(self).wf(),
            final(self).celestials@.len() == old(self).celestials@.len(),
            final(self).spaceships@.len() == old(self).spaceships@.len(),
            forall|i: int|
                0 <= i < old(self).celestials@.len() ==> cel_stepped(
                    old(self).celestials@[i],
                    #[trigger] final(self).celestials@[i],
                    old(self).celestials@,
                    i,
                    delta_t as int,
                ),
            forall|i: int|
                0 <= i < old(self).spaceships@.len() ==> ship_stepped(
                    old(self).spaceships@[i],
                    #[trigger] final(self).spaceships@[i],
                    old(self).celestials@,
                    delta_t as int,
                ),
            final(self).true_sim_fps == old(self).true_sim_fps,
            final(self).elapsed_us as int == sat_add_u128(
                old(self).elapsed_us as int,
                delta_t as int,
            ),
    {
        let ghost ocels = self.celestials@;
        let ghost oships = self.spaceships@;
        let frozen: Celestials = self.celestials.snapshot();
        proof {
            assert(cels_like(frozen@, ocels));
        }
        let sn: usize = self.spaceships.len();
        let mut i: usize = 0;
        while i < sn
            invariant
                ocels == old(self).celestials@,
                oships == old(self).spaceships@,
                self.celestials@ == ocels,
                cels_wf(ocels),
                ships_wf(oships),
                cels_like(frozen@, ocels),
                frozen.wf(),
                delta_t <= DT_LIMIT,
                sn == oships.len(),
                i <= sn,
                self.spaceships@.len() == sn,
                self.true_sim_fps == old(self).true_sim_fps,
                self.elapsed_us == old(self).elapsed_us,
                forall|k: int|
                    0 <= k < i ==> ship_stepped(
                        oships[k],
                        #[trigger] self.spaceships@[k],
                        ocels,
                        delta_t as int,
                    ),
                forall|k: int|
                    0 <= k < i ==> (#[trigger] self.spaceships@[k]).wf(),
                forall|k: int| i <= k < sn ==> #[trigger] self.spaceships@[k] == oships[k],
            decreases sn - i,
        {
            let mut ship: Spaceship = self.spaceships[i].duplicate();
            proof {
                assert(oships[i as int].wf());
                assert(ship.wf());
            }
            let a: Vec3 = frozen.get_global_acceleration(ship.pos);
            proof {
                lemma_accel_upto_congruent(frozen@, ocels, ship.pos@, -1, ocels.len() as int);
            }
            ship.apply_gravity(a, delta_t);
            self.spaceships.set(i, ship);
            i = i + 1;
        }
        let cn: usize = self.celestials.0.len();
        let mut i: usize = 0;
        while i < cn
            invariant
                ocels == old(self).celestials@,
                oships == old(self).spaceships@,
                cels_wf(ocels),
                cels_like(frozen@, ocels),
                frozen.wf(),
                delta_t <= DT_LIMIT,
                cn == ocels.len(),
                i <= cn,
                self.celestials@.len() == cn,
                self.true_sim_fps == old(self).true_sim_fps,
                self.elapsed_us == old(self).elapsed_us,
                self.spaceships@.len() == oships.len(),
                forall|k: int|
                    0 <= k < oships.len() ==> ship_stepped(
                        oships[k],
                        #[trigger] self.spaceships@[k],
                        ocels,
                        delta_t as int,
                    ),
                forall|k: int|
                    0 <= k < oships.len() ==> (#[trigger] self.spaceships@[k]).wf(),
                forall|k: int|
                    0 <= k < i ==> cel_stepped(
                        ocels[k],
                        #[trigger] self.celestials@[k],
                        ocels,
                        k,
                        delta_t as int,
                    ),
                forall|k: int|
                    0 <= k < i ==> (#[trigger] self.celestials@[k]).wf(),
                forall|k: int|
                    0 <= k < i ==> (#[trigger] self.celestials@[k]).name@ == ocels[k].name@,
                forall|k: int| i <= k < cn ==> #[trigger] self.celestials@[k] == ocels[k],
            decreases cn - i,
        {
            let mut cel: Celestial = self.celestials.0[i].duplicate();
            proof {
                assert(ocels[i as int].wf());
                assert(cel.wf());
            }
            let a: Vec3 = frozen.acceleration_at(cel.pos, Some(i));
            proof {
                lemma_accel_upto_congruent(frozen@, ocels, cel.pos@, i as int, ocels.len() as int);
            }
            cel.apply_gravity(a, delta_t);
            self.celestials.0.set(i, cel);
            i = i + 1;
        }
        proof {
            assert forall|p: int, q: int|
                #![trigger self.celestials@[p].name@, self.celestials@[q].name@]
                0 <= p < q < self.celestials@.len() implies self.celestials@[p].name@
                != self.celestials@[q].name@ by {
                assert(ocels[p].name@ != ocels[q].name@);
            }
            assert forall|p: int, q: int|
                #![trigger self.spaceships@[p].name@, self.spaceships@[q].name@]
                0 <= p < q < self.spaceships@.len() implies self.spaceships@[p].name@
                != self.spaceships@[q].name@ by {
                assert(ship_stepped(oships[p], self.spaceships@[p], ocels, delta_t as int));
                assert(ship_stepped(oships[q], self.spaceships@[q], ocels, delta_t as int));
                assert(oships[p].name@ != oships[q].name@);
            }
        }
        self.elapsed_us = self.elapsed_us.saturating_add(delta_t as u128);
    }
}

} // verus!
