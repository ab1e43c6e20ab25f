use vstd::prelude::*;
use vstd::string::StringExecFns;

use crate::celestial::Celestial;
use crate::celestials::Celestials;
use crate::spaceship::Spaceship;
use crate::vec3::Vec3;

verus! {

// The stock Sun/Earth/Moon system with the station, in the library's
// fixed-point units: positions in micrometres, velocities in nanometres
// per second, masses in kilograms.

/// The Sun: 1.98911e30 kg at the origin, radius 6.9634e8 m.
pub fn sun() -> (r: Celestial)
    ensures
        r.wf(),
        r.name@ == "Sun"@,
        r.mass == 1_989_110_000_000_000_000_000_000_000_000i128,
        r.pos == (Vec3 { x: 0, y: 0, z: 0 }),
        r.vel == (Vec3 { x: 0, y: 0, z: 0 }),
        r.rad == 696_340_000_000_000i128,
{
    let name: String = String::from_str("Sun");
    let pos = Vec3::default();
    let vel = Vec3::default();
    match Celestial::new(name, 1_989_110_000_000_000_000_000_000_000_000, pos, vel,
        696_340_000_000_000) {
        Ok(c) => c,
        Err(_) => unreached(),
    }
}

/// The Earth: 5.972e24 kg, 1.521e11 m from the Sun along x, orbiting at
/// 29290 m/s along y, radius 6.371e6 m.
pub fn earth() -> (r: Celestial)
    ensures
        r.wf(),
        r.name@ == "Earth"@,
        r.mass == 5_972_000_000_000_000_000_000_000i128,
        r.pos == (Vec3 { x: 152_100_000_000_000_000, y: 0, z: 0 }),
        r.vel == (Vec3 { x: 0, y: 29_290_000_000_000, z: 0 }),
        r.rad == 6_371_000_000_000i128,
{
    let base = sun();
    let name: String = String::from_str("Earth");
    let pos: Vec3 = base.pos().add(&Vec3 { x: 152_100_000_000_000_000, y: 0, z: 0 });
    let vel: Vec3 = base.vel().add(&Vec3 { x: 0, y: 29_290_000_000_000, z: 0 });
    match Celestial::new(name, 5_972_000_000_000_000_000_000_000, pos, vel, 6_371_000_000_000) {
        Ok(c) => c,
        Err(_) => unreached(),
    }
}

/// The Moon: 7.34767309e22 kg, offset from the Earth by 4.037634453e8 m
/// along x and 3.63901118372e7 m along z, 970 m/s faster along y, radius
/// 1.74e6 m.
pub fn moon() -> (r: Celestial)
    ensures
        r.wf(),
        r.name@ == "Moon"@,
        r.mass == 73_476_730_900_000_000_000_000i128,
        r.pos == (Vec3 { x: 152_503_763_445_300_000, y: 0, z: 36_390_111_837_200 }),
        r.vel == (Vec3 { x: 0, y: 30_260_000_000_000, z: 0 }),
        r.rad == 1_740_000_000_000i128,
{
    let base = earth();
    let name: String = String::from_str("Moon");
    let pos: Vec3 = base.pos().add(&Vec3 { x: 403_763_445_300_000, y: 0, z: 36_390_111_837_200 });
    let vel: Vec3 = base.vel().add(&Vec3 { x: 0, y: 970_000_000_000, z: 0 });
    match Celestial::new(name, 73_476_730_900_000_000_000_000, pos, vel, 1_740_000_000_000) {
        Ok(c) => c,
        Err(_) => unreached(),
    }
}

/// The three stock gravity sources, in summation order: Sun, Earth, Moon.
pub fn new_solar() -> (r: Celestials)
    ensures
        r.wf(),
        r@.len() == 3,
        r@[0].name@ == "Sun"@,
        r@[0].mass == 1_989_110_000_000_000_000_000_000_000_000i128,
        r@[0].pos == (Vec3 { x: 0, y: 0, z: 0 }),
        r@[0].vel == (Vec3 { x: 0, y: 0, z: 0 }),
        r@[0].rad == 696_340_000_000_000i128,
        r@[1].name@ == "Earth"@,
        r@[1].mass == 5_972_000_000_000_000_000_000_000i128,
        r@[1].pos == (Vec3 { x: 152_100_000_000_000_000, y: 0, z: 0 }),
        r@[1].vel == (Vec3 { x: 0, y: 29_290_000_000_000, z: 0 }),
        r@[1].rad == 6_371_000_000_000i128,
        r@[2].name@ == "Moon"@,
        r@[2].mass == 73_476_730_900_000_000_000_000i128,
        r@[2].pos == (Vec3 { x: 152_503_763_445_300_000, y: 0, z: 36_390_111_837_200 }),
        r@[2].vel == (Vec3 { x: 0, y: 30_260_000_000_000, z: 0 }),
        r@[2].rad == 1_740_000_000_000i128,
{
    proof {
        reveal_strlit("Sun");
        reveal_strlit("Earth");
        reveal_strlit("Moon");
        assert("Sun"@.len() == 3 && "Earth"@.len() == 5 && "Moon"@.len() == 4);
        assert("Moon"@[0] == 'M' && "Earth"@[0] == 'E');
    }
    let mut celestials = Celestials::new();
    celestials.add(sun());
    proof {
        assert(!crate::celestials::has_name(celestials@, "Earth"@));
    }
    celestials.add(earth());
    proof {
        assert(!crate::celestials::has_name(celestials@, "Moon"@));
    }
    celestials.add(moon());
    celestials
}

/// The station: 4.19725e5 kg, 422 km above the Earth's surface along x,
/// 7660 m/s faster than the Earth along y.
pub fn iss() -> (r: Spaceship)
    ensures
        r.wf(),
        r.name@ == "ISS"@,
        r.mass == 419_725i128,
        r.pos == (Vec3 { x: 152_106_793_000_000_000, y: 0, z: 0 }),
        r.vel == (Vec3 { x: 0, y: 36_950_000_000_000, z: 0 }),
{
    let base = earth();
    let name: String = String::from_str("ISS");
    let above: i128 = 422_000_000_000i128 + base.rad();
    let pos: Vec3 = base.pos().add(&Vec3 { x: above, y: 0, z: 0 });
    let vel: Vec3 = base.vel().add(&Vec3 { x: 0, y: 7_660_000_000_000, z: 0 });
    match Spaceship::new(name, 419_725, pos, vel) {
        Ok(s) => s,
        Err(_) => unreached(),
    }
}

} // verus!
