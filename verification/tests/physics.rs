use voida::{new_solar, Celestial, Celestials, Vec3, World};

/// Micrometres per metre.
const MICRO: f64 = 1_000_000.0;
/// Nanometres per metre (velocity components).
const NANO: f64 = 1_000_000_000.0;
/// Picometres per metre (acceleration components).
const PICO: f64 = 1_000_000_000_000.0;

fn metres(v: &Vec3) -> (f64, f64, f64) {
    (v.x as f64 / MICRO, v.y as f64 / MICRO, v.z as f64 / MICRO)
}

fn close(a: f64, b: f64, eps: f64) -> bool {
    (a - b).abs() <= eps
}

#[test]
fn test_normalize() {
    // A 3-4-5 triangle, in metres.
    let vec = Vec3 {
        x: 3_000_000,
        y: 4_000_000,
        z: 0,
    };
    let norm_vec = vec.normalize();

    let distance_sq_m = norm_vec.distance_sq as f64 / (MICRO * MICRO);
    let distance_m = norm_vec.distance as f64 / MICRO;
    let unit_x = norm_vec.unit_direction.x as f64 / MICRO;
    let unit_y = norm_vec.unit_direction.y as f64 / MICRO;
    let unit_z = norm_vec.unit_direction.z as f64 / MICRO;

    assert!(close(distance_sq_m, 25.0, 1e-9));
    assert!(close(distance_m, 5.0, 1e-9));
    assert!(close(unit_x, 0.6, 1e-9));
    assert!(close(unit_y, 0.8, 1e-9));
    assert!(close(unit_z, 0.0, 1e-9));
}

#[test]
fn test_equal_to() {
    // 0.0009 m and 0.0011 m against a tolerance of 0.001 m.
    let vec1 = Vec3 {
        x: 3_000_000,
        y: 4_000_000,
        z: 0,
    };
    let vec2 = Vec3 {
        x: 3_000_000,
        y: 4_000_000,
        z: 900,
    };
    let vec3 = Vec3 {
        x: 3_000_000,
        y: 4_000_000,
        z: 1100,
    };

    assert!(vec1.equal_to(&vec2, 1000));
    assert!(!vec1.equal_to(&vec3, 1000));
}

#[test]
fn test_single_source_acceleration() {
    // One source of the Earth's mass, seen from 1.521e11 m away: the
    // acceleration must be G*M/d^2 pointed straight at the source.
    let mass: i128 = 5_972_000_000_000_000_000_000_000;
    let source = Celestial::new(
        "Source".to_string(),
        mass,
        Vec3 { x: 0, y: 0, z: 0 },
        Vec3 { x: 0, y: 0, z: 0 },
        1,
    )
    .unwrap();
    let mut celestials = Celestials::new();
    celestials.add(source);

    let d_m = 1.521e11_f64;
    let point = Vec3 {
        x: 152_100_000_000_000_000,
        y: 0,
        z: 0,
    };
    let a = celestials.get_global_acceleration(point);

    let ax = a.x as f64 / PICO;
    let ay = a.y as f64 / PICO;
    let az = a.z as f64 / PICO;
    let magnitude = (ax * ax + ay * ay + az * az).sqrt();
    let expected = 6.6743e-11 * 5.972e24 / (d_m * d_m);

    assert!((magnitude - expected).abs() / expected < 0.001);
    // Pointed from the target towards the source: negative x, nothing else.
    assert!(ax < 0.0);
    assert_eq!(a.y, 0);
    assert_eq!(a.z, 0);
}

#[test]
fn test_vector_ops() {
    let a = Vec3 { x: 1, y: -2, z: 3 };
    let b = Vec3 { x: 10, y: 20, z: 30 };
    assert_eq!(a.add(&b), Vec3 { x: 11, y: 18, z: 33 });
    assert_eq!(b.sub(&a), Vec3 { x: 9, y: 22, z: 27 });
    assert_eq!(a.scale(-2), Vec3 { x: -2, y: 4, z: -6 });
    assert_eq!(a.dot(&b), 60);
    assert_eq!(Vec3::default(), Vec3 { x: 0, y: 0, z: 0 });
}

fn momentum(celestials: &[Celestial]) -> (f64, f64, f64) {
    let mut p = (0.0, 0.0, 0.0);
    for c in celestials {
        let m = c.mass as f64;
        p.0 += m * (c.vel.x as f64 / NANO);
        p.1 += m * (c.vel.y as f64 / NANO);
        p.2 += m * (c.vel.z as f64 / NANO);
    }
    p
}

#[test]
fn test_momentum_conservation() {
    // A closed Sun/Earth/Moon system: total momentum stays put over
    // thousands of ticks, up to accumulation error.
    let mut world = World::new(new_solar(), Vec::new()).unwrap();
    let p0 = momentum(&world.celestials.0);

    for _ in 0..2000 {
        world.update(3_600_000_000);
    }
    let p1 = momentum(&world.celestials.0);

    // Scale of the system's momenta: the Earth's share dominates.
    let scale = 5.972e24 * 29_290.0;
    assert!((p1.0 - p0.0).abs() / scale < 1e-3);
    assert!((p1.1 - p0.1).abs() / scale < 1e-3);
    assert!((p1.2 - p0.2).abs() / scale < 1e-3);
}

#[test]
fn test_three_body_year() {
    // Sun/Earth/Moon advanced 8760 ticks of one hour each: one simulated
    // year keeps the Earth within 5% of its initial distance to the Sun.
    let mut world = World::new(new_solar(), Vec::new()).unwrap();

    let initial = earth_sun_distance(&world);
    for _ in 0..8760 {
        world.update(3_600_000_000);
    }
    let fin = earth_sun_distance(&world);

    assert!((fin - initial).abs() / initial < 0.05);
}

fn earth_sun_distance(world: &World) -> f64 {
    let sun = metres(&world.celestials.0[0].pos);
    let earth = metres(&world.celestials.0[1].pos);
    let d = (
        earth.0 - sun.0,
        earth.1 - sun.1,
        earth.2 - sun.2,
    );
    (d.0 * d.0 + d.1 * d.1 + d.2 * d.2).sqrt()
}
