use voida::{
    earth, iss, moon, new_solar, sun, text_test, Canvas, Celestial, ConfigError, Frame, Logo,
    Spaceship, Vec3, Window, World,
};

#[test]
fn test_frame_new_and_set() {
    let mut frame = Frame::new(4, 3, '#');
    assert_eq!(frame.width, 4);
    assert_eq!(frame.height, 3);
    assert_eq!(frame.get(0, 0), '#');
    assert_eq!(frame.get(3, 2), '#');

    assert!(frame.inside_usize(3, 2));
    assert!(!frame.inside_usize(4, 2));
    assert!(!frame.inside_usize(3, 3));

    assert!(frame.try_set_usize(1, 2, 'x'));
    assert_eq!(frame.get(1, 2), 'x');
    assert_eq!(frame.get(1, 1), '#');
    assert!(!frame.try_set_usize(4, 0, 'y'));

    assert!(!frame.size_changed(4, 3));
    assert!(frame.size_changed(5, 3));
}

#[test]
fn test_frame_window_blit() {
    let mut frame = Frame::new(5, 4, '.');
    let render = vec![vec!['a', 'b'], vec!['c', 'd']];
    frame.try_set_window(3, 2, render);

    // Inside the blit.
    assert_eq!(frame.get(3, 2), 'a');
    assert_eq!(frame.get(4, 2), 'b');
    assert_eq!(frame.get(3, 3), 'c');
    assert_eq!(frame.get(4, 3), 'd');
    // Outside it.
    assert_eq!(frame.get(2, 2), '.');
    assert_eq!(frame.get(0, 0), '.');

    // A blit hanging off the edge drops the off-grid cells.
    let wide = vec![vec!['z', 'z', 'z']];
    frame.try_set_window(4, 0, wide);
    assert_eq!(frame.get(4, 0), 'z');
}

#[test]
fn test_logo_voida() {
    let mut logo = Logo::voida();
    let (x, y, width, height) = logo.get_params();
    assert_eq!((x, y, width, height), (0, 0, 88, 17));

    let name = logo.name();
    // Each art row is 88 glyphs, a guard bar and a newline.
    assert_eq!(name.len(), 17 * 90 - 1);
    assert_eq!(name.chars().nth(88), Some('|'));

    logo.frame_center(100, 21);
    let (x, y, _, _) = logo.get_params();
    assert_eq!((x, y), (6, 2));
    assert!(logo.inside(6, 2));
    assert!(logo.inside(93, 18));
    assert!(!logo.inside(94, 2));
    assert!(!logo.inside(5, 2));

    // A frame smaller than the banner pins it to the corner.
    logo.frame_center(10, 5);
    let (x, y, _, _) = logo.get_params();
    assert_eq!((x, y), (0, 0));
}

#[test]
fn test_text_window_render() {
    let mut window = text_test();
    assert_eq!(window.position(), (102, 41));

    let grid = window.render(false).expect("first render pending");
    assert_eq!(grid.len(), 12);
    for row in &grid {
        assert_eq!(row.len(), 80);
    }
    // The data opens with a newline: the first row stays blank.
    assert!(grid[0].iter().all(|c| *c == ' '));
    let second: String = grid[1].iter().collect();
    assert!(second.starts_with(" Hello, World!"));
    assert!(second.ends_with("   "));
    let third: String = grid[2].iter().collect();
    assert!(third.starts_with(" How are things?"));
    let fourth: String = grid[3].iter().collect();
    assert!(fourth.starts_with(" Let's do stuff"));
    assert!(grid[4].iter().all(|c| *c == ' '));
}

#[test]
fn test_text_window_render_gate() {
    // No redraw is produced unless the window asks for one or the caller
    // forces one.
    let mut quiet = voida::TextWindow {
        window: Canvas {
            width: 10,
            height: 2,
            x: 0,
            y: 0,
        },
        data: "hi".to_string(),
        update_pending: false,
    };
    assert!(quiet.render(false).is_none());
    let forced = quiet.render(true).expect("forced redraw");
    let first: String = forced[0].iter().collect();
    assert!(first.starts_with("hi"));
}

#[test]
fn test_canvas_inside() {
    let canvas = Canvas {
        width: 80,
        height: 26,
        x: 21,
        y: 0,
    };
    assert!(canvas.inside(0, 0));
    assert!(canvas.inside(79, 25));
    assert!(!canvas.inside(80, 0));
    assert!(!canvas.inside(0, 26));
}

#[test]
fn test_solar_config() {
    let sun = sun();
    assert_eq!(sun.name(), "Sun");
    assert_eq!(sun.mass(), 1_989_110_000_000_000_000_000_000_000_000);
    assert_eq!(sun.pos(), Vec3 { x: 0, y: 0, z: 0 });

    let earth = earth();
    assert_eq!(earth.name(), "Earth");
    assert_eq!(
        earth.pos(),
        Vec3 {
            x: 152_100_000_000_000_000,
            y: 0,
            z: 0
        }
    );
    assert_eq!(
        earth.vel(),
        Vec3 {
            x: 0,
            y: 29_290_000_000_000,
            z: 0
        }
    );

    let moon = moon();
    assert_eq!(moon.name(), "Moon");
    assert_eq!(moon.pos().z, 36_390_111_837_200);

    let iss = iss();
    assert_eq!(iss.name(), "ISS");
    assert_eq!(iss.pos().x, 152_106_793_000_000_000);

    let celestials = new_solar();
    let bodies = celestials.get();
    assert_eq!(bodies.len(), 3);
    assert_eq!(bodies[0].name(), "Sun");
    assert_eq!(bodies[1].name(), "Earth");
    assert_eq!(bodies[2].name(), "Moon");
}

#[test]
fn test_construction_rejections() {
    let zero_mass = Celestial::new(
        "Nothing".to_string(),
        0,
        Vec3 { x: 0, y: 0, z: 0 },
        Vec3 { x: 0, y: 0, z: 0 },
        1,
    );
    assert_eq!(zero_mass.unwrap_err(), ConfigError::NonPositiveMass);

    let heavy = Celestial::new(
        "TooHeavy".to_string(),
        i128::MAX,
        Vec3 { x: 0, y: 0, z: 0 },
        Vec3 { x: 0, y: 0, z: 0 },
        1,
    );
    assert_eq!(heavy.unwrap_err(), ConfigError::OutOfRange);

    let ship = Spaceship::new(
        "Ghost".to_string(),
        -5,
        Vec3 { x: 0, y: 0, z: 0 },
        Vec3 { x: 0, y: 0, z: 0 },
    );
    assert_eq!(ship.unwrap_err(), ConfigError::NonPositiveMass);

    let mut celestials = new_solar();
    // A second Sun by way of the raw collection: rejected by World::new.
    let dup = Celestial::new(
        "Sun".to_string(),
        1,
        Vec3 { x: 1_000_000, y: 0, z: 0 },
        Vec3 { x: 0, y: 0, z: 0 },
        1,
    )
    .unwrap();
    celestials.0.push(dup);
    assert_eq!(
        World::new(celestials, Vec::new()).unwrap_err(),
        ConfigError::DuplicateName
    );

    let world = World::new(new_solar(), vec![iss()]).unwrap();
    assert_eq!(world.true_sim_fps, 0);
    assert_eq!(world.elapsed_us, 0);
    assert_eq!(world.get_bodies().len(), 4);
}

#[test]
fn test_insert_replaces_same_name() {
    let mut celestials = new_solar();
    let replacement = Celestial::new(
        "Earth".to_string(),
        1_000,
        Vec3 { x: 42, y: 0, z: 0 },
        Vec3 { x: 0, y: 0, z: 0 },
        7,
    )
    .unwrap();
    celestials.add(replacement);
    let bodies = celestials.get();
    assert_eq!(bodies.len(), 3);
    assert_eq!(bodies[1].name(), "Earth");
    assert_eq!(bodies[1].mass(), 1_000);
}
