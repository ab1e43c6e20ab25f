use voida::{
    iss, new_solar, ControlCommand, ControlFlow, DriverState, Simulation, Vec3, World,
};

fn solar_sim(
    time_scale_ppm: u64,
) -> (
    Simulation,
    tokio::sync::watch::Receiver<World>,
    tokio::sync::mpsc::Sender<ControlCommand>,
) {
    let (cmd_tx, cmd_rx) = tokio::sync::mpsc::channel(100);
    let world = World::new(new_solar(), vec![iss()]).unwrap();
    let (mut sim, world_rx) = Simulation::new(world, 10, time_scale_ppm, cmd_rx);
    sim.begin();
    (sim, world_rx, cmd_tx)
}

fn positions(world: &World) -> Vec<(String, Vec3, Vec3)> {
    let mut r = Vec::new();
    for c in &world.celestials.0 {
        r.push((c.name.clone(), c.pos, c.vel));
    }
    for s in &world.spaceships {
        r.push((s.name.clone(), s.pos, s.vel));
    }
    r
}

#[test]
fn test_set_time_scale_zero_freezes() {
    let (mut sim, world_rx, cmd_tx) = solar_sim(1_000_000);
    let before = positions(&sim.world);

    cmd_tx.try_send(ControlCommand::SetTimeScale(0)).unwrap();
    assert_eq!(sim.tick(false), Ok(ControlFlow::Continue));
    assert_eq!(sim.tick(false), Ok(ControlFlow::Continue));
    assert_eq!(sim.tick(true), Ok(ControlFlow::Continue));

    assert_eq!(sim.delta_t_us, 0);
    assert_eq!(positions(&sim.world), before);
    let snapshot = world_rx.borrow().clone();
    assert_eq!(positions(&snapshot), before);
    assert_eq!(snapshot.elapsed_us, 0);
}

#[test]
fn test_time_scale_changes_tick_duration() {
    // 10 ticks per second at 3000x real time: 300000 simulated
    // microseconds per tick, visible in the published elapsed time.
    let (mut sim, world_rx, cmd_tx) = solar_sim(1_000_000);
    assert_eq!(sim.delta_t_us, 100_000);

    cmd_tx
        .try_send(ControlCommand::SetTimeScale(3_000_000_000))
        .unwrap();
    assert_eq!(sim.tick(false), Ok(ControlFlow::Continue));
    assert_eq!(sim.delta_t_us, 300_000_000);
    assert_eq!(world_rx.borrow().elapsed_us, 300_000_000);
}

#[test]
fn test_shutdown_stops() {
    let (mut sim, mut world_rx, cmd_tx) = solar_sim(1_000_000);

    assert_eq!(sim.tick(false), Ok(ControlFlow::Continue));
    let published_before = sim.published;
    // Mark everything published so far as seen.
    let _ = world_rx.borrow_and_update();

    cmd_tx.try_send(ControlCommand::Shutdown).unwrap();
    assert_eq!(sim.tick(false), Ok(ControlFlow::Break));

    assert!(!sim.is_running());
    assert_eq!(sim.state, DriverState::ShuttingDown);
    assert_eq!(sim.published, published_before);
    // No snapshot was published by the shutdown tick.
    assert!(!world_rx.has_changed().unwrap());
}

#[test]
fn test_trigger_event_absent_target() {
    // The same world ticked twice in parallel drivers: one receives an
    // event naming an absent body.  The command changes nothing and the
    // loop goes on.
    let (mut with_event, _watch_a, cmd_tx) = solar_sim(1_000_000);
    let (mut without_event, _watch_b, _cmd_b) = solar_sim(1_000_000);

    cmd_tx
        .try_send(ControlCommand::TriggerEvent(
            "Nobody".to_string(),
            "speedup".to_string(),
        ))
        .unwrap();
    assert_eq!(with_event.tick(false), Ok(ControlFlow::Continue));
    assert_eq!(without_event.tick(false), Ok(ControlFlow::Continue));

    assert!(with_event.is_running());
    assert_eq!(with_event.rejected_commands, 1);
    assert_eq!(
        positions(&with_event.world),
        positions(&without_event.world)
    );
}

#[test]
fn test_trigger_event_speedup() {
    // With time frozen, a speedup event doubles exactly the target's
    // y-velocity.
    let (mut sim, _world_rx, cmd_tx) = solar_sim(0);
    let vel_before = sim.world.spaceships[0].vel;

    cmd_tx
        .try_send(ControlCommand::TriggerEvent(
            "ISS".to_string(),
            "speedup".to_string(),
        ))
        .unwrap();
    assert_eq!(sim.tick(false), Ok(ControlFlow::Continue));

    let vel_after = sim.world.spaceships[0].vel;
    assert_eq!(vel_after.x, vel_before.x);
    assert_eq!(vel_after.y, 2 * vel_before.y);
    assert_eq!(vel_after.z, vel_before.z);
    assert_eq!(sim.rejected_commands, 0);
}

#[test]
fn test_trigger_event_unknown_event() {
    let (mut sim, _world_rx, cmd_tx) = solar_sim(0);
    let before = positions(&sim.world);

    cmd_tx
        .try_send(ControlCommand::TriggerEvent(
            "ISS".to_string(),
            "teleport".to_string(),
        ))
        .unwrap();
    assert_eq!(sim.tick(false), Ok(ControlFlow::Continue));

    assert_eq!(positions(&sim.world), before);
    assert_eq!(sim.rejected_commands, 1);
}

#[test]
fn test_snapshot_published_every_tick() {
    let (mut sim, world_rx, _cmd_tx) = solar_sim(1_000_000);

    assert_eq!(world_rx.borrow().elapsed_us, 0);
    assert_eq!(sim.tick(false), Ok(ControlFlow::Continue));
    assert_eq!(world_rx.borrow().elapsed_us, 100_000);
    assert_eq!(
        positions(&world_rx.borrow().clone()),
        positions(&sim.world)
    );
    assert_eq!(sim.published, 1);
}

#[test]
fn test_two_consumers_see_monotone_time() {
    // Two observers subscribing at different moments: each reads a
    // non-decreasing sequence of simulated elapsed times.
    let (mut sim, world_rx, _cmd_tx) = solar_sim(1_000_000);
    let consumer_a = world_rx.clone();
    let mut seen_a: Vec<u128> = Vec::new();
    let mut seen_b: Vec<u128> = Vec::new();

    assert_eq!(sim.tick(false), Ok(ControlFlow::Continue));
    seen_a.push(consumer_a.borrow().elapsed_us);
    assert_eq!(sim.tick(false), Ok(ControlFlow::Continue));
    // The second observer arrives only now.
    let consumer_b = world_rx.clone();
    seen_b.push(consumer_b.borrow().elapsed_us);
    seen_a.push(consumer_a.borrow().elapsed_us);
    assert_eq!(sim.tick(false), Ok(ControlFlow::Continue));
    seen_a.push(consumer_a.borrow().elapsed_us);
    seen_b.push(consumer_b.borrow().elapsed_us);

    for w in seen_a.windows(2) {
        assert!(w[0] <= w[1]);
    }
    for w in seen_b.windows(2) {
        assert!(w[0] <= w[1]);
    }
}

#[test]
fn test_publish_failure_is_fatal() {
    let (cmd_tx, cmd_rx) = tokio::sync::mpsc::channel(100);
    let world = World::new(new_solar(), vec![iss()]).unwrap();
    let (mut sim, world_rx) = Simulation::new(world, 10, 1_000_000, cmd_rx);
    sim.begin();
    drop(world_rx);

    // With every snapshot receiver gone, the publish fails and the driver
    // stops; the command source stays open.
    let r = sim.tick(false);
    assert!(r.is_err());
    assert_eq!(sim.state, DriverState::Stopped);
    drop(cmd_tx);
}

#[test]
fn test_closed_command_source_shuts_down() {
    let (cmd_tx, cmd_rx) = tokio::sync::mpsc::channel(100);
    let world = World::new(new_solar(), Vec::new()).unwrap();
    let (mut sim, _world_rx) = Simulation::new(world, 10, 1_000_000, cmd_rx);
    sim.begin();
    drop(cmd_tx);

    assert_eq!(sim.tick(false), Ok(ControlFlow::Break));
    assert_eq!(sim.state, DriverState::ShuttingDown);
}
