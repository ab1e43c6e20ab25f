use vstd::prelude::*;

use crate::channel::{new_world_channel, poll_command, publish_world};
use crate::command::{CommandPoll, ControlCommand, ControlFlow};
use crate::error::SimulationError;
use crate::vec3::DT_LIMIT;
use crate::world::{has_ship_name, sat_add_u128, World};

verus! {

/// Largest accepted time scale: simulated microseconds per wall-clock
/// second.  A `SetTimeScale` beyond it is clamped so that one tick's
/// duration always stays within what the integrator accepts.
pub const TIME_SCALE_LIMIT: u64 = 10_000_000_000;

/// How many queued commands one tick will drain at most; the rest stay
/// queued for the next tick.
pub const DRAIN_LIMIT: usize = 1024;

/// `w2` is `w1` advanced by one integration step of `dt` microseconds,
/// every acceleration taken from `w1`'s frozen celestial positions.
pub open spec fn integrated(w1: World, w2: World, dt: int) -> bool {
    &&& w2.celestials@.len() == w1.celestials@.len()
    &&& w2.spaceships@.len() == w1.spaceships@.len()
    &&& forall|i: int|
        0 <= i < w1.celestials@.len() ==> crate::world::cel_stepped(
            w1.celestials@[i],
            #[trigger] w2.celestials@[i],
            w1.celestials@,
            i,
            dt,
        )
    &&& forall|i: int|
        0 <= i < w1.spaceships@.len() ==> crate::world::ship_stepped(
            w1.spaceships@[i],
            #[trigger] w2.spaceships@[i],
            w1.celestials@,
            dt,
        )
}

/// How one tick relates three worlds: `w_mid` is `w_old` after the tick's
/// commands (no command moves a body, changes a name, a mass or a radius),
/// and `w_new` is `w_mid` advanced by one integration step of `dt`
/// microseconds.
pub open spec fn tick_worlds(w_old: World, w_mid: World, w_new: World, dt: int) -> bool {
    &&& w_mid.wf()
    &&& w_mid.celestials@.len() == w_old.celestials@.len()
    &&& w_mid.spaceships@.len() == w_old.spaceships@.len()
    &&& forall|i: int|
        0 <= i < w_old.celestials@.len() ==> {
            &&& (#[trigger] w_mid.celestials@[i]).pos == w_old.celestials@[i].pos
            &&& w_mid.celestials@[i].name@ == w_old.celestials@[i].name@
            &&& w_mid.celestials@[i].mass == w_old.celestials@[i].mass
            &&& w_mid.celestials@[i].rad == w_old.celestials@[i].rad
        }
    &&& forall|i: int|
        0 <= i < w_old.spaceships@.len() ==> {
            &&& (#[trigger] w_mid.spaceships@[i]).pos == w_old.spaceships@[i].pos
            &&& w_mid.spaceships@[i].name@ == w_old.spaceships@[i].name@
            &&& w_mid.spaceships@[i].mass == w_old.spaceships@[i].mass
        }
    &&& integrated(w_mid, w_new, dt)
}

/// The named event would land on a body of this world.
pub open spec fn trigger_applies(w: World, name: Seq<char>, event: Seq<char>) -> bool {
    event == "speedup"@ && (has_ship_name(w.spaceships@, name) || crate::celestials::has_name(
        w.celestials@,
        name,
    ))
}

/// Exactly what a `TriggerEvent` does to a world: an absent target or an
/// unknown event changes nothing, and otherwise exactly the targeted body
/// (spacecraft searched before celestial bodies) has its y-velocity
/// doubled, with everything else as it was.
pub open spec fn world_triggered(w1: World, w2: World, name: Seq<char>, event: Seq<char>) -> bool {
    if !trigger_applies(w1, name, event) {
        w2 == w1
    } else if has_ship_name(w1.spaceships@, name) {
        &&& (exists|i: int|
            0 <= i < w1.spaceships@.len() && (#[trigger] w1.spaceships@[i]).name@ == name
                && crate::world::ship_sped(w1.spaceships@[i], w2.spaceships@[i])
                && w2.spaceships@ == w1.spaceships@.update(i, w2.spaceships@[i]))
        &&& w2.celestials == w1.celestials
        &&& w2.true_sim_fps == w1.true_sim_fps
        &&& w2.elapsed_us == w1.elapsed_us
    } else {
        &&& (exists|i: int|
            0 <= i < w1.celestials@.len() && (#[trigger] w1.celestials@[i]).name@ == name
                && crate::world::cel_sped(w1.celestials@[i], w2.celestials@[i])
                && w2.celestials@ == w1.celestials@.update(i, w2.celestials@[i]))
        &&& w2.spaceships == w1.spaceships
        &&& w2.true_sim_fps == w1.true_sim_fps
        &&& w2.elapsed_us == w1.elapsed_us
    }
}

/// The stored time scale after a `SetTimeScale(factor)`.
pub open spec fn clamped_scale(factor: u64) -> int {
    if factor > TIME_SCALE_LIMIT {
        TIME_SCALE_LIMIT as int
    } else {
        factor as int
    }
}

/// Exactly what one command does to the command-visible driver state: the
/// world, the stored time scale, and the rejection counter.  `Shutdown`
/// changes none of them.
pub open spec fn cmd_step(
    w1: World,
    ts1: u64,
    rej1: u64,
    cmd: ControlCommand,
    w2: World,
    ts2: u64,
    rej2: u64,
) -> bool {
    match cmd {
        ControlCommand::Shutdown => w2 == w1 && ts2 == ts1 && rej2 == rej1,
        ControlCommand::SetTimeScale(factor) => w2 == w1 && ts2 as int == clamped_scale(factor)
            && rej2 == rej1,
        ControlCommand::TriggerEvent(name, event) => {
            &&& ts2 == ts1
            &&& world_triggered(w1, w2, name@, event@)
            &&& (trigger_applies(w1, name@, event@) ==> rej2 == rej1)
            &&& (!trigger_applies(w1, name@, event@) ==> rej2 as int == sat_add_u64(
                rej1 as int,
                1,
            ))
        },
    }
}

/// The command sequence `cmds`, applied in order, takes the
/// command-visible state `(w1, ts1, rej1)` to `(w2, ts2, rej2)`.
pub open spec fn cmds_reach(
    w1: World,
    ts1: u64,
    rej1: u64,
    cmds: Seq<ControlCommand>,
    w2: World,
    ts2: u64,
    rej2: u64,
) -> bool
    decreases cmds.len(),
{
    if cmds.len() == 0 {
        w2 == w1 && ts2 == ts1 && rej2 == rej1
    } else {
        exists|wm: World, tsm: u64, rejm: u64|
            #[trigger] cmd_step(w1, ts1, rej1, cmds[0], wm, tsm, rejm) && cmds_reach(
                wm,
                tsm,
                rejm,
                cmds.drop_first(),
                w2,
                ts2,
                rej2,
            )
    }
}

/// Two worlds that agree on everything but the measured tick rate.
pub open spec fn same_but_fps(w1: World, w2: World) -> bool {
    &&& w1.celestials == w2.celestials
    &&& w1.spaceships == w2.spaceships
    &&& w1.elapsed_us == w2.elapsed_us
}

/// Extending a command chain by one more applied command.
proof fn lemma_cmds_reach_snoc(
    w1: World,
    ts1: u64,
    rej1: u64,
    cmds: Seq<ControlCommand>,
    w2: World,
    ts2: u64,
    rej2: u64,
    cmd: ControlCommand,
    w3: World,
    ts3: u64,
    rej3: u64,
)
    requires
        cmds_reach(w1, ts1, rej1, cmds, w2, ts2, rej2),
        cmd_step(w2, ts2, rej2, cmd, w3, ts3, rej3),
    ensures
        cmds_reach(w1, ts1, rej1, cmds.push(cmd), w3, ts3, rej3),
    decreases cmds.len(),
{
    if cmds.len() == 0 {
        assert(cmds.push(cmd)[0] == cmd);
        assert(cmds.push(cmd).drop_first() =~= Seq::<ControlCommand>::empty());
        assert(cmd_step(w1, ts1, rej1, cmds.push(cmd)[0], w3, ts3, rej3));
        assert(cmds_reach(w3, ts3, rej3, cmds.push(cmd).drop_first(), w3, ts3, rej3));
    } else {
        let (wm, tsm, rejm) = choose|wm: World, tsm: u64, rejm: u64|
            #[trigger] cmd_step(w1, ts1, rej1, cmds[0], wm, tsm, rejm) && cmds_reach(
                wm,
                tsm,
                rejm,
                cmds.drop_first(),
                w2,
                ts2,
                rej2,
            );
        lemma_cmds_reach_snoc(wm, tsm, rejm, cmds.drop_first(), w2, ts2, rej2, cmd, w3, ts3, rej3);
        assert(cmds.push(cmd)[0] == cmds[0]);
        assert(cmds.push(cmd).drop_first() =~= cmds.drop_first().push(cmd));
        assert(cmd_step(w1, ts1, rej1, cmds.push(cmd)[0], wm, tsm, rejm));
        assert(cmds_reach(wm, tsm, rejm, cmds.push(cmd).drop_first(), w3, ts3, rej3));
    }
}

/// Saturating addition within `u64`.
pub open spec fn sat_add_u64(a: int, b: int) -> int {
    if a + b > u64::MAX as int {
        u64::MAX as int
    } else {
        a + b
    }
}

/// The driver's lifecycle; `Stopped` is terminal.
#[derive(Clone, Copy, Debug, PartialEq, Eq, Structural)]
pub enum DriverState {
    Idle,
    Running,
    ShuttingDown,
    Stopped,
}

/// The simulation driver: owns the world, drains control commands,
/// advances the physics once per tick, and publishes each completed tick
/// as an immutable snapshot.  The tick cadence itself (waiting for the
/// next tick boundary) is the caller's concern; everything the driver
/// decides is here.
pub struct Simulation {
    pub world: World,
    pub world_publisher: tokio::sync::watch::Sender<World>,
    pub control: tokio::sync::mpsc::Receiver<ControlCommand>,
    /// Simulated microseconds per wall-clock second (the time-scale
    /// multiplier in parts per million).
    pub time_scale_ppm: u64,
    /// Wall-clock ticks per second; positive.
    pub simulation_fps: u32,
    /// Simulated microseconds per tick: `time_scale_ppm / simulation_fps`.
    pub delta_t_us: u64,
    pub state: DriverState,
    /// Ticks since the last wall-clock second rolled over.
    pub fps_counter: u32,
    /// Snapshots successfully published so far.
    pub published: u64,
    /// Commands that named an absent body or an unknown event.
    pub rejected_commands: u64,
}

impl Simulation {
    pub open spec fn wf(&self) -> bool {
        &&& self.world.wf()
        &&& self.simulation_fps >= 1
        &&& self.time_scale_ppm <= TIME_SCALE_LIMIT
        &&& self.delta_t_us as int == self.time_scale_ppm as int / self.simulation_fps as int
        &&& self.delta_t_us <= DT_LIMIT
    }

    /// Create a driver in the `Idle` state together with the snapshot
    /// channel's receiving end; the channel starts out holding a copy of
    /// the initial world, and further receivers can be cloned from the
    /// returned one.
    pub fn new(
        world: World,
        simulation_fps: u32,
        time_scale_ppm: u64,
        control: tokio::sync::mpsc::Receiver<ControlCommand>,
    ) -> (r: (Simulation, tokio::sync::watch::Receiver<World>))
        requires
            world.wf(),
            simulation_fps >= 1,
            time_scale_ppm <= TIME_SCALE_LIMIT,
        ensures
            r.0.wf(),
            r.0.world == world,
            r.0.state == DriverState::Idle,
            r.0.time_scale_ppm == time_scale_ppm,
            r.0.simulation_fps == simulation_fps,
            r.0.delta_t_us as int == time_scale_ppm as int / simulation_fps as int,
            r.0.fps_counter == 0,
            r.0.published == 0,
            r.0.rejected_commands == 0,
    {
        let (world_publisher, world_watch) = new_world_channel(&world);
        let delta_t_us: u64 = time_scale_ppm / (simulation_fps as u64);
        proof {
            vstd::arithmetic::div_mod::lemma_div_nonincreasing(
                time_scale_ppm as int,
                simulation_fps as int,
            );
        }
        (
            Simulation {
                world,
                world_publisher,
                control,
                time_scale_ppm,
                simulation_fps,
                delta_t_us,
                state: DriverState::Idle,
                fps_counter: 0,
                published: 0,
                rejected_commands: 0,
            },
            world_watch,
        )
    }

    /// Enter the running state; the caller then calls `tick` once per
    /// tick boundary.
    pub fn begin(&mut self)
        requires
            old(self).state == DriverState::Idle,
        ensures
            final(self).state == DriverState::Running,
            final(self).world == old(self).world,
            final(self).time_scale_ppm == old(self).time_scale_ppm,
            final(self).simulation_fps == old(self).simulation_fps,
            final(self).delta_t_us == old(self).delta_t_us,
            final(self).fps_counter == old(self).fps_counter,
            final(self).published == old(self).published,
            final(self).rejected_commands == old(self).rejected_commands,
            old(self).wf() ==> final(self).wf(),
    {
        self.state = DriverState::Running;
    }

    /// Acknowledge the shutdown: the terminal state, after the loop has
    /// returned.
    pub fn finish(&mut self)
        requires
            old(self).state == DriverState::ShuttingDown,
        ensures
            final(self).state == DriverState::Stopped,
            final(self).world == old(self).world,
            final(self).published == old(self).published,
            old(self).wf() ==> final(self).wf(),
    {
        self.state = DriverState::Stopped;
    }

    pub fn is_running(&self) -> (r: bool)
        ensures
            r == (self.state == DriverState::Running),
    {
        match self.state {
            DriverState::Running => true,
            _ => false,
        }
    }

    /// Apply one control command.  `Shutdown` asks the loop to stop and
    /// touches nothing else.  `SetTimeScale` replaces the stored scale
    /// (clamped to `TIME_SCALE_LIMIT`) and re-derives the tick duration.
    /// `TriggerEvent` applies the named event to the named body; an absent
    /// body or an unknown event is counted in `rejected_commands` and
    /// changes no body's state.  No command advances simulated time.
    pub fn apply_command(&mut self, command: ControlCommand) -> (halt: bool)
        requires
            old(self).wf(),
        ensures
            final(self).wf(),
            final(self).state == old(self).state,
            final(self).published == old(self).published,
            final(self).fps_counter == old(self).fps_counter,
            final(self).simulation_fps == old(self).simulation_fps,
            final(self).world.elapsed_us == old(self).world.elapsed_us,
            final(self).world.true_sim_fps == old(self).world.true_sim_fps,
            final(self).world.celestials@.len() == old(self).world.celestials@.len(),
            final(self).world.spaceships@.len() == old(self).world.spaceships@.len(),
            forall|i: int|
                0 <= i < old(self).world.celestials@.len() ==> {
                    &&& (#[trigger] final(self).world.celestials@[i]).pos == old(
                        self,
                    ).world.celestials@[i].pos
                    &&& final(self).world.celestials@[i].name@ == old(self).world.celestials@[
                        i].name@
                    &&& final(self).world.celestials@[i].mass == old(self).world.celestials@[
                        i].mass
                    &&& final(self).world.celestials@[i].rad == old(self).world.celestials@[i].rad
                },
            forall|i: int|
                0 <= i < old(self).world.spaceships@.len() ==> {
                    &&& (#[trigger] final(self).world.spaceships@[i]).pos == old(
                        self,
                    ).world.spaceships@[i].pos
                    &&& final(self).world.spaceships@[i].name@ == old(self).world.spaceships@[
                        i].name@
                    &&& final(self).world.spaceships@[i].mass == old(self).world.spaceships@[
                        i].mass
                },
            halt <==> command is Shutdown,
            cmd_step(
                old(self).world,
                old(self).time_scale_ppm,
                old(self).rejected_commands,
                command,
                final(self).world,
                final(self).time_scale_ppm,
                final(self).rejected_commands,
            ),
            (command is Shutdown || command is TriggerEvent) ==> final(self).delta_t_us == old(
                self,
            ).delta_t_us,
    {
        match command {
            ControlCommand::Shutdown => true,
            ControlCommand::SetTimeScale(factor) => {
                let clamped: u64 = if factor > TIME_SCALE_LIMIT {
                    TIME_SCALE_LIMIT
                } else {
                    factor
                };
                self.time_scale_ppm = clamped;
                self.delta_t_us = self.time_scale_ppm / (self.simulation_fps as u64);
                proof {
                    vstd::arithmetic::div_mod::lemma_div_nonincreasing(
                        self.time_scale_ppm as int,
                        self.simulation_fps as int,
                    );
                }
                false
            },
            ControlCommand::TriggerEvent(name, event) => {
                let applied: bool = self.world.trigger_event(&name, &event);
                if !applied {
                    self.rejected_commands = self.rejected_commands.saturating_add(1);
                }
                proof {
                    assert(world_triggered(old(self).world, self.world, name@, event@));
                }
                false
            },
        }
    }

    /// One tick of the driver: count the tick for the measured rate,
    /// drain pending commands in arrival order, advance the physics by
    /// the current tick duration, and publish the completed world as a
    /// snapshot.  A `Shutdown` command — or a closed command source —
    /// ends the tick at once: nothing is integrated and nothing is
    /// published.  A publish failure is fatal and stops the driver.
    /// Simulated time never moves backwards.
    pub fn tick(&mut self, second_rolled: bool) -> (r: Result<ControlFlow, SimulationError>)
        requires
            old(self).wf(),
            old(self).state == DriverState::Running,
        ensures
            final(self).wf(),
            final(self).world.elapsed_us >= old(self).world.elapsed_us,
            r == Ok::<ControlFlow, SimulationError>(ControlFlow::Break) ==> {
                &&& final(self).state == DriverState::ShuttingDown
                &&& final(self).published == old(self).published
                &&& final(self).world.elapsed_us == old(self).world.elapsed_us
                &&& final(self).world.celestials@.len() == old(self).world.celestials@.len()
                &&& final(self).world.spaceships@.len() == old(self).world.spaceships@.len()
                &&& forall|i: int|
                    0 <= i < old(self).world.celestials@.len()
                        ==> (#[trigger] final(self).world.celestials@[i]).pos
                        == old(self).world.celestials@[i].pos
                &&& forall|i: int|
                    0 <= i < old(self).world.spaceships@.len()
                        ==> (#[trigger] final(self).world.spaceships@[i]).pos
                        == old(self).world.spaceships@[i].pos
            },
            r == Ok::<ControlFlow, SimulationError>(ControlFlow::Continue) ==> {
                &&& final(self).state == DriverState::Running
                &&& final(self).published as int == sat_add_u64(old(self).published as int, 1)
                &&& final(self).world.elapsed_us as int == sat_add_u128(
                    old(self).world.elapsed_us as int,
                    final(self).delta_t_us as int,
                )
                &&& exists|w_mid: World|
                    #[trigger] tick_worlds(
                        old(self).world,
                        w_mid,
                        final(self).world,
                        final(self).delta_t_us as int,
                    )
            },
            r is Err ==> exists|w_mid: World|
                #[trigger] tick_worlds(
                    old(self).world,
                    w_mid,
                    final(self).world,
                    final(self).delta_t_us as int,
                ),
            r is Err ==> {
                &&& final(self).state == DriverState::Stopped
                &&& final(self).published == old(self).published
            },
            final(self).simulation_fps == old(self).simulation_fps,
            exists|w0: World, cmds: Seq<ControlCommand>, w_mid: World|
                {
                    &&& #[trigger] cmds_reach(
                        w0,
                        old(self).time_scale_ppm,
                        old(self).rejected_commands,
                        cmds,
                        w_mid,
                        final(self).time_scale_ppm,
                        final(self).rejected_commands,
                    )
                    &&& same_but_fps(w0, old(self).world)
                    &&& cmds.len() <= DRAIN_LIMIT
                    &&& (r == Ok::<ControlFlow, SimulationError>(ControlFlow::Break)
                        ==> final(self).world == w_mid)
                    &&& (r != Ok::<ControlFlow, SimulationError>(ControlFlow::Break) ==> integrated(
                        w_mid,
                        final(self).world,
                        final(self).delta_t_us as int,
                    ))
                },
    {
        self.fps_counter = self.fps_counter.saturating_add(1);
        if second_rolled {
            self.world.true_sim_fps = self.fps_counter;
            self.fps_counter = 0;
        }
        let ghost w0 = self.world;
        let ghost mut applied_cmds: Seq<ControlCommand> = Seq::empty();
        let mut halt: bool = false;
        let mut k: usize = 0;
        while k < DRAIN_LIMIT && !halt
            invariant
                self.wf(),
                self.state == old(self).state,
                self.state == DriverState::Running,
                self.published == old(self).published,
                self.world.elapsed_us == old(self).world.elapsed_us,
                self.world.celestials@.len() == old(self).world.celestials@.len(),
                self.world.spaceships@.len() == old(self).world.spaceships@.len(),
                forall|i: int|
                    0 <= i < old(self).world.celestials@.len() ==> {
                        &&& (#[trigger] self.world.celestials@[i]).pos == old(
                            self,
                        ).world.celestials@[i].pos
                        &&& self.world.celestials@[i].name@ == old(self).world.celestials@[i].name@
                        &&& self.world.celestials@[i].mass == old(self).world.celestials@[i].mass
                        &&& self.world.celestials@[i].rad == old(self).world.celestials@[i].rad
                    },
                forall|i: int|
                    0 <= i < old(self).world.spaceships@.len() ==> {
                        &&& (#[trigger] self.world.spaceships@[i]).pos == old(
                            self,
                        ).world.spaceships@[i].pos
                        &&& self.world.spaceships@[i].name@ == old(self).world.spaceships@[i].name@
                        &&& self.world.spaceships@[i].mass == old(self).world.spaceships@[i].mass
                    },
                k <= DRAIN_LIMIT,
                same_but_fps(w0, old(self).world),
                applied_cmds.len() <= k,
                cmds_reach(
                    w0,
                    old(self).time_scale_ppm,
                    old(self).rejected_commands,
                    applied_cmds,
                    self.world,
                    self.time_scale_ppm,
                    self.rejected_commands,
                ),
                self.simulation_fps == old(self).simulation_fps,
            decreases DRAIN_LIMIT - k,
        {
            match poll_command(&mut self.control) {
                CommandPoll::Received(command) => {
                    let ghost cmd_snap = command;
                    let ghost w_before = self.world;
                    let ghost ts_before = self.time_scale_ppm;
                    let ghost rej_before = self.rejected_commands;
                    halt = self.apply_command(command);
                    proof {
                        lemma_cmds_reach_snoc(
                            w0,
                            old(self).time_scale_ppm,
                            old(self).rejected_commands,
                            applied_cmds,
                            w_before,
                            ts_before,
                            rej_before,
                            cmd_snap,
                            self.world,
                            self.time_scale_ppm,
                            self.rejected_commands,
                        );
                        applied_cmds = applied_cmds.push(cmd_snap);
                    }
                },
                CommandPoll::Empty => {
                    break ;
                },
                CommandPoll::Closed => {
                    halt = true;
                },
            }
            k = k + 1;
        }
        if halt {
            self.state = DriverState::ShuttingDown;
            proof {
                assert(cmds_reach(
                    w0,
                    old(self).time_scale_ppm,
                    old(self).rejected_commands,
                    applied_cmds,
                    self.world,
                    self.time_scale_ppm,
                    self.rejected_commands,
                ));
            }
            return Ok(ControlFlow::Break);
        }
        let delta_t: u64 = self.delta_t_us;
        let ghost w_mid = self.world;
        self.world.update(delta_t);
        proof {
            assert(tick_worlds(old(self).world, w_mid, self.world, delta_t as int));
            assert(integrated(w_mid, self.world, delta_t as int));
            assert(cmds_reach(
                w0,
                old(self).time_scale_ppm,
                old(self).rejected_commands,
                applied_cmds,
                w_mid,
                self.time_scale_ppm,
                self.rejected_commands,
            ));
        }
        match publish_world(&self.world_publisher, &self.world) {
            Ok(_) => {
                self.published = self.published.saturating_add(1);
                proof {
                    assert(cmds_reach(
                        w0,
                        old(self).time_scale_ppm,
                        old(self).rejected_commands,
                        applied_cmds,
                        w_mid,
                        self.time_scale_ppm,
                        self.rejected_commands,
                    ));
                    assert(integrated(w_mid, self.world, self.delta_t_us as int));
                }
                Ok(ControlFlow::Continue)
            },
            Err(_) => {
                self.state = DriverState::Stopped;
                proof {
                    assert(cmds_reach(
                        w0,
                        old(self).time_scale_ppm,
                        old(self).rejected_commands,
                        applied_cmds,
                        w_mid,
                        self.time_scale_ppm,
                        self.rejected_commands,
                    ));
                    assert(integrated(w_mid, self.world, self.delta_t_us as int));
                }
                Err(SimulationError::PublisherClosed)
            },
        }
    }
}

} // verus!
