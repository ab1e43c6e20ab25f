use vstd::prelude::*;

use crate::celestial::Celestial;
use crate::command::ControlCommand;
use crate::simulation::{cmd_step, cmds_reach, integrated, tick_worlds, Simulation};
use crate::spaceship::Spaceship;
use crate::vec3::{POS_SCALE, VEL_SCALE};
use crate::world::{cel_stepped, ship_stepped, World};

verus! {

/// A command that can neither unfreeze a zero time scale nor alter any
/// body: `Shutdown` or `SetTimeScale(0)`.
pub open spec fn quiet_command(cmd: ControlCommand) -> bool {
    match cmd {
        ControlCommand::Shutdown => true,
        ControlCommand::SetTimeScale(factor) => factor == 0,
        ControlCommand::TriggerEvent(_, _) => false,
    }
}

/// A chain of quiet commands leaves the world untouched and a zero time
/// scale at zero.
pub proof fn lemma_quiet_commands(
    w1: World,
    ts1: u64,
    rej1: u64,
    cmds: Seq<ControlCommand>,
    w2: World,
    ts2: u64,
    rej2: u64,
)
    requires
        cmds_reach(w1, ts1, rej1, cmds, w2, ts2, rej2),
        forall|k: int| 0 <= k < cmds.len() ==> quiet_command(#[trigger] cmds[k]),
        ts1 == 0,
    ensures
        w2 == w1,
        ts2 == 0,
        rej2 == rej1,
    decreases cmds.len(),
{
    if cmds.len() > 0 {
        let (wm, tsm, rejm) = choose|wm: World, tsm: u64, rejm: u64|
            #[trigger] cmd_step(w1, ts1, rej1, cmds[0], wm, tsm, rejm) && cmds_reach(
                wm,
                tsm,
                rejm,
                cmds.drop_first(),
                w2,
                ts2,
                rej2,
            );
        assert(quiet_command(cmds[0]));
        assert(wm == w1 && tsm == 0 && rejm == rej1);
        assert forall|k: int|
            0 <= k < cmds.drop_first().len() implies quiet_command(
            #[trigger] cmds.drop_first()[k]) by {
            assert(cmds.drop_first()[k] == cmds[k + 1]);
        }
        lemma_quiet_commands(wm, tsm, rejm, cmds.drop_first(), w2, ts2, rej2);
    }
}

/// `SetTimeScale(0)` freezes all positions and velocities across
/// subsequent ticks.  Once the stored time scale is zero, any tick whose
/// drained commands are all quiet (shutdowns or further zero scales)
/// derives a zero tick duration and integrates nothing: every body keeps
/// exactly its position and velocity.  The premises are the pieces of
/// `Simulation::tick`'s postcondition; `w_mid` and `cmds` are the
/// witnesses its drained-commands clause provides.
pub proof fn lemma_zero_scale_tick_freezes(
    pre: Simulation,
    post: Simulation,
    w_mid: World,
    cmds: Seq<ControlCommand>,
)
    requires
        pre.wf(),
        post.wf(),
        pre.time_scale_ppm == 0,
        forall|k: int| 0 <= k < cmds.len() ==> quiet_command(#[trigger] cmds[k]),
        cmds_reach(
            pre.world,
            pre.time_scale_ppm,
            pre.rejected_commands,
            cmds,
            w_mid,
            post.time_scale_ppm,
            post.rejected_commands,
        ),
        integrated(w_mid, post.world, post.delta_t_us as int),
    ensures
        post.time_scale_ppm == 0,
        post.delta_t_us == 0,
        post.world.celestials@.len() == pre.world.celestials@.len(),
        post.world.spaceships@.len() == pre.world.spaceships@.len(),
        forall|i: int|
            0 <= i < pre.world.celestials@.len() ==> (#[trigger] post.world.celestials@[i]).pos
                == pre.world.celestials@[i].pos && post.world.celestials@[i].vel
                == pre.world.celestials@[i].vel,
        forall|i: int|
            0 <= i < pre.world.spaceships@.len() ==> (#[trigger] post.world.spaceships@[i]).pos
                == pre.world.spaceships@[i].pos && post.world.spaceships@[i].vel
                == pre.world.spaceships@[i].vel,
{
    lemma_quiet_commands(
        pre.world,
        pre.time_scale_ppm,
        pre.rejected_commands,
        cmds,
        w_mid,
        post.time_scale_ppm,
        post.rejected_commands,
    );
    vstd::arithmetic::div_mod::lemma_div_of0(post.simulation_fps as int);
    assert(post.delta_t_us == 0);
    assert forall|i: int|
        0 <= i < pre.world.celestials@.len() implies (#[trigger] post.world.celestials@[i]).pos
        == pre.world.celestials@[i].pos && post.world.celestials@[i].vel
        == pre.world.celestials@[i].vel by {
        assert(pre.world.celestials@[i].wf());
        lemma_zero_dt_celestial(
            pre.world.celestials@[i],
            post.world.celestials@[i],
            pre.world.celestials@,
            i,
        );
    }
    assert forall|i: int|
        0 <= i < pre.world.spaceships@.len() implies (#[trigger] post.world.spaceships@[i]).pos
        == pre.world.spaceships@[i].pos && post.world.spaceships@[i].vel
        == pre.world.spaceships@[i].vel by {
        assert(pre.world.spaceships@[i].wf());
        lemma_zero_dt_spaceship(
            pre.world.spaceships@[i],
            post.world.spaceships@[i],
            pre.world.celestials@,
        );
    }
}

/// A driver whose stored time scale is zero derives a zero tick duration:
/// after `SetTimeScale(0)`, `dt = time_scale / fps = 0`.
pub proof fn lemma_zero_scale_stops_clock(s: Simulation)
    requires
        s.wf(),
        s.time_scale_ppm == 0,
    ensures
        s.delta_t_us == 0,
{
    vstd::arithmetic::div_mod::lemma_div_of0(s.simulation_fps as int);
}

/// An integration step of zero duration leaves a well-formed celestial
/// body exactly where it was, with exactly its old velocity.
pub proof fn lemma_zero_dt_celestial(c: Celestial, c2: Celestial, src: Seq<Celestial>, i: int)
    requires
        c.wf(),
        cel_stepped(c, c2, src, i, 0),
    ensures
        c2.pos == c.pos,
        c2.vel == c.vel,
{
    vstd::arithmetic::div_mod::lemma_div_of0(VEL_SCALE as int);
    vstd::arithmetic::div_mod::lemma_div_of0(POS_SCALE as int);
}

/// An integration step of zero duration leaves a well-formed spacecraft
/// exactly where it was, with exactly its old velocity.
pub proof fn lemma_zero_dt_spaceship(s: Spaceship, s2: Spaceship, src: Seq<Celestial>)
    requires
        s.wf(),
        ship_stepped(s, s2, src, 0),
    ensures
        s2.pos == s.pos,
        s2.vel == s.vel,
{
    vstd::arithmetic::div_mod::lemma_div_of0(VEL_SCALE as int);
    vstd::arithmetic::div_mod::lemma_div_of0(POS_SCALE as int);
}

/// A whole tick of zero duration freezes the world: every body ends at
/// its pre-tick position, and with the velocity it had after the tick's
/// commands (commands themselves never move a body).  This is what every
/// tick after `SetTimeScale(0)` looks like.
pub proof fn lemma_zero_dt_tick_freezes(w_old: World, w_mid: World, w_new: World)
    requires
        tick_worlds(w_old, w_mid, w_new, 0),
    ensures
        forall|i: int|
            0 <= i < w_old.celestials@.len() ==> (#[trigger] w_new.celestials@[i]).pos
                == w_old.celestials@[i].pos,
        forall|i: int|
            0 <= i < w_old.spaceships@.len() ==> (#[trigger] w_new.spaceships@[i]).pos
                == w_old.spaceships@[i].pos,
        forall|i: int|
            0 <= i < w_old.celestials@.len() ==> (#[trigger] w_new.celestials@[i]).vel
                == w_mid.celestials@[i].vel,
        forall|i: int|
            0 <= i < w_old.spaceships@.len() ==> (#[trigger] w_new.spaceships@[i]).vel
                == w_mid.spaceships@[i].vel,
{
    assert forall|i: int|
        0 <= i < w_old.celestials@.len() implies (#[trigger] w_new.celestials@[i]).pos
        == w_old.celestials@[i].pos && w_new.celestials@[i].vel == w_mid.celestials@[i].vel by {
        assert(w_mid.celestials@[i].wf());
        lemma_zero_dt_celestial(w_mid.celestials@[i], w_new.celestials@[i], w_mid.celestials@, i);
    }
    assert forall|i: int|
        0 <= i < w_old.spaceships@.len() implies (#[trigger] w_new.spaceships@[i]).pos
        == w_old.spaceships@[i].pos && w_new.spaceships@[i].vel == w_mid.spaceships@[i].vel by {
        assert(w_mid.spaceships@[i].wf());
        lemma_zero_dt_spaceship(w_mid.spaceships@[i], w_new.spaceships@[i], w_mid.celestials@);
    }
}

/// A sequence that never decreases from one entry to the next never
/// decreases between any two ordered positions.
pub proof fn lemma_nondecreasing_between(times: Seq<int>, i: int, j: int)
    requires
        forall|k: int| 0 <= k < times.len() - 1 ==> #[trigger] times[k] <= times[k + 1],
        0 <= i <= j < times.len(),
    ensures
        times[i] <= times[j],
    decreases j - i,
{
    if i < j {
        lemma_nondecreasing_between(times, i, j - 1);
        assert(times[j - 1] <= times[j]);
    }
}

/// Observers never see simulated time rewind.  `published` is the
/// sequence of elapsed-time values carried by the snapshots, in publish
/// order; each tick publishes a time at least as large as the last, so
/// the sequence never decreases.  A consumer's reads are indices into
/// that sequence: the snapshot channel always hands out the latest value,
/// so a later wall-clock read sees a publication no earlier than any
/// read before it.  Whatever moments two consumers pick, each of them
/// reads a non-decreasing sequence of simulated times.
pub proof fn lemma_consumer_sees_monotone(published: Seq<int>, reads: Seq<int>)
    requires
        forall|k: int| 0 <= k < published.len() - 1 ==> #[trigger] published[k] <= published[k + 1],
        forall|k: int| 0 <= k < reads.len() ==> 0 <= #[trigger] reads[k] < published.len(),
        forall|k: int| 0 <= k < reads.len() - 1 ==> #[trigger] reads[k] <= reads[k + 1],
    ensures
        forall|k: int|
            0 <= k < reads.len() - 1 ==> #[trigger] published[reads[k]] <= published[reads[k + 1]],
{
    assert forall|k: int|
        0 <= k < reads.len() - 1 implies #[trigger] published[reads[k]] <= published[reads[k
        + 1]] by {
        lemma_nondecreasing_between(published, reads[k], reads[k + 1]);
    }
}

} // verus!
