//! A small N-body gravity simulator: celestial bodies attract one another
//! (and massless spacecraft) in fixed-point arithmetic, a driver advances
//! the world at a fixed cadence, and snapshots are published to observers.

mod celestial;
mod celestials;
mod channel;
mod command;
mod config;
mod error;
mod frame;
mod laws;
mod logo;
mod simulation;
mod spaceship;
mod vec3;
mod window;
mod world;

pub use celestial::Celestial;
pub use celestials::{accel_at, accel_contrib, cels_wf, has_name, lemma_term_toward_source, Celestials};
pub use channel::{new_world_channel, poll_command, publish_world};
pub use command::{CommandPoll, ControlCommand, ControlFlow};
pub use config::{earth, iss, moon, new_solar, sun};
pub use error::{ConfigError, SimulationError};
pub use frame::Frame;
pub use laws::{
    lemma_consumer_sees_monotone, lemma_quiet_commands, lemma_zero_dt_celestial,
    lemma_zero_dt_spaceship, lemma_zero_dt_tick_freezes, lemma_zero_scale_stops_clock,
    lemma_zero_scale_tick_freezes, quiet_command,
};
pub use logo::Logo;
pub use simulation::{
    clamped_scale, cmd_step, cmds_reach, integrated, same_but_fps, sat_add_u64, tick_worlds,
    trigger_applies, world_triggered, DriverState, Simulation, DRAIN_LIMIT, TIME_SCALE_LIMIT,
};
pub use spaceship::Spaceship;
pub use vec3::{NormVec3, Vec3, V3};
pub use window::{text_test, Canvas, TextWindow, Window};
pub use world::{
    cel_sped, cel_stepped, has_ship_name, sat_add_u128, ship_sped, ship_stepped, ships_wf, Body,
    World,
};
