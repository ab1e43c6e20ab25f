use vstd::prelude::*;

verus! {

/// A runtime control command, consumed only by the simulation driver.
#[derive(Clone, Debug)]
pub enum ControlCommand {
    /// Stop the loop after the current tick.
    Shutdown,
    /// Replace the stored time scale: simulated microseconds per wall-clock
    /// second (equivalently, the wall-to-simulated multiplier in parts per
    /// million).  Zero freezes the simulation.
    SetTimeScale(u64),
    /// Apply the named event to the named body, if such a body exists.
    TriggerEvent(String, String),
}

/// Whether the driver's loop goes on after a step.
#[derive(Clone, Copy, Debug, PartialEq, Eq, Structural)]
pub enum ControlFlow {
    Continue,
    Break,
}

/// What one non-blocking poll of the command queue yielded.
#[derive(Clone, Debug)]
pub enum CommandPoll {
    /// A command was pending.
    Received(ControlCommand),
    /// Nothing pending; senders still exist.
    Empty,
    /// All senders are gone; no command can ever arrive again.
    Closed,
}

} // verus!
