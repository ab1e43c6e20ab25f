use vstd::prelude::*;

use crate::command::{CommandPoll, ControlCommand};
use crate::world::World;

verus! {

// The two channels of the driver, taken from tokio's sync primitives:
// a watch channel broadcasts the latest snapshot to any number of
// observers without ever blocking the producer, and a bounded mpsc
// channel carries control commands from any number of producers to the
// one driver.  Verus sees these types as opaque and believes only the
// contracts written here; the tests exercise them against the real crate.

#[verifier::external_type_specification]
#[verifier::external_body]
#[verifier::reject_recursive_types(T)]
pub struct ExWatchSender<T>(tokio::sync::watch::Sender<T>);

#[verifier::external_type_specification]
#[verifier::external_body]
#[verifier::reject_recursive_types(T)]
pub struct ExWatchReceiver<T>(tokio::sync::watch::Receiver<T>);

#[verifier::external_type_specification]
#[verifier::external_body]
#[verifier::reject_recursive_types(T)]
pub struct ExWatchSendError<T>(tokio::sync::watch::error::SendError<T>);

#[verifier::external_type_specification]
#[verifier::external_body]
#[verifier::reject_recursive_types(T)]
pub struct ExMpscReceiver<T>(tokio::sync::mpsc::Receiver<T>);

/// Relies on tokio::sync::watch::channel: creates a snapshot channel that
/// initially holds a copy of `initial`.
#[verifier::external_body]
pub fn new_world_channel(initial: &World) -> (tokio::sync::watch::Sender<World>, tokio::sync::watch::Receiver<World>) {
    tokio::sync::watch::channel(initial.clone())
}

/// Relies on tokio::sync::watch::Sender::send: replaces the watched value
/// with a copy of `world` for every current and future receiver, without
/// blocking; it fails, returning the value, exactly when no receiver is
/// left alive.
#[verifier::external_body]
pub fn publish_world(tx: &tokio::sync::watch::Sender<World>, world: &World) -> Result<
    (),
    tokio::sync::watch::error::SendError<World>,
> {
    tx.send(world.clone())
}

/// Relies on tokio::sync::mpsc::Receiver::try_recv: takes the oldest
/// pending command without blocking, reports an empty queue, or reports
/// that every sender is gone.
#[verifier::external_body]
pub fn poll_command(rx: &mut tokio::sync::mpsc::Receiver<ControlCommand>) -> CommandPoll {
    match rx.try_recv() {
        Ok(command) => CommandPoll::Received(command),
        Err(tokio::sync::mpsc::error::TryRecvError::Empty) => CommandPoll::Empty,
        Err(tokio::sync::mpsc::error::TryRecvError::Disconnected) => CommandPoll::Closed,
    }
}

} // verus!
