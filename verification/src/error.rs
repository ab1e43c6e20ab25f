use vstd::prelude::*;

verus! {

/// Rejection of an initial configuration: bad body parameters or a name
/// collision, reported before any simulation starts.
#[derive(Clone, Copy, Debug, PartialEq, Eq, Structural)]
pub enum ConfigError {
    /// A mass was zero or negative.
    NonPositiveMass,
    /// A mass, radius, position or velocity fell outside the representable
    /// fixed-point range.
    OutOfRange,
    /// Two bodies in the same mapping carried the same name.
    DuplicateName,
}

/// A fatal driver condition: the snapshot channel has no receivers left,
/// so published state could never be observed again.
#[derive(Clone, Copy, Debug, PartialEq, Eq, Structural)]
pub enum SimulationError {
    PublisherClosed,
}

} // verus!
