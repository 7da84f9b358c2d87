use vstd::prelude::*;

verus! {

/// A condition that the bridge reports instead of corrupting memory or racing.
#[derive(Clone, Copy, Debug, PartialEq, Eq, Structural)]
pub enum BridgeError {
    /// The dimension is outside the menu of served sizes.
    UnsupportedDimension { n: usize },
    /// A run is already in flight and holds the callback slot.
    CallbackBusy,
    /// The objective was asked for while no run holds the callback slot.
    CallbackNotSet,
    /// The optimizer's result does not have the shape its dimension demands.
    MalformedResult,
    /// A result is already registered under this key.
    AlreadyLive { key: usize },
    /// No live result is registered under this key (never made, or already released).
    NotLive { key: usize },
    /// The result was made with another dimension than the one given to release it.
    DimensionMismatch { expected: usize, got: usize },
}

} // verus!
