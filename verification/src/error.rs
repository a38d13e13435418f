//! Errors that the plot operations report.
use vstd::prelude::*;

verus! {

/// Why an operation on a plot was rejected.
#[derive(Clone, Copy, Debug, PartialEq, Eq, Structural)]
pub enum PlotError {
    /// The lower bound is not strictly below the upper bound on some axis.
    InvalidBounds,
    /// Fewer than two samples: a curve needs at least one segment.
    InsufficientSamples,
    /// More samples than a mesh with 32-bit indices can hold.
    TooManySamples,
    /// The canvas has a negative border, or no inner region of at least one
    /// unit on each axis.
    InvalidCanvas,
}

} // verus!
