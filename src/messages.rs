//! Commands carried from the host side to the worker thread.
use vstd::prelude::*;

verus! {

/// One control action destined for the worker thread.
#[derive(Clone, Copy, Debug, PartialEq, Eq, Structural)]
pub enum AppMsg {
    /// Stop the worker loop; anything queued behind it is discarded.
    Terminate,
    /// Tune the receiver to a frequency in Hz.
    Frequency(u32),
    /// Select the receive mode by its engine index.
    Mode(i32),
    /// Select the receive filter by its engine index.
    Filter(i32),
}

} // verus!
