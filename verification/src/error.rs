//! The reasons for which setting up a component can fail.
use vstd::prelude::*;

verus! {

/// Why a component could not be set up.
#[derive(Clone, Copy, Debug, PartialEq, Eq, Structural)]
pub enum InitError {
    /// A buffer of no elements was asked for where one sample at least is needed.
    EmptyBuffer,
    /// The arena has fewer units left than the component needs.
    ArenaExhausted,
    /// A bank of no voices was asked for.
    NoVoices,
    /// A sample rate of zero.
    ZeroSampleRate,
    /// The window is not a power of two of at least two samples.
    WindowNotPowerOfTwo,
    /// Audio blocks of no samples.
    EmptyBlock,
    /// The window is empty or not a whole number of blocks.
    WindowNotWholeBlocks,
    /// The hop is empty or not a whole number of blocks.
    HopNotWholeBlocks,
    /// The history is not a whole number of blocks.
    HistoryNotWholeBlocks,
    /// The window is longer than the history.
    WindowExceedsHistory,
    /// The hop is longer than the history, so that a window and a hop
    /// together do not fit the history buffer.
    HopExceedsHistory,
}

} // verus!
