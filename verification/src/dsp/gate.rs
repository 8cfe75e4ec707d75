//! A two-state gate, the building block of the hysteresis detectors.
use vstd::prelude::*;

verus! {

/// A gate is either open (`On`) or closed (`Off`). A fresh gate is closed.
#[derive(Clone, Copy, Debug, PartialEq, Eq, Structural)]
pub enum Gate {
    On,
    Off,
}

impl Gate {
    /// The opposite state.
    pub open spec fn toggled(self) -> Gate {
        match self {
            Gate::On => Gate::Off,
            Gate::Off => Gate::On,
        }
    }

    /// True exactly when `self` is `On`.
    pub fn on(&self) -> (b: bool)
        ensures
            b == (*self == Gate::On),
    {
        match self {
            Gate::On => true,
            Gate::Off => false,
        }
    }

    /// True exactly when `self` is `Off`.
    pub fn off(&self) -> (b: bool)
        ensures
            b == (*self == Gate::Off),
    {
        match self {
            Gate::On => false,
            Gate::Off => true,
        }
    }

    /// Opens a closed gate and closes an open one.
    pub fn toggle(&mut self)
        ensures
            *final(self) == old(self).toggled(),
    {
        *self = match self {
            Gate::On => Gate::Off,
            Gate::Off => Gate::On,
        }
    }
}

impl Default for Gate {
    fn default() -> (g: Gate)
        ensures
            g == Gate::Off,
    {
        Gate::Off
    }
}

} // verus!
