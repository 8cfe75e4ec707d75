//! What the detectors are told about one sample: its sign, and where the
//! filtered signal stands relative to each adaptive threshold.
use vstd::prelude::*;

verus! {

/// The sign of a sample.
#[derive(Clone, Copy, Debug, PartialEq, Eq, Structural)]
pub enum Sign {
    Negative,
    Zero,
    Positive,
}

impl Sign {
    /// The sign of the negated sample.
    pub open spec fn negated(self) -> Sign {
        match self {
            Sign::Negative => Sign::Positive,
            Sign::Zero => Sign::Zero,
            Sign::Positive => Sign::Negative,
        }
    }

    /// The sign of the product of two samples with these signs.
    pub open spec fn times(self, other: Sign) -> Sign {
        if self == Sign::Zero || other == Sign::Zero {
            Sign::Zero
        } else if self == other {
            Sign::Positive
        } else {
            Sign::Negative
        }
    }

    /// Sign of the negated sample.
    pub fn negate(self) -> (s: Sign)
        ensures
            s == self.negated(),
    {
        match self {
            Sign::Negative => Sign::Positive,
            Sign::Zero => Sign::Zero,
            Sign::Positive => Sign::Negative,
        }
    }

    /// Sign of a product.
    pub fn multiply(self, other: Sign) -> (s: Sign)
        ensures
            s == self.times(other),
    {
        match (self, other) {
            (Sign::Zero, _) => Sign::Zero,
            (_, Sign::Zero) => Sign::Zero,
            (Sign::Positive, Sign::Positive) => Sign::Positive,
            (Sign::Negative, Sign::Negative) => Sign::Positive,
            _ => Sign::Negative,
        }
    }
}

/// Where a value stands relative to a threshold. `At` covers equality and
/// every case in which neither strict comparison holds.
#[derive(Clone, Copy, Debug, PartialEq, Eq, Structural)]
pub enum Level {
    Below,
    At,
    Above,
}

/// Everything the detectors read of one sample.
#[derive(Clone, Copy, Debug, PartialEq, Eq, Structural)]
pub struct Reading {
    /// The filtered signal relative to the upper envelope threshold.
    pub high: Level,
    /// The filtered signal relative to the lower envelope threshold.
    pub low: Level,
    /// The sign of the raw sample.
    pub sign: Sign,
}

} // verus!
