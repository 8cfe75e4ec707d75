//! Zero-crossing detection on the sign of successive samples.
use vstd::prelude::*;
use crate::dsp::level::Sign;

verus! {

/// Remembers the sign of the previous sample. A fresh detector has seen a
/// zero.
#[derive(Clone, Copy, Debug)]
pub struct ZeroDetector {
    prev_sign: Sign,
}

/// A sample crosses zero when its product with the previous sample is not
/// positive.
pub open spec fn is_crossing(prev: Sign, sign: Sign) -> bool {
    sign.times(prev) != Sign::Positive
}

impl ZeroDetector {
    /// Sign of the sample seen last.
    pub closed spec fn prev(self) -> Sign {
        self.prev_sign
    }

    /// A detector that has seen a zero.
    pub fn new() -> (d: ZeroDetector)
        ensures
            d.prev() == Sign::Zero,
    {
        ZeroDetector { prev_sign: Sign::Zero }
    }

    /// Takes the sign of the next sample and says whether it crosses zero.
    pub fn process(&mut self, sign: Sign) -> (crossing: bool)
        ensures
            crossing == is_crossing(old(self).prev(), sign),
            final(self).prev() == sign,
    {
        let product = sign.multiply(self.prev_sign);
        self.prev_sign = sign;
        match product {
            Sign::Positive => false,
            _ => true,
        }
    }
}

/// A non-zero sample followed by one of the opposite sign is a crossing,
/// whatever came before.
pub proof fn lemma_opposite_sign_crosses(sign: Sign)
    requires
        sign != Sign::Zero,
    ensures
        is_crossing(sign, sign.negated()),
{
}

/// A zero sample is a crossing after every sample, and so is the sample that
/// follows it.
pub proof fn lemma_zero_always_crosses(prev: Sign, next: Sign)
    ensures
        is_crossing(prev, Sign::Zero),
        is_crossing(Sign::Zero, next),
{
}

/// Two samples of the same strict sign are the only pairs that do not cross.
pub proof fn lemma_no_crossing_iff_same_side(prev: Sign, sign: Sign)
    ensures
        !is_crossing(prev, sign) <==> (prev == sign && sign != Sign::Zero),
{
}

} // verus!
