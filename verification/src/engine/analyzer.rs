//! The phase memory of the frequency analyser: one slot for each frequency
//! bin below Nyquist, kept from one analysis window to the next.
use vstd::prelude::*;
use crate::error::InitError;
use crate::memory::Arena;

verus! {

/// The phase memory as a mathematical value.
pub ghost struct PhaseState<T> {
    /// The phase of every bin at the previous window.
    pub phases: Seq<T>,
    /// A previous window exists.
    pub primed: bool,
}

/// The phase of the peak bin at two successive windows.
pub struct PhasePair<T> {
    /// The phase at the previous window.
    pub previous: T,
    /// The phase at this window.
    pub current: T,
}

/// One phase for each frequency bin, as of the previous analysis window.
pub struct PhaseHistory<'a, T> {
    phases: &'a mut [T],
    primed: bool,
}

impl<'a, T: Copy> View for PhaseHistory<'a, T> {
    type V = PhaseState<T>;

    closed spec fn view(&self) -> PhaseState<T> {
        PhaseState { phases: self.phases@, primed: self.primed }
    }
}

impl<'a, T: Copy> PhaseHistory<'a, T> {
    /// A phase memory of `bins` slots taken from `arena`, not yet primed.
    /// Fails, leaving the arena as it was, for a memory of no bins and where
    /// the arena has too little left.
    pub fn new(bins: usize, arena: &mut Arena<'a, T>) -> (history: Result<Self, InitError>)
        requires
            old(arena).wf(),
        ensures
            final(arena).wf(),
            final(arena).fill() == old(arena).fill(),
            bins == 0 ==> history == Err::<Self, InitError>(InitError::EmptyBuffer),
            bins > old(arena)@.remaining() ==> history == Err::<Self, InitError>(
                InitError::ArenaExhausted,
            ),
            0 < bins <= old(arena)@.remaining() ==> history is Ok,
            history is Err ==> final(arena)@ == old(arena)@,
            history is Ok ==> Some(final(arena)@) == old(arena)@.allocate(bins as nat),
            history is Ok ==> history.unwrap()@ == (PhaseState {
                phases: Seq::new(bins as nat, |i: int| old(arena).fill()),
                primed: false,
            }),
    {
        if bins == 0 {
            return Err(InitError::EmptyBuffer);
        }
        match arena.allocate_buffer(bins) {
            None => Err(InitError::ArenaExhausted),
            Some(phases) => Ok(PhaseHistory { phases, primed: false }),
        }
    }

    /// Number of bins.
    pub fn bins(&self) -> (n: usize)
        ensures
            n == self@.phases.len(),
    {
        self.phases.len()
    }

    /// Stores the phases of the current window and hands back the phase of
    /// bin `peak` at the previous window together with its current phase.
    /// The result is `None` at the first window, which has no predecessor to
    /// compare with.
    pub fn exchange(&mut self, peak: usize, current: &[T]) -> (pair: Option<PhasePair<T>>)
        requires
            current@.len() == old(self)@.phases.len(),
            peak < old(self)@.phases.len(),
        ensures
            final(self)@ == (PhaseState { phases: current@, primed: true }),
            pair is Some <==> old(self)@.primed,
            pair matches Some(p) ==> p.previous == old(self)@.phases[peak as int] && p.current
                == current@[peak as int],
    {
        let previous = self.phases[peak];
        let bins = self.phases.len();
        let mut i: usize = 0;
        while i < bins
            invariant
                i <= bins,
                bins == current@.len(),
                self.phases@.len() == bins,
                self.primed == old(self).primed,
                forall|j: int| 0 <= j < i ==> self.phases@[j] == current@[j],
            decreases bins - i,
        {
            self.phases[i] = current[i];
            i += 1;
        }
        assert(self.phases@ =~= current@);
        let was_primed = self.primed;
        self.primed = true;
        if was_primed {
            Some(PhasePair { previous, current: current[peak] })
        } else {
            None
        }
    }
}

} // verus!
