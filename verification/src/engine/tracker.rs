//! Period tracking: a ring of raw samples, the period detector and the
//! zero-crossing detector, combined into periods that begin and end on zero
//! crossings.
use vstd::prelude::*;
use crate::dsp::cycle_detector::{CycleDetector, DetectorState};
use crate::dsp::level::{Reading, Sign};
use crate::dsp::zero::{is_crossing, ZeroDetector};
use crate::error::InitError;
use crate::memory::Arena;

verus! {

/// Size of the tracker's ring, in samples.
#[derive(Clone, Copy, Debug)]
pub struct Config {
    pub buffer_size: usize,
}

/// A pitch period as a stretch of the ring, from one zero crossing to a later
/// one.
#[derive(Clone, Copy, Debug, PartialEq, Eq, Structural)]
pub struct Cycle {
    /// Ring index at which the period begins.
    pub start: usize,
    /// Ring index at which it ends.
    pub end: usize,
    /// Its length in samples, counted around the ring.
    pub length: usize,
    /// True only on the sample that closed this period.
    pub fresh: bool,
}

impl Default for Cycle {
    fn default() -> (c: Cycle)
        ensures
            c == (Cycle { start: 0, end: 0, length: 0, fresh: false }),
    {
        Cycle { start: 0, end: 0, length: 0, fresh: false }
    }
}

/// Steps from ring index `from` forward to ring index `to`, in a ring of
/// `capacity` slots.
pub open spec fn ring_distance(from: int, to: int, capacity: int) -> int {
    (to + capacity - from) % capacity
}

/// The tracker as a mathematical value.
pub ghost struct TrackerState<T> {
    /// The ring of raw samples.
    pub ring: Seq<T>,
    /// Where the next sample is written.
    pub index: nat,
    /// Ring index of the latest zero crossing.
    pub last_zero: nat,
    /// The period reported last.
    pub last_cycle: Cycle,
    pub detector: DetectorState,
    /// Sign of the sample seen last.
    pub prev_sign: Sign,
}

impl<T> TrackerState<T> {
    /// Number of slots in the ring.
    pub open spec fn capacity(self) -> nat {
        self.ring.len()
    }

    /// Every index lies in the ring, and the period's length is the distance
    /// from its start to its end.
    pub open spec fn wf(self) -> bool {
        &&& self.capacity() > 0
        &&& self.index < self.capacity()
        &&& self.last_zero < self.capacity()
        &&& self.last_cycle.start < self.capacity()
        &&& self.last_cycle.end < self.capacity()
        &&& self.last_cycle.length == ring_distance(
            self.last_cycle.start as int,
            self.last_cycle.end as int,
            self.capacity() as int,
        )
    }

    /// The state of a new tracker over a ring with the given content.
    pub open spec fn init(ring: Seq<T>) -> TrackerState<T> {
        TrackerState {
            ring,
            index: 0,
            last_zero: 0,
            last_cycle: Cycle { start: 0, end: 0, length: 0, fresh: false },
            detector: DetectorState::init(),
            prev_sign: Sign::Zero,
        }
    }

    /// The period reported for a sample. On a period start the new period
    /// runs from the end of the previous one to the latest zero crossing;
    /// otherwise the previous period is repeated and is no longer fresh.
    pub open spec fn cycle_for(self, start: bool) -> Cycle {
        if start {
            Cycle {
                start: self.last_cycle.end,
                end: self.last_zero as usize,
                length: ring_distance(
                    self.last_cycle.end as int,
                    self.last_zero as int,
                    self.capacity() as int,
                ) as usize,
                fresh: true,
            }
        } else {
            Cycle { fresh: false, ..self.last_cycle }
        }
    }

    /// The period reported for a sample with this reading.
    pub open spec fn output(self, reading: Reading) -> Cycle {
        self.cycle_for(self.detector.info(reading.high, reading.low).start)
    }

    /// The state after `sample`, which was read as `reading`.
    pub open spec fn next(self, sample: T, reading: Reading) -> TrackerState<T> {
        TrackerState {
            ring: self.ring.update(self.index as int, sample),
            index: ((self.index + 1) as int % (self.capacity() as int)) as nat,
            last_zero: if is_crossing(self.prev_sign, reading.sign) {
                self.index
            } else {
                self.last_zero
            },
            last_cycle: self.output(reading),
            detector: self.detector.next(reading.high, reading.low),
            prev_sign: reading.sign,
        }
    }
}

/// Ring buffer of raw samples with the two detectors that cut it into
/// periods.
pub struct CycleTracker<'a, T> {
    buffer: &'a mut [T],
    buffer_size: usize,
    index: usize,
    cycle_detector: CycleDetector,
    zero_detector: ZeroDetector,
    last_zero: usize,
    last_cycle: Cycle,
}

impl<'a, T: Copy> View for CycleTracker<'a, T> {
    type V = TrackerState<T>;

    closed spec fn view(&self) -> TrackerState<T> {
        TrackerState {
            ring: self.buffer@,
            index: self.index as nat,
            last_zero: self.last_zero as nat,
            last_cycle: self.last_cycle,
            detector: self.cycle_detector@,
            prev_sign: self.zero_detector.prev(),
        }
    }
}

proof fn lemma_ring_distance(from: int, to: int, capacity: int)
    requires
        0 <= from < capacity,
        0 <= to < capacity,
    ensures
        ring_distance(from, to, capacity) == if to >= from {
            to - from
        } else {
            to + (capacity - from)
        },
        0 <= ring_distance(from, to, capacity) < capacity,
{
    if to >= from {
        vstd::arithmetic::div_mod::lemma_mod_add_multiples_vanish(to - from, capacity);
        vstd::arithmetic::div_mod::lemma_small_mod((to - from) as nat, capacity as nat);
        assert(to + capacity - from == capacity + (to - from));
    } else {
        vstd::arithmetic::div_mod::lemma_small_mod((to + capacity - from) as nat, capacity as nat);
    }
}

impl<'a, T: Copy> CycleTracker<'a, T> {
    /// The fields agree with the view.
    pub closed spec fn consistent(&self) -> bool {
        self.buffer_size == self.buffer@.len()
    }

    /// The invariant of the tracker.
    pub open spec fn wf(&self) -> bool {
        self@.wf() && self.consistent()
    }

    /// A tracker whose ring of `config.buffer_size` samples comes from
    /// `arena`. Fails, leaving the arena as it was, where the ring would be
    /// empty or the arena has too little left.
    pub fn new(config: Config, arena: &mut Arena<'a, T>) -> (tracker: Result<Self, InitError>)
        requires
            old(arena).wf(),
        ensures
            final(arena).wf(),
            final(arena).fill() == old(arena).fill(),
            config.buffer_size == 0 ==> tracker == Err::<Self, InitError>(InitError::EmptyBuffer),
            config.buffer_size > old(arena)@.remaining() ==> tracker == Err::<Self, InitError>(
                InitError::ArenaExhausted,
            ),
            0 < config.buffer_size <= old(arena)@.remaining() ==> tracker is Ok,
            tracker is Err ==> final(arena)@ == old(arena)@,
            tracker is Ok ==> Some(final(arena)@) == old(arena)@.allocate(
                config.buffer_size as nat,
            ),
            tracker is Ok ==> tracker.unwrap().wf() && tracker.unwrap()@ == TrackerState::init(
                Seq::new(config.buffer_size as nat, |i: int| old(arena).fill()),
            ),
    {
        if config.buffer_size == 0 {
            return Err(InitError::EmptyBuffer);
        }
        match arena.allocate_buffer(config.buffer_size) {
            None => Err(InitError::ArenaExhausted),
            Some(buffer) => {
                proof {
                    lemma_ring_distance(0, 0, config.buffer_size as int);
                }
                Ok(
                    CycleTracker {
                        buffer,
                        buffer_size: config.buffer_size,
                        index: 0,
                        cycle_detector: CycleDetector::new(),
                        zero_detector: ZeroDetector::new(),
                        last_zero: 0,
                        last_cycle: Cycle::default(),
                    },
                )
            },
        }
    }

    /// Number of slots in the ring.
    pub fn capacity(&self) -> (n: usize)
        requires
            self.wf(),
        ensures
            n == self@.capacity(),
            n > 0,
    {
        self.buffer_size
    }

    /// The period reported last.
    pub fn last_cycle(&self) -> (cycle: Cycle)
        ensures
            cycle == self@.last_cycle,
    {
        self.last_cycle
    }

    /// The sample stored at ring index `i`.
    pub fn sample_at(&self, i: usize) -> (sample: T)
        requires
            self.wf(),
            i < self@.capacity(),
        ensures
            sample == self@.ring[i as int],
    {
        self.buffer[i]
    }

    /// Stores `sample` in the ring, advances both detectors with `reading`,
    /// and reports the current period.
    pub fn process(&mut self, sample: T, reading: Reading) -> (cycle: Cycle)
        requires
            old(self).wf(),
        ensures
            final(self).wf(),
            final(self)@ == old(self)@.next(sample, reading),
            cycle == old(self)@.output(reading),
            cycle.fresh == old(self)@.detector.info(reading.high, reading.low).start,
            cycle.length < old(self)@.capacity(),
            cycle.fresh ==> cycle.start == old(self)@.last_cycle.end && cycle.end == old(
                self,
            )@.last_zero,
    {
        proof {
            lemma_ring_distance(
                self.last_cycle.end as int,
                self.last_zero as int,
                self.buffer_size as int,
            );
            lemma_ring_distance(
                self.last_cycle.start as int,
                self.last_cycle.end as int,
                self.buffer_size as int,
            );
        }
        self.buffer[self.index] = sample;
        let cycle_info = self.cycle_detector.process(reading.high, reading.low);
        if cycle_info.start {
            let start = self.last_cycle.end;
            let end = self.last_zero;
            let length = if end >= start {
                end - start
            } else {
                end + (self.buffer_size - start)
            };
            self.last_cycle = Cycle { start, end, length, fresh: true };
        } else {
            self.last_cycle.fresh = false;
        }

        if self.zero_detector.process(reading.sign) {
            self.last_zero = self.index;
        }

        self.index = if self.index + 1 == self.buffer_size {
            0
        } else {
            self.index + 1
        };
        proof {
            let cap = self.buffer_size as int;
            let i = old(self).index as int;
            if i + 1 == cap {
                vstd::arithmetic::div_mod::lemma_mod_self_0(cap);
            } else {
                vstd::arithmetic::div_mod::lemma_small_mod((i + 1) as nat, cap as nat);
            }
        }
        self.last_cycle
    }
}

} // verus!
