//! The hysteresis state machine that marks the start of each pitch period.
//!
//! Two gates follow the signal against an upper and a lower threshold. A
//! third gate, `cycle`, opens when the upper one opens and closes when the
//! lower one opens; each opening of `cycle` starts a new period.
use vstd::prelude::*;
use crate::dsp::gate::Gate;
use crate::dsp::level::Level;

verus! {

/// What the detector reports for one sample.
#[derive(Clone, Copy, Debug, PartialEq, Eq, Structural)]
pub struct CycleDetectInfo {
    /// Samples between the two most recent period starts.
    pub length: u32,
    /// True on the sample that starts a new period.
    pub start: bool,
}

/// The same report under its shorter name.
pub type CycleInfo = CycleDetectInfo;

/// The detector as a mathematical value.
pub ghost struct DetectorState {
    pub high: Gate,
    pub low: Gate,
    pub cycle: Gate,
    /// Samples seen since the last period start, counted modulo 2^32.
    pub sample_counter: u32,
    /// Length of the last completed period.
    pub cycle_length: u32,
}

/// A gate with hysteresis: a closed gate opens on `opens`, an open gate closes
/// on `closes`, and nothing else moves it.
pub open spec fn hysteresis(gate: Gate, opens: bool, closes: bool) -> Gate {
    match gate {
        Gate::Off => if opens { Gate::On } else { Gate::Off },
        Gate::On => if closes { Gate::Off } else { Gate::On },
    }
}

/// The counter one sample later.
pub open spec fn count_up(counter: u32) -> u32 {
    if counter == u32::MAX { 0u32 } else { (counter + 1) as u32 }
}

impl DetectorState {
    /// All gates closed, nothing counted.
    pub open spec fn init() -> DetectorState {
        DetectorState {
            high: Gate::Off,
            low: Gate::Off,
            cycle: Gate::Off,
            sample_counter: 0,
            cycle_length: 0,
        }
    }

    /// The upper gate goes from closed to open on this sample.
    pub open spec fn high_opens(self, high: Level) -> bool {
        self.high == Gate::Off && high == Level::Above
    }

    /// The lower gate goes from closed to open on this sample.
    pub open spec fn low_opens(self, low: Level) -> bool {
        self.low == Gate::Off && low == Level::Below
    }

    /// This sample starts a new period.
    pub open spec fn starts(self, high: Level) -> bool {
        self.cycle == Gate::Off && self.high_opens(high)
    }

    /// The state after one sample.
    pub open spec fn next(self, high: Level, low: Level) -> DetectorState {
        let start = self.starts(high);
        DetectorState {
            high: hysteresis(self.high, high == Level::Above, high == Level::Below),
            low: hysteresis(self.low, low == Level::Below, low == Level::Above),
            cycle: hysteresis(self.cycle, self.high_opens(high), self.low_opens(low)),
            sample_counter: if start { 1u32 } else { count_up(self.sample_counter) },
            cycle_length: if start { self.sample_counter } else { self.cycle_length },
        }
    }

    /// The report for one sample.
    pub open spec fn info(self, high: Level, low: Level) -> CycleDetectInfo {
        CycleDetectInfo { length: self.next(high, low).cycle_length, start: self.starts(high) }
    }

    /// The state after the first `n` of `events`.
    pub open spec fn after(self, events: Seq<(Level, Level)>, n: nat) -> DetectorState
        decreases n,
    {
        if n == 0 {
            self
        } else {
            let e = events[n - 1];
            self.after(events, (n - 1) as nat).next(e.0, e.1)
        }
    }

    /// The report for `events[k]` when the detector has run from `self`.
    pub open spec fn info_at(self, events: Seq<(Level, Level)>, k: nat) -> CycleDetectInfo {
        self.after(events, k).info(events[k as int].0, events[k as int].1)
    }

    /// The lower gate opens on `events[k]`.
    pub open spec fn low_opens_at(self, events: Seq<(Level, Level)>, k: nat) -> bool {
        self.after(events, k).low_opens(events[k as int].1)
    }
}

/// Pitch-period detector. It owns three gates and two counters; the filters
/// that feed it live with the caller.
#[derive(Clone, Copy, Debug)]
pub struct CycleDetector {
    high: Gate,
    low: Gate,
    cycle: Gate,
    sample_counter: u32,
    cycle_length: u32,
}

impl View for CycleDetector {
    type V = DetectorState;

    closed spec fn view(&self) -> DetectorState {
        DetectorState {
            high: self.high,
            low: self.low,
            cycle: self.cycle,
            sample_counter: self.sample_counter,
            cycle_length: self.cycle_length,
        }
    }
}

impl CycleDetector {
    /// A detector with all gates closed.
    pub fn new() -> (d: CycleDetector)
        ensures
            d@ == DetectorState::init(),
    {
        CycleDetector {
            high: Gate::default(),
            low: Gate::default(),
            cycle: Gate::default(),
            sample_counter: 0,
            cycle_length: 0,
        }
    }

    /// Advances the detector by one sample. `high` and `low` say where the
    /// filtered signal stands relative to the upper and the lower threshold.
    pub fn process(&mut self, high: Level, low: Level) -> (info: CycleDetectInfo)
        ensures
            final(self)@ == old(self)@.next(high, low),
            info == old(self)@.info(high, low),
    {
        let high_off_to_on = match (self.high, high) {
            (Gate::Off, Level::Above) => {
                self.high.toggle();
                true
            },
            (Gate::On, Level::Below) => {
                self.high.toggle();
                false
            },
            _ => false,
        };

        let low_off_to_on = match (self.low, low) {
            (Gate::Off, Level::Below) => {
                self.low.toggle();
                true
            },
            (Gate::On, Level::Above) => {
                self.low.toggle();
                false
            },
            _ => false,
        };

        let start = if self.cycle.off() && high_off_to_on {
            self.cycle.toggle();
            self.cycle_length = self.sample_counter;
            self.sample_counter = 0;
            true
        } else if self.cycle.on() && low_off_to_on {
            self.cycle.toggle();
            false
        } else {
            false
        };

        self.sample_counter = if self.sample_counter == u32::MAX {
            0
        } else {
            self.sample_counter + 1
        };

        CycleDetectInfo { length: self.cycle_length, start }
    }
}

/// A period starts exactly when the upper gate opens while `cycle` is closed,
/// and the start leaves both of them open.
pub proof fn lemma_start_opens_cycle(s: DetectorState, high: Level, low: Level)
    ensures
        s.info(high, low).start <==> (s.cycle == Gate::Off && s.high == Gate::Off && high
            == Level::Above),
        s.info(high, low).start ==> s.next(high, low).cycle == Gate::On && s.next(high, low).high
            == Gate::On,
        s.info(high, low).start ==> s.info(high, low).length == s.sample_counter,
        !s.info(high, low).start ==> s.info(high, low).length == s.cycle_length,
{
}

/// While `cycle` is open no period starts, and only an opening of the lower
/// gate closes it.
pub proof fn lemma_open_cycle_blocks_start(s: DetectorState, high: Level, low: Level)
    requires
        s.cycle == Gate::On,
    ensures
        !s.info(high, low).start,
        s.next(high, low).cycle == Gate::Off <==> s.low_opens(low),
{
}

proof fn lemma_counter_between_starts(
    s: DetectorState,
    events: Seq<(Level, Level)>,
    i: nat,
    k: nat,
)
    requires
        i <= k < events.len(),
        s.info_at(events, i).start,
        forall|m: nat| i < m <= k ==> !(#[trigger] s.info_at(events, m)).start,
        k - i < u32::MAX,
    ensures
        s.after(events, k + 1).sample_counter == k - i + 1,
    decreases k - i,
{
    if k > i {
        lemma_counter_between_starts(s, events, i, (k - 1) as nat);
        assert(!s.info_at(events, k).start);
    }
}

/// The length reported at a period start is the number of samples since the
/// previous start, as long as that number fits the 32-bit counter.
pub proof fn lemma_length_counts_samples(
    s: DetectorState,
    events: Seq<(Level, Level)>,
    i: nat,
    j: nat,
)
    requires
        i < j < events.len(),
        s.info_at(events, i).start,
        s.info_at(events, j).start,
        forall|m: nat| i < m < j ==> !(#[trigger] s.info_at(events, m)).start,
        j - i <= u32::MAX,
    ensures
        s.info_at(events, j).length == j - i,
{
    lemma_counter_between_starts(s, events, i, (j - 1) as nat);
}

proof fn lemma_cycle_stays_open(s: DetectorState, events: Seq<(Level, Level)>, i: nat, k: nat)
    requires
        i <= k < events.len(),
        s.info_at(events, i).start,
        forall|m: nat| i < m <= k ==> !(#[trigger] s.low_opens_at(events, m)),
    ensures
        s.after(events, k + 1).cycle == Gate::On,
    decreases k - i,
{
    if k > i {
        lemma_cycle_stays_open(s, events, i, (k - 1) as nat);
        assert(!s.low_opens_at(events, k));
    }
}

/// Between two period starts the lower gate opens at least once: one swing of
/// the signal above the upper threshold starts one period and no more.
pub proof fn lemma_one_start_per_swing(
    s: DetectorState,
    events: Seq<(Level, Level)>,
    i: nat,
    j: nat,
)
    requires
        i < j < events.len(),
        s.info_at(events, i).start,
        s.info_at(events, j).start,
    ensures
        exists|m: nat| i < m < j && #[trigger] s.low_opens_at(events, m),
{
    if !(exists|m: nat| i < m < j && #[trigger] s.low_opens_at(events, m)) {
        lemma_cycle_stays_open(s, events, i, (j - 1) as nat);
    }
}

} // verus!
