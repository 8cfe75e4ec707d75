//! The resynthesis engine: one period tracker and a bank of wavetable voices
//! that take the detected periods in turn.
use vstd::prelude::*;

pub mod analyzer;
pub mod reader;
pub mod tracker;
pub mod voice;

pub use analyzer::PhaseHistory;
pub use reader::Config as ReaderConfig;
pub use reader::Reader;
pub use tracker::Config as CycleTrackerConfig;
pub use tracker::{Cycle, CycleTracker};
pub use voice::Config as VoiceConfig;
pub use voice::Voice;

use crate::dsp::level::Reading;
use crate::error::InitError;
use crate::memory::{Arena, ArenaState};
use tracker::TrackerState;
use voice::VoiceState;

verus! {

/// How many voices the engine has, and how large their buffers and the
/// tracker's ring are.
#[derive(Clone, Copy, Debug)]
pub struct Config {
    pub num_voices: usize,
    pub voice_config: voice::Config,
    pub tracker_config: tracker::Config,
}

impl Config {
    /// Arena units that an engine with this configuration takes: two buffers
    /// for each voice and the tracker's ring.
    pub open spec fn required_units(self) -> nat {
        (2 * self.num_voices * self.voice_config.buffer_size
            + self.tracker_config.buffer_size) as nat
    }

    /// The configuration names at least one voice and no empty buffer.
    pub open spec fn valid(self) -> bool {
        &&& self.num_voices > 0
        &&& self.voice_config.buffer_size > 0
        &&& self.tracker_config.buffer_size > 0
    }

    /// Says whether `room` arena units are enough for an engine with this
    /// configuration.
    pub fn fits(&self, room: usize) -> (b: bool)
        ensures
            b == (self.required_units() <= room),
    {
        let count = self.num_voices;
        let voice_size = self.voice_config.buffer_size;
        let ring_size = self.tracker_config.buffer_size;
        assert(2 * count * voice_size >= 0) by (nonlinear_arith)
            requires
                count >= 0,
                voice_size >= 0,
        ;
        if ring_size > room {
            return false;
        }
        let voice_room = room - ring_size;
        if count == 0 || voice_size == 0 {
            assert(2 * count * voice_size == 0) by (nonlinear_arith)
                requires
                    count == 0 || voice_size == 0,
            ;
            return true;
        }
        if voice_size > voice_room / 2 {
            assert(2 * count * voice_size > voice_room) by (nonlinear_arith)
                requires
                    voice_size > voice_room / 2,
                    count >= 1,
            ;
            return false;
        }
        let per_voice = 2 * voice_size;
        proof {
            lemma_product_fits(count as int, per_voice as int, voice_room as int);
            assert(2 * count * voice_size == count * per_voice) by (nonlinear_arith)
                requires
                    per_voice == 2 * voice_size,
            ;
        }
        count <= voice_room / per_voice
    }
}

/// A period is handed to a voice when it is fresh and not empty.
pub open spec fn is_assigned(cycle: Cycle) -> bool {
    cycle.fresh && cycle.length > 0
}

/// The voice that is next in turn after voice `index`, among `count` voices.
pub open spec fn next_in_turn(index: nat, count: nat) -> nat {
    (index + 1) % count
}

/// The engine as a mathematical value.
pub ghost struct EngineState<T> {
    pub tracker: TrackerState<T>,
    pub voices: Seq<VoiceState<T>>,
    /// The voice that takes the next period.
    pub voice_index: nat,
}

impl<T> EngineState<T> {
    /// There is a voice, the index names one, and every part is well formed.
    pub open spec fn wf(self) -> bool {
        &&& self.tracker.wf()
        &&& self.voices.len() > 0
        &&& self.voice_index < self.voices.len()
        &&& forall|i: int| 0 <= i < self.voices.len() ==> (#[trigger] self.voices[i]).wf()
    }

    /// The engine after a period of `length` samples was handed to the voice
    /// whose turn it is.
    pub open spec fn assign(self, length: usize) -> EngineState<T> {
        EngineState {
            voices: self.voices.update(
                self.voice_index as int,
                self.voices[self.voice_index as int].with_rate(length as nat),
            ),
            voice_index: next_in_turn(self.voice_index, self.voices.len()),
            ..self
        }
    }

    /// The engine after the first `count` of `lengths` were handed out, one
    /// after the other.
    pub open spec fn assign_all(self, lengths: Seq<usize>, count: nat) -> EngineState<T>
        decreases count,
    {
        if count == 0 {
            self
        } else {
            self.assign_all(lengths, (count - 1) as nat).assign(lengths[count - 1])
        }
    }

    /// The engine after one sample.
    pub open spec fn next(self, sample: T, reading: Reading) -> EngineState<T> {
        let cycle = self.tracker.output(reading);
        let followed = EngineState { tracker: self.tracker.next(sample, reading), ..self };
        if is_assigned(cycle) {
            followed.assign(cycle.length)
        } else {
            followed
        }
    }
}

/// Period tracker and voice bank.
pub struct Engine<'a, T> {
    cycle_tracker: CycleTracker<'a, T>,
    voices: Vec<Voice<'a, T>>,
    num_voices: usize,
    voice_index: usize,
}

impl<'a, T: Copy> View for Engine<'a, T> {
    type V = EngineState<T>;

    closed spec fn view(&self) -> EngineState<T> {
        EngineState {
            tracker: self.cycle_tracker@,
            voices: Seq::new(self.voices@.len(), |i: int| self.voices@[i]@),
            voice_index: self.voice_index as nat,
        }
    }
}

proof fn lemma_next_in_turn(index: nat, count: nat)
    requires
        index < count,
    ensures
        next_in_turn(index, count) == if index + 1 == count {
            0
        } else {
            index + 1
        },
        next_in_turn(index, count) < count,
{
    if index + 1 == count {
        vstd::arithmetic::div_mod::lemma_mod_self_0(count as int);
    } else {
        vstd::arithmetic::div_mod::lemma_small_mod((index + 1) as nat, count);
    }
}

proof fn lemma_product_fits(count: int, each: int, room: int)
    by (nonlinear_arith)
    requires
        count >= 0,
        each > 0,
        room >= 0,
    ensures
        count * each <= room <==> count <= room / each,
{
}

impl<'a, T: Copy> Engine<'a, T> {
    /// The fields agree with the view.
    pub closed spec fn consistent(&self) -> bool {
        &&& self.num_voices == self.voices@.len()
        &&& self.cycle_tracker.consistent()
        &&& forall|i: int| 0 <= i < self.voices@.len() ==> (#[trigger] self.voices@[i]).consistent()
    }

    /// The invariant of the engine.
    pub open spec fn wf(&self) -> bool {
        self@.wf() && self.consistent()
    }

    /// An engine whose buffers come from `arena`, with the first
    /// `waveform_length` samples of `waveform` queued on every voice.
    ///
    /// Fails, leaving the arena as it was, with `NoVoices` for a bank of no
    /// voices, else with `EmptyBuffer` for a buffer of no samples, else with
    /// `ArenaExhausted` where the arena has fewer units left than
    /// `config.required_units()`.
    pub fn new(
        config: Config,
        arena: &mut Arena<'a, T>,
        waveform: &[T],
        waveform_length: usize,
    ) -> (engine: Result<Self, InitError>)
        requires
            old(arena).wf(),
            waveform_length <= waveform@.len(),
        ensures
            final(arena).wf(),
            final(arena).fill() == old(arena).fill(),
            engine is Ok <==> config.valid() && config.required_units() <= old(
                arena,
            )@.remaining(),
            config.num_voices == 0 ==> engine == Err::<Self, InitError>(InitError::NoVoices),
            config.num_voices > 0 && !config.valid() ==> engine == Err::<Self, InitError>(
                InitError::EmptyBuffer,
            ),
            config.valid() && config.required_units() > old(arena)@.remaining() ==> engine
                == Err::<Self, InitError>(InitError::ArenaExhausted),
            engine is Err ==> final(arena)@ == old(arena)@,
            engine is Ok ==> Some(final(arena)@) == old(arena)@.allocate(config.required_units()),
            engine is Ok ==> engine.unwrap().wf() && engine.unwrap()@ == (EngineState {
                tracker: TrackerState::init(
                    Seq::new(config.tracker_config.buffer_size as nat, |i: int| old(arena).fill()),
                ),
                voices: Seq::new(
                    config.num_voices as nat,
                    |i: int|
                        VoiceState::init(
                            config.voice_config.buffer_size as nat,
                            old(arena).fill(),
                        ).with_waveform(waveform@, waveform_length as nat),
                ),
                voice_index: 0,
            }),
    {
        let count = config.num_voices;
        let voice_size = config.voice_config.buffer_size;
        let ring_size = config.tracker_config.buffer_size;
        if count == 0 {
            return Err(InitError::NoVoices);
        }
        if voice_size == 0 || ring_size == 0 {
            return Err(InitError::EmptyBuffer);
        }
        let room = arena.remaining();
        if !config.fits(room) {
            return Err(InitError::ArenaExhausted);
        }
        assert(2 * voice_size <= 2 * count * voice_size) by (nonlinear_arith)
            requires
                count >= 1,
                voice_size >= 0,
        ;
        let per_voice = 2 * voice_size;
        let ghost voice_room = room - ring_size;
        proof {
            assert(2 * count * voice_size == count * per_voice) by (nonlinear_arith)
                requires
                    per_voice == 2 * voice_size,
            ;
        }
        let ghost fill = arena.fill();
        let ghost start = arena@;
        let ghost fresh = VoiceState::init(voice_size as nat, fill).with_waveform(
            waveform@,
            waveform_length as nat,
        );
        let mut voices: Vec<Voice<'a, T>> = Vec::new();
        let mut i: usize = 0;
        while i < count
            invariant
                i <= count,
                voice_size > 0,
                voice_size == config.voice_config.buffer_size,
                per_voice == 2 * voice_size,
                count * per_voice <= voice_room,
                voice_room + ring_size == start.remaining(),
                start.wf(),
                arena.wf(),
                arena.fill() == fill,
                arena@ == (ArenaState { capacity: start.capacity, used: (start.used + i * per_voice) as nat }),
                waveform_length <= waveform@.len(),
                fresh == VoiceState::init(voice_size as nat, fill).with_waveform(
                    waveform@,
                    waveform_length as nat,
                ),
                voices@.len() == i,
                forall|j: int|
                    0 <= j < i ==> (#[trigger] voices@[j]).wf() && voices@[j]@ == fresh,
            decreases count - i,
        {
            assert((i + 1) * per_voice <= count * per_voice) by (nonlinear_arith)
                requires
                    i < count,
                    per_voice >= 0,
            ;
            assert((i + 1) * per_voice == i * per_voice + per_voice) by (nonlinear_arith);
            match Voice::new(config.voice_config, arena) {
                Ok(mut voice) => {
                    voice.set_waveform(waveform, waveform_length);
                    voices.push(voice);
                },
                Err(_) => {
                    assert(false);
                },
            }
            i += 1;
        }
        match CycleTracker::new(config.tracker_config, arena) {
            Ok(cycle_tracker) => {
                let engine = Engine { cycle_tracker, voices, num_voices: count, voice_index: 0 };
                assert(engine@.voices =~= Seq::new(count as nat, |i: int| fresh));
                Ok(engine)
            },
            Err(_) => {
                assert(false);
                Err(InitError::ArenaExhausted)
            },
        }
    }

    /// Number of voices.
    pub fn num_voices(&self) -> (n: usize)
        requires
            self.wf(),
        ensures
            n == self@.voices.len(),
            n > 0,
    {
        self.num_voices
    }

    /// The voice that takes the next period.
    pub fn voice_index(&self) -> (i: usize)
        requires
            self.wf(),
        ensures
            i == self@.voice_index,
            i < self@.voices.len(),
    {
        self.voice_index
    }

    /// Voice number `i`.
    pub fn voice(&self, i: usize) -> (voice: &Voice<'a, T>)
        requires
            self.wf(),
            i < self@.voices.len(),
        ensures
            voice.wf(),
            voice@ == self@.voices[i as int],
    {
        assert(self@.voices[i as int].wf());
        &self.voices[i]
    }

    /// The tracker.
    pub fn tracker(&self) -> (tracker: &CycleTracker<'a, T>)
        requires
            self.wf(),
        ensures
            tracker.wf(),
            tracker@ == self@.tracker,
    {
        &self.cycle_tracker
    }

    /// Tracks one sample. A fresh period that is not empty sets the rate of
    /// the voice whose turn it is, and the turn passes to the next voice.
    /// Returns what the tracker reported.
    pub fn process(&mut self, sample: T, reading: Reading) -> (cycle: Cycle)
        requires
            old(self).wf(),
        ensures
            final(self).wf(),
            final(self)@ == old(self)@.next(sample, reading),
            cycle == old(self)@.tracker.output(reading),
            is_assigned(cycle) ==> final(self)@.voices[old(self)@.voice_index as int].samples_per_cycle
                == cycle.length,
            final(self)@.voices.len() == old(self)@.voices.len(),
    {
        let cycle = self.cycle_tracker.process(sample, reading);
        if cycle.fresh && cycle.length > 0 {
            proof {
                lemma_next_in_turn(self.voice_index as nat, self.num_voices as nat);
            }
            let turn = self.voice_index;
            self.voices[turn].set_rate(cycle.length);
            self.voice_index = if turn + 1 == self.num_voices {
                0
            } else {
                turn + 1
            };
            assert(self@.voices =~= old(self)@.next(sample, reading).voices);
        } else {
            assert(self@.voices =~= old(self)@.voices);
        }
        cycle
    }

    /// Queues a waveform on voice `i`, as `Voice::set_waveform` does.
    pub fn set_waveform(&mut self, i: usize, samples: &[T], length: usize)
        requires
            old(self).wf(),
            i < old(self)@.voices.len(),
            length <= samples@.len(),
        ensures
            final(self).wf(),
            final(self)@ == (EngineState {
                voices: old(self)@.voices.update(
                    i as int,
                    old(self)@.voices[i as int].with_waveform(samples@, length as nat),
                ),
                ..old(self)@
            }),
    {
        self.voices[i].set_waveform(samples, length);
        assert(self@.voices =~= old(self)@.voices.update(
            i as int,
            old(self)@.voices[i as int].with_waveform(samples@, length as nat),
        ));
    }

    /// Tells voice `i` that its playback phase has wrapped around, as
    /// `Voice::complete_cycle` does.
    pub fn complete_cycle(&mut self, i: usize) -> (committed: bool)
        requires
            old(self).wf(),
            i < old(self)@.voices.len(),
        ensures
            final(self).wf(),
            committed == old(self)@.voices[i as int].pending,
            final(self)@ == (EngineState {
                voices: old(self)@.voices.update(i as int, old(self)@.voices[i as int].wrapped()),
                ..old(self)@
            }),
    {
        let committed = self.voices[i].complete_cycle();
        assert(self@.voices =~= old(self)@.voices.update(
            i as int,
            old(self)@.voices[i as int].wrapped(),
        ));
        committed
    }
}

proof fn lemma_turn_after(index: nat, count: nat, steps: nat)
    requires
        index < count,
    ensures
        next_in_turn((index + steps) % count, count) == (index + steps + 1) % count,
{
    let n = count as int;
    let r = ((index + steps) % count) as int;
    vstd::arithmetic::div_mod::lemma_mod_bound((index + steps) as int, n);
    vstd::arithmetic::div_mod::lemma_add_mod_noop((index + steps) as int, 1, n);
    vstd::arithmetic::div_mod::lemma_mod_twice((index + steps) as int, n);
    if n == 1 {
        vstd::arithmetic::div_mod::lemma_mod_self_0(1);
    } else {
        vstd::arithmetic::div_mod::lemma_small_mod(1, count);
    }
}

proof fn lemma_distinct_turns(a: nat, b: nat, count: nat)
    requires
        a < b < a + count,
    ensures
        a % count != b % count,
{
    let n = count as int;
    if a % count == b % count {
        vstd::arithmetic::div_mod::lemma_mod_equivalence(b as int, a as int, n);
        vstd::arithmetic::div_mod::lemma_small_mod((b - a) as nat, count);
    }
}

/// Handing out periods keeps the engine well formed, leaves the tracker and
/// the number of voices alone, and moves the turn by one voice for each
/// period, around the bank.
pub proof fn lemma_turn_advances<T>(s: EngineState<T>, lengths: Seq<usize>, count: nat)
    requires
        s.wf(),
        count <= lengths.len(),
    ensures
        s.assign_all(lengths, count).wf(),
        s.assign_all(lengths, count).tracker == s.tracker,
        s.assign_all(lengths, count).voices.len() == s.voices.len(),
        s.assign_all(lengths, count).voice_index == (s.voice_index + count) % s.voices.len(),
    decreases count,
{
    let n = s.voices.len();
    if count == 0 {
        vstd::arithmetic::div_mod::lemma_small_mod(s.voice_index, n);
    } else {
        lemma_turn_advances(s, lengths, (count - 1) as nat);
        let before = s.assign_all(lengths, (count - 1) as nat);
        lemma_turn_after(s.voice_index, n, (count - 1) as nat);
        lemma_next_in_turn(before.voice_index, n);
        let after = before.assign(lengths[count - 1]);
        assert forall|i: int| 0 <= i < after.voices.len() implies (#[trigger] after.voices[i]).wf() by {
            assert(before.voices[i].wf());
        }
    }
}

/// Round robin. Starting with voice 0, period number `k` of a run of periods
/// goes to voice `k mod N`: the first to voice 0, the second to voice 1, and
/// period `N` to voice 0 again. The step changes that voice's rate and no
/// other voice.
pub proof fn lemma_assignment_order<T>(s: EngineState<T>, lengths: Seq<usize>, k: nat)
    requires
        s.wf(),
        s.voice_index == 0,
        k < lengths.len(),
    ensures
        s.assign_all(lengths, k).voice_index == k % s.voices.len(),
        s.assign_all(lengths, k + 1).voices[(k % s.voices.len()) as int] == s.assign_all(
            lengths,
            k,
        ).voices[(k % s.voices.len()) as int].with_rate(lengths[k as int] as nat),
        forall|v: int|
            0 <= v < s.voices.len() && v != k % s.voices.len() ==> s.assign_all(
                lengths,
                k + 1,
            ).voices[v] == s.assign_all(lengths, k).voices[v],
{
    lemma_turn_advances(s, lengths, k);
}

/// After `count` periods each voice plays at the rate of the last period it
/// was given: of the latest `N` periods, number `k` sets the rate of voice
/// `k mod N`.
pub proof fn lemma_latest_periods_are_playing<T>(
    s: EngineState<T>,
    lengths: Seq<usize>,
    count: nat,
    k: nat,
)
    requires
        s.wf(),
        s.voice_index == 0,
        count <= lengths.len(),
        k < count <= k + s.voices.len(),
    ensures
        s.assign_all(lengths, count).voices[(k % s.voices.len()) as int].samples_per_cycle
            == lengths[k as int],
    decreases count,
{
    let n = s.voices.len();
    lemma_turn_advances(s, lengths, (count - 1) as nat);
    vstd::arithmetic::div_mod::lemma_mod_bound(k as int, n as int);
    vstd::arithmetic::div_mod::lemma_mod_bound((count - 1) as int, n as int);
    if k + 1 < count {
        lemma_latest_periods_are_playing(s, lengths, (count - 1) as nat, k);
        lemma_distinct_turns(k, (count - 1) as nat, n);
    }
}

} // verus!
