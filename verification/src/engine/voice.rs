//! A wavetable voice: the buffer that is played, the buffer that waits, and
//! the rule that the two change places only when a cycle of playback ends.
use vstd::prelude::*;
use crate::error::InitError;
use crate::memory::Arena;

verus! {

/// Size of each of a voice's two buffers, in samples.
#[derive(Clone, Copy, Debug)]
pub struct Config {
    pub buffer_size: usize,
}

/// A voice as a mathematical value.
pub ghost struct VoiceState<T> {
    /// The buffer that playback reads.
    pub active: Seq<T>,
    /// The buffer that the next waveform is written to.
    pub queued: Seq<T>,
    /// Length of the waveform in `active`.
    pub buffer_length: nat,
    /// Playback period in samples.
    pub samples_per_cycle: nat,
    /// A waveform waits in `queued`.
    pub pending: bool,
    /// Length of the waveform in `queued`.
    pub queued_length: nat,
}

impl<T> VoiceState<T> {
    /// Size of each buffer.
    pub open spec fn capacity(self) -> nat {
        self.active.len()
    }

    /// Both buffers have the same, non-zero size, and both waveforms fit.
    pub open spec fn wf(self) -> bool {
        &&& self.active.len() > 0
        &&& self.queued.len() == self.active.len()
        &&& self.buffer_length <= self.capacity()
        &&& self.queued_length <= self.capacity()
    }

    /// A new voice over two buffers filled with `fill`: no waveform, no rate.
    pub open spec fn init(size: nat, fill: T) -> VoiceState<T> {
        VoiceState {
            active: Seq::new(size, |i: int| fill),
            queued: Seq::new(size, |i: int| fill),
            buffer_length: 0,
            samples_per_cycle: 0,
            pending: false,
            queued_length: 0,
        }
    }

    /// True once a waveform or a rate has been given to the voice.
    pub open spec fn configured(self) -> bool {
        self.pending || self.buffer_length > 0 || self.samples_per_cycle > 0
    }

    /// The voice with its playback period set.
    pub open spec fn with_rate(self, samples_per_cycle: nat) -> VoiceState<T> {
        VoiceState { samples_per_cycle, ..self }
    }

    /// The voice after the first `length` of `samples` were queued. A
    /// waveform that does not fit the buffers is ignored.
    pub open spec fn with_waveform(self, samples: Seq<T>, length: nat) -> VoiceState<T> {
        if length > self.capacity() {
            self
        } else {
            VoiceState {
                queued: Seq::new(
                    self.queued.len(),
                    |i: int| if i < length { samples[i] } else { self.queued[i] },
                ),
                pending: true,
                queued_length: length,
                ..self
            }
        }
    }

    /// The two samples between which playback interpolates at `position`.
    pub open spec fn taps(self, position: nat) -> (T, T) {
        (self.active[position as int], self.active[(position + 1) as int % (self.capacity() as int)])
    }

    /// The voice after the playback phase has wrapped around. A waiting
    /// waveform becomes the active one, with its length as the new period;
    /// without one nothing changes.
    pub open spec fn wrapped(self) -> VoiceState<T> {
        if self.pending {
            VoiceState {
                active: self.queued,
                queued: self.active,
                buffer_length: self.queued_length,
                samples_per_cycle: self.queued_length,
                pending: false,
                queued_length: self.queued_length,
            }
        } else {
            self
        }
    }
}

/// Wavetable voice. It owns both of its buffers; the phase that reads them
/// is kept by the caller.
pub struct Voice<'a, T> {
    buffer: &'a mut [T],
    buffer_size: usize,
    swap_buffer: &'a mut [T],
    buffer_length: usize,
    samples_per_cycle: usize,
    queue_buffer_swap: bool,
    queue_buffer_length: usize,
}

impl<'a, T: Copy> View for Voice<'a, T> {
    type V = VoiceState<T>;

    closed spec fn view(&self) -> VoiceState<T> {
        VoiceState {
            active: self.buffer@,
            queued: self.swap_buffer@,
            buffer_length: self.buffer_length as nat,
            samples_per_cycle: self.samples_per_cycle as nat,
            pending: self.queue_buffer_swap,
            queued_length: self.queue_buffer_length as nat,
        }
    }
}

impl<'a, T: Copy> Voice<'a, T> {
    /// The fields agree with the view.
    pub closed spec fn consistent(&self) -> bool {
        self.buffer_size == self.buffer@.len()
    }

    /// The invariant of the voice.
    pub open spec fn wf(&self) -> bool {
        self@.wf() && self.consistent()
    }

    /// A voice whose two buffers of `config.buffer_size` samples come from
    /// `arena`. Fails, leaving the arena as it was, where the buffers would
    /// be empty or the arena cannot hold both.
    pub fn new(config: Config, arena: &mut Arena<'a, T>) -> (voice: Result<Self, InitError>)
        requires
            old(arena).wf(),
        ensures
            final(arena).wf(),
            final(arena).fill() == old(arena).fill(),
            config.buffer_size == 0 ==> voice == Err::<Self, InitError>(InitError::EmptyBuffer),
            2 * config.buffer_size > old(arena)@.remaining() ==> voice == Err::<Self, InitError>(
                InitError::ArenaExhausted,
            ),
            config.buffer_size > 0 && 2 * config.buffer_size <= old(arena)@.remaining()
                ==> voice is Ok,
            voice is Err ==> final(arena)@ == old(arena)@,
            voice is Ok ==> Some(final(arena)@) == old(arena)@.allocate(
                2 * config.buffer_size as nat,
            ),
            voice is Ok ==> voice.unwrap().wf() && voice.unwrap()@ == VoiceState::init(
                config.buffer_size as nat,
                old(arena).fill(),
            ),
    {
        let size = config.buffer_size;
        if size == 0 {
            return Err(InitError::EmptyBuffer);
        }
        let remaining = arena.remaining();
        if size > remaining || size > remaining - size {
            return Err(InitError::ArenaExhausted);
        }
        let first = arena.allocate_buffer(size);
        let second = arena.allocate_buffer(size);
        match (first, second) {
            (Some(buffer), Some(swap_buffer)) => Ok(
                Voice {
                    buffer,
                    buffer_size: size,
                    swap_buffer,
                    buffer_length: 0,
                    samples_per_cycle: 0,
                    queue_buffer_swap: false,
                    queue_buffer_length: 0,
                },
            ),
            _ => Err(InitError::ArenaExhausted),
        }
    }

    /// Size of each buffer.
    pub fn buffer_size(&self) -> (n: usize)
        requires
            self.wf(),
        ensures
            n == self@.capacity(),
            n > 0,
    {
        self.buffer_size
    }

    /// Length of the waveform that is played.
    pub fn buffer_length(&self) -> (n: usize)
        ensures
            n == self@.buffer_length,
    {
        self.buffer_length
    }

    /// Playback period in samples.
    pub fn samples_per_cycle(&self) -> (n: usize)
        ensures
            n == self@.samples_per_cycle,
    {
        self.samples_per_cycle
    }

    /// True while a waveform waits for the end of the cycle.
    pub fn swap_pending(&self) -> (b: bool)
        ensures
            b == self@.pending,
    {
        self.queue_buffer_swap
    }

    /// True once a waveform or a rate has been given to the voice.
    pub fn is_configured(&self) -> (b: bool)
        ensures
            b == self@.configured(),
    {
        self.queue_buffer_swap || self.buffer_length > 0 || self.samples_per_cycle > 0
    }

    /// Sets the playback period. Nothing else changes.
    pub fn set_rate(&mut self, samples_per_cycle: usize)
        requires
            old(self).wf(),
        ensures
            final(self).wf(),
            final(self)@ == old(self)@.with_rate(samples_per_cycle as nat),
    {
        self.samples_per_cycle = samples_per_cycle;
    }

    /// Queues the first `length` of `samples` as the next waveform. Playback
    /// is not touched. A waveform longer than the buffers is ignored.
    pub fn set_waveform(&mut self, samples: &[T], length: usize)
        requires
            old(self).wf(),
            length <= samples@.len(),
        ensures
            final(self).wf(),
            final(self)@ == old(self)@.with_waveform(samples@, length as nat),
            final(self)@.active == old(self)@.active,
            final(self)@.buffer_length == old(self)@.buffer_length,
            final(self)@.samples_per_cycle == old(self)@.samples_per_cycle,
    {
        if length > self.buffer_size {
            return ;
        }
        self.queue_buffer_swap = true;
        self.queue_buffer_length = length;
        let mut i: usize = 0;
        while i < length
            invariant
                i <= length <= samples@.len(),
                length <= self.buffer_size,
                self.buffer_size == old(self).buffer_size,
                self.buffer@ == old(self).buffer@,
                self.buffer_length == old(self).buffer_length,
                self.samples_per_cycle == old(self).samples_per_cycle,
                self.queue_buffer_swap,
                self.queue_buffer_length == length,
                self.swap_buffer@.len() == old(self).swap_buffer@.len(),
                old(self).wf(),
                forall|j: int| 0 <= j < i ==> self.swap_buffer@[j] == samples@[j],
                forall|j: int|
                    i <= j < self.swap_buffer@.len() ==> self.swap_buffer@[j] == old(
                        self,
                    ).swap_buffer@[j],
            decreases length - i,
        {
            self.swap_buffer[i] = samples[i];
            i += 1;
        }
        assert(self@.queued =~= old(self)@.with_waveform(samples@, length as nat).queued);
    }

    /// The two samples between which playback interpolates at `position`:
    /// the one at `position` and the one after it, around the buffer.
    pub fn taps(&self, position: usize) -> (pair: (T, T))
        requires
            self.wf(),
            position < self@.capacity(),
        ensures
            pair == self@.taps(position as nat),
    {
        let next = if position + 1 == self.buffer_size {
            0
        } else {
            position + 1
        };
        proof {
            let cap = self.buffer_size as int;
            if position + 1 == cap {
                vstd::arithmetic::div_mod::lemma_mod_self_0(cap);
            } else {
                vstd::arithmetic::div_mod::lemma_small_mod((position + 1) as nat, cap as nat);
            }
        }
        (self.buffer[position], self.buffer[next])
    }

    /// To be called when the playback phase wraps around. A waiting waveform
    /// is committed: the buffers change places and the waveform's length
    /// becomes the period. Says whether that happened.
    pub fn complete_cycle(&mut self) -> (committed: bool)
        requires
            old(self).wf(),
        ensures
            final(self).wf(),
            final(self)@ == old(self)@.wrapped(),
            committed == old(self)@.pending,
    {
        if self.queue_buffer_swap {
            self.queue_buffer_swap = false;
            self.buffer_length = self.queue_buffer_length;
            self.set_rate(self.buffer_length);
            core::mem::swap(&mut self.buffer, &mut self.swap_buffer);
            true
        } else {
            false
        }
    }
}

/// Queuing a waveform changes nothing that playback reads: every pair of
/// taps, the waveform's length and the period stay as they were.
pub proof fn lemma_queued_waveform_is_inaudible<T>(
    s: VoiceState<T>,
    samples: Seq<T>,
    length: nat,
    position: nat,
)
    ensures
        s.with_waveform(samples, length).taps(position) == s.taps(position),
        s.with_waveform(samples, length).active == s.active,
        s.with_waveform(samples, length).buffer_length == s.buffer_length,
        s.with_waveform(samples, length).samples_per_cycle == s.samples_per_cycle,
        s.wf() ==> s.with_waveform(samples, length).wf(),
{
}

/// Once the phase has wrapped around, a queued waveform that fits is the one
/// that is played: the active buffer begins with its samples, and its length
/// is both the waveform's length and the period. Nothing waits any more.
pub proof fn lemma_wraparound_commits_waveform<T>(
    s: VoiceState<T>,
    samples: Seq<T>,
    length: nat,
)
    requires
        s.wf(),
        length <= s.capacity(),
        length <= samples.len(),
    ensures
        s.with_waveform(samples, length).wrapped().wf(),
        s.with_waveform(samples, length).wrapped().active.subrange(0, length as int)
            == samples.subrange(0, length as int),
        s.with_waveform(samples, length).wrapped().buffer_length == length,
        s.with_waveform(samples, length).wrapped().samples_per_cycle == length,
        !s.with_waveform(samples, length).wrapped().pending,
        s.with_waveform(samples, length).wrapped().queued == s.active,
{
    let w = s.with_waveform(samples, length).wrapped();
    assert(w.active.subrange(0, length as int) =~= samples.subrange(0, length as int));
}

/// Without a waiting waveform a wraparound changes nothing.
pub proof fn lemma_wraparound_without_waveform<T>(s: VoiceState<T>)
    requires
        !s.pending,
    ensures
        s.wrapped() == s,
{
}

} // verus!
