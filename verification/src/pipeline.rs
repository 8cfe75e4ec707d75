//! Setting up the pipeline: the reader that feeds the analyser, the engine,
//! and the analyser's phase memory, all from one arena.
use vstd::prelude::*;
use crate::config::PipelineConfig;
use crate::engine::analyzer::{PhaseHistory, PhaseState};
use crate::engine::reader::{Reader, ReaderState};
use crate::engine::tracker::TrackerState;
use crate::engine::voice::VoiceState;
use crate::engine::{Engine, EngineState};
use crate::error::InitError;
use crate::memory::Arena;

verus! {

/// The parts of a pipeline that has been set up. The audio interrupt drives
/// `reader` and `engine`; the analysis task keeps `phases`.
pub struct Pipeline<'a, T> {
    pub reader: Reader<'a, T>,
    pub engine: Engine<'a, T>,
    pub phases: PhaseHistory<'a, T>,
}

impl<'a, T: Copy> Pipeline<'a, T> {
    /// Sets up the pipeline with buffers from `arena`, and queues the first
    /// `waveform_length` samples of `waveform` on every voice.
    ///
    /// Fails, leaving the arena as it was, with the first rule that `config`
    /// breaks, or with `ArenaExhausted` where the arena has fewer units left
    /// than `config.required_units()`.
    pub fn init(
        config: PipelineConfig,
        arena: &mut Arena<'a, T>,
        waveform: &[T],
        waveform_length: usize,
    ) -> (pipeline: Result<Self, InitError>)
        requires
            old(arena).wf(),
            waveform_length <= waveform@.len(),
        ensures
            final(arena).wf(),
            final(arena).fill() == old(arena).fill(),
            pipeline is Ok <==> config.valid() && config.required_units() <= old(
                arena,
            )@.remaining(),
            config.fault() matches Some(e) ==> pipeline == Err::<Self, InitError>(e),
            config.valid() && config.required_units() > old(arena)@.remaining() ==> pipeline
                == Err::<Self, InitError>(InitError::ArenaExhausted),
            pipeline is Err ==> final(arena)@ == old(arena)@,
            pipeline is Ok ==> Some(final(arena)@) == old(arena)@.allocate(config.required_units()),
            pipeline matches Ok(p) ==> {
                &&& p.reader.wf()
                &&& p.reader@ == (ReaderState { config: config.reader, history: Seq::<T>::empty() })
                &&& p.engine.wf()
                &&& p.engine@ == (EngineState {
                    tracker: TrackerState::init(
                        Seq::new(
                            config.engine.tracker_config.buffer_size as nat,
                            |i: int| old(arena).fill(),
                        ),
                    ),
                    voices: Seq::new(
                        config.engine.num_voices as nat,
                        |i: int|
                            VoiceState::init(
                                config.engine.voice_config.buffer_size as nat,
                                old(arena).fill(),
                            ).with_waveform(waveform@, waveform_length as nat),
                    ),
                    voice_index: 0,
                })
                &&& p.phases@ == (PhaseState {
                    phases: Seq::new(config.bins(), |i: int| old(arena).fill()),
                    primed: false,
                })
            },
    {
        match config.check() {
            Err(e) => {
                return Err(e);
            },
            Ok(_) => {},
        }
        assert(config.engine.required_units() >= 0);
        let room = arena.remaining();
        let history = config.reader.history_length;
        let window = config.reader.window_length;
        if history > room || window > room - history {
            return Err(InitError::ArenaExhausted);
        }
        let after_reader = room - history - window;
        let bins = window / 2;
        if bins > after_reader {
            return Err(InitError::ArenaExhausted);
        }
        if !config.engine.fits(after_reader - bins) {
            return Err(InitError::ArenaExhausted);
        }
        let reader = Reader::init(config.reader, arena);
        let engine = Engine::new(config.engine, arena, waveform, waveform_length);
        let phases = PhaseHistory::new(bins, arena);
        match (reader, engine, phases) {
            (Ok(reader), Ok(engine), Ok(phases)) => Ok(Pipeline { reader, engine, phases }),
            _ => Err(InitError::ArenaExhausted),
        }
    }
}

} // verus!
