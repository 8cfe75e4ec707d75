//! The configuration of the whole pipeline and the rules it must meet.
use vstd::prelude::*;
use crate::consts::{
    board_block_length, board_sample_rate, BLOCK_LENGTH, INPUT_BUFFER_SIZE, SAMPLE_RATE,
    WINDOW_BUFFER_SIZE, WINDOW_HOP,
};
use crate::engine::reader::Config as ReaderConfig;
use crate::engine::tracker::Config as CycleTrackerConfig;
use crate::engine::voice::Config as VoiceConfig;
use crate::engine::Config as EngineConfig;
use crate::error::InitError;

verus! {

/// Number of voices the firmware is built with.
pub const NUM_VOICES: usize = 8;

/// Buffer size of each voice the firmware is built with.
pub const VOICE_BUFFER_SIZE: usize = 2048;

/// Ring size of the period tracker the firmware is built with.
pub const TRACKER_BUFFER_SIZE: usize = 8192;

/// `n` is a power of two.
pub open spec fn is_power_of_two(n: nat) -> bool
    decreases n,
{
    n == 1 || (n > 1 && n % 2 == 0 && is_power_of_two(n / 2))
}

/// Says whether `n` is a power of two.
pub fn power_of_two(n: usize) -> (b: bool)
    ensures
        b == is_power_of_two(n as nat),
{
    if n == 0 {
        return false;
    }
    let mut m: usize = n;
    while m % 2 == 0
        invariant
            m > 0,
            is_power_of_two(m as nat) == is_power_of_two(n as nat),
        decreases m,
    {
        m = m / 2;
    }
    m == 1
}

/// Everything that is fixed when the pipeline is set up, but for the filter
/// coefficients, which the filters keep.
#[derive(Clone, Copy, Debug)]
pub struct PipelineConfig {
    /// Audio sample rate in Hz.
    pub sample_rate: u32,
    /// Block, window, hop and history lengths.
    pub reader: ReaderConfig,
    /// Voice count and buffer sizes of the engine.
    pub engine: EngineConfig,
}

impl PipelineConfig {
    /// Frequency bins below Nyquist: half the window.
    pub open spec fn bins(self) -> nat {
        (self.reader.window_length / 2) as nat
    }

    /// Arena units the pipeline takes: the input history, the engine's
    /// buffers, and one phase slot for each bin.
    pub open spec fn required_units(self) -> nat {
        self.reader.capacity() + self.engine.required_units() + self.bins()
    }

    /// The rules of the reader and of the engine hold, the sample rate is
    /// not zero, and the window is a power of two of at least two samples.
    pub open spec fn valid(self) -> bool {
        &&& self.sample_rate > 0
        &&& self.reader.valid()
        &&& is_power_of_two(self.reader.window_length as nat)
        &&& self.reader.window_length >= 2
        &&& self.engine.valid()
    }

    /// The first rule that the configuration breaks, if any.
    pub open spec fn fault(self) -> Option<InitError> {
        if self.sample_rate == 0 {
            Some(InitError::ZeroSampleRate)
        } else if self.reader.fault() is Some {
            self.reader.fault()
        } else if self.reader.window_length < 2 || !is_power_of_two(
            self.reader.window_length as nat,
        ) {
            Some(InitError::WindowNotPowerOfTwo)
        } else if self.engine.num_voices == 0 {
            Some(InitError::NoVoices)
        } else if !self.engine.valid() {
            Some(InitError::EmptyBuffer)
        } else {
            None
        }
    }

    /// Checks the configuration and names the first rule that is broken.
    pub fn check(&self) -> (result: Result<(), InitError>)
        ensures
            result is Ok <==> self.valid(),
            result == match self.fault() {
                Some(e) => Err::<(), InitError>(e),
                None => Ok::<(), InitError>(()),
            },
    {
        if self.sample_rate == 0 {
            return Err(InitError::ZeroSampleRate);
        }
        match self.reader.check() {
            Err(e) => {
                return Err(e);
            },
            Ok(_) => {},
        }
        if self.reader.window_length < 2 || !power_of_two(self.reader.window_length) {
            return Err(InitError::WindowNotPowerOfTwo);
        }
        if self.engine.num_voices == 0 {
            return Err(InitError::NoVoices);
        }
        if self.engine.voice_config.buffer_size == 0 || self.engine.tracker_config.buffer_size
            == 0 {
            return Err(InitError::EmptyBuffer);
        }
        Ok(())
    }
}

/// The configuration the firmware is built with. Sample rate and block
/// length are those of the board's audio interface, 48 kHz and 32 samples.
/// Windows have 1024 samples and start every 256 samples, over a history of
/// 4096, and eight voices of 2048 samples beside a tracker ring of 8192.
pub fn default_config() -> (config: PipelineConfig)
    ensures
        config.valid(),
        config.sample_rate == SAMPLE_RATE,
        config.reader == (ReaderConfig {
            block_length: BLOCK_LENGTH,
            window_length: WINDOW_BUFFER_SIZE,
            hop_length: WINDOW_HOP,
            history_length: INPUT_BUFFER_SIZE,
        }),
        config.engine.num_voices == NUM_VOICES,
        config.engine.voice_config.buffer_size == VOICE_BUFFER_SIZE,
        config.engine.tracker_config.buffer_size == TRACKER_BUFFER_SIZE,
        config.required_units() == 46592,
{
    proof {
        reveal_with_fuel(is_power_of_two, 12);
    }
    PipelineConfig {
        sample_rate: board_sample_rate(),
        reader: ReaderConfig {
            block_length: board_block_length(),
            window_length: WINDOW_BUFFER_SIZE,
            hop_length: WINDOW_HOP,
            history_length: INPUT_BUFFER_SIZE,
        },
        engine: EngineConfig {
            num_voices: NUM_VOICES,
            voice_config: VoiceConfig { buffer_size: VOICE_BUFFER_SIZE },
            tracker_config: CycleTrackerConfig { buffer_size: TRACKER_BUFFER_SIZE },
        },
    }
}

} // verus!
