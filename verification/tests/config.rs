use prism_firmware::config::{
    default_config, power_of_two, PipelineConfig, NUM_VOICES, TRACKER_BUFFER_SIZE, VOICE_BUFFER_SIZE,
};
use prism_firmware::consts::{
    BLOCK_LENGTH, INPUT_BUFFER_SIZE, SAMPLE_RATE, WINDOW_BUFFER_SIZE, WINDOW_HOP,
};
use prism_firmware::error::InitError;
use prism_firmware::utils::Timer;

#[test]
fn constants_have_their_values() {
    assert_eq!(SAMPLE_RATE, 48_000);
    assert_eq!(BLOCK_LENGTH, 32);
    assert_eq!(INPUT_BUFFER_SIZE, 4096);
    assert_eq!(WINDOW_BUFFER_SIZE, 1024);
    assert_eq!(WINDOW_HOP, 8 * BLOCK_LENGTH);
    assert_eq!(NUM_VOICES, 8);
    assert_eq!(VOICE_BUFFER_SIZE, 2048);
    assert_eq!(TRACKER_BUFFER_SIZE, 8192);
}

#[test]
fn powers_of_two_are_recognised() {
    for k in 0..usize::BITS {
        assert!(power_of_two(1usize << k));
    }
    for n in [0usize, 3, 5, 6, 7, 9, 12, 1000, 1023, 1025, usize::MAX] {
        assert!(!power_of_two(n));
    }
}

#[test]
fn default_configuration_is_valid() {
    let c = default_config();
    assert_eq!(c.check(), Ok(()));
    assert_eq!(c.sample_rate, 48_000);
    assert_eq!(c.reader.block_length, 32);
    assert_eq!(c.reader.window_length, 1024);
    assert_eq!(c.reader.hop_length, 256);
    assert_eq!(c.reader.history_length, 4096);
    assert_eq!(c.engine.num_voices, 8);
    assert_eq!(c.engine.voice_config.buffer_size, 2048);
    assert_eq!(c.engine.tracker_config.buffer_size, 8192);
}

fn with(change: impl Fn(&mut PipelineConfig)) -> Result<(), InitError> {
    let mut c = default_config();
    change(&mut c);
    c.check()
}

#[test]
fn zero_sample_rate_is_refused() {
    assert_eq!(with(|c| c.sample_rate = 0), Err(InitError::ZeroSampleRate));
}

#[test]
fn reader_faults_are_passed_on() {
    assert_eq!(with(|c| c.reader.block_length = 0), Err(InitError::EmptyBlock));
    assert_eq!(with(|c| c.reader.window_length = 1000), Err(InitError::WindowNotWholeBlocks));
    assert_eq!(with(|c| c.reader.hop_length = 100), Err(InitError::HopNotWholeBlocks));
    assert_eq!(with(|c| c.reader.history_length = 4097), Err(InitError::HistoryNotWholeBlocks));
    assert_eq!(with(|c| c.reader.history_length = 512), Err(InitError::WindowExceedsHistory));
    assert_eq!(with(|c| c.reader.hop_length = 8192), Err(InitError::HopExceedsHistory));
}

#[test]
fn window_must_be_a_power_of_two() {
    assert_eq!(with(|c| c.reader.window_length = 96), Err(InitError::WindowNotPowerOfTwo));
    assert_eq!(with(|c| c.reader.window_length = 2048), Ok(()));
    assert_eq!(
        with(|c| {
            c.reader.block_length = 1;
            c.reader.window_length = 1;
        }),
        Err(InitError::WindowNotPowerOfTwo)
    );
    assert_eq!(
        with(|c| {
            c.reader.block_length = 1;
            c.reader.window_length = 2;
        }),
        Ok(())
    );
}

#[test]
fn engine_faults_are_named() {
    assert_eq!(with(|c| c.engine.num_voices = 0), Err(InitError::NoVoices));
    assert_eq!(with(|c| c.engine.voice_config.buffer_size = 0), Err(InitError::EmptyBuffer));
    assert_eq!(with(|c| c.engine.tracker_config.buffer_size = 0), Err(InitError::EmptyBuffer));
    assert_eq!(
        with(|c| {
            c.engine.num_voices = 0;
            c.engine.voice_config.buffer_size = 0;
        }),
        Err(InitError::NoVoices)
    );
}

#[test]
fn sample_rate_is_checked_first() {
    assert_eq!(
        with(|c| {
            c.sample_rate = 0;
            c.reader.block_length = 0;
            c.engine.num_voices = 0;
        }),
        Err(InitError::ZeroSampleRate)
    );
}

#[test]
fn timer_measures_ticks_since_its_start() {
    let t = Timer::start(1000);
    assert_eq!(t.end(1000), 0);
    assert_eq!(t.end(1250), 250);
    assert_eq!(t.end(u32::MAX), u32::MAX - 1000);
    assert_eq!(Timer::start(0).end(u32::MAX), u32::MAX);
}
