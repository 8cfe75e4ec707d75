//! The sizes and rates the firmware is built with.
use vstd::prelude::*;

verus! {

/// Audio sample rate in Hz: the rate of the board's audio interface.
pub const SAMPLE_RATE: u32 = 48000;

/// Samples in each audio block: the block length of the board's audio
/// interface.
pub const BLOCK_LENGTH: usize = 32;

/// Samples after which the input history wraps around.
pub const INPUT_BUFFER_SIZE: usize = 4096;

/// Samples in an analysis window; also the size of the Fourier transform.
pub const WINDOW_BUFFER_SIZE: usize = 1024;

/// Samples between the starts of successive analysis windows: eight blocks.
pub const WINDOW_HOP: usize = 256;

/// Reads the sample rate of the audio interface, `daisy::audio::FS`, and
/// converts it with `to_Hz`. The contract states the rate that `daisy` is
/// built with as long as its feature `sampling_rate_96khz` is off: a raw value
/// of 48 000 on a rate whose unit is 1 Hz.
#[verifier::external_body]
pub(crate) fn board_sample_rate() -> (hz: u32)
    ensures
        hz == 48000,
{
    daisy::audio::FS.to_Hz()
}

/// Reads the block length of the audio interface, `daisy::audio::BLOCK_LENGTH`.
/// The contract states the length that `daisy` is built with as long as its
/// feature `block_length_64` is off: 32 samples.
#[verifier::external_body]
pub(crate) fn board_block_length() -> (n: usize)
    ensures
        n == 32,
{
    daisy::audio::BLOCK_LENGTH
}

} // verus!
