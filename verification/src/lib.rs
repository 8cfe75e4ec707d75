//! Integer and ownership core of a pitch-tracking wavetable resynthesiser.
//!
//! The crate holds everything that is decided without arithmetic on sample
//! values: the bump arena that hands out sample buffers, the hysteresis state
//! machine that finds pitch periods, the ring-indexed tracker that aligns them
//! to zero crossings, the wavetable voices with their deferred buffer swap, the
//! round-robin engine, the overlap-save window reader and the configuration
//! checks. It is generic over the sample type `T`; what a sample is compared
//! with, and how it compares, reaches the core as [`dsp::Sign`] and
//! [`dsp::Level`] values.
pub mod config;
pub mod consts;
pub mod dsp;
pub mod engine;
pub mod error;
pub mod memory;
pub mod pipeline;
pub mod utils;
