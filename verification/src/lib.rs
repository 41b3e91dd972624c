//! Verified core of an audio-reactive spectrogram pipeline.
//!
//! Samples travel from a capture callback through a bounded lock-free queue to
//! an analysis loop, which publishes one spectrum per cycle into a scrolling
//! texture that a renderer polls. This crate holds the sizes, the transport,
//! the pacing decisions and the texture bookkeeping of that pipeline, each with
//! a contract that Verus proves. Samples and magnitudes are carried as the
//! IEEE-754 bit patterns of their single-precision values, so that `0` is the
//! sample zero and bit patterns up to `UNIT_BITS` are the magnitudes in the
//! unit interval.

pub mod audio_processor;
pub mod fft_buffer;
pub mod pacing;
pub mod renderer;
pub mod ring;
pub mod shaders;
pub mod spectrogram;
pub mod state;
pub mod ui;
