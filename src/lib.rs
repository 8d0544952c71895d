//! Grain scheduling for a two-voice granular synthesizer.
//!
//! Positions into the source waveform are fixed-point numbers of
//! [`position::TICKS_PER_SAMPLE`] ticks per sample. The library decides when
//! grains start and stop, where each one reads and how far along its envelope
//! it is; the host turns each of those reads into a sample value.

pub mod position;
pub mod envelope;
pub mod resample;
pub mod grain;
pub mod voice;
pub mod engine;
