//! A polyphonic modular software synthesizer core.
//!
//! The engine evaluates a signal-routing graph once per audio sample: a fixed
//! set of module systems (oscillators, envelopes, filters, LFOs) write into a
//! flat output array, a dynamically editable list of patch cables redistributes
//! those outputs into a flat input array, and an effects chain folds the
//! per-voice sum into a stereo frame.
//!
//! All signal values are binary fixed-point numbers (see [`fixed`]), so every
//! per-sample computation is exact integer arithmetic with saturation, and the
//! whole hot path is verified: no panic, no overflow, and the contracts below
//! pin down each module's output sample by sample.

pub mod analog;
pub mod cable;
pub mod curve;
pub mod effects;
pub mod engine;
pub mod envelope;
pub mod filterbank;
pub mod fixed;
pub mod lfo;
pub mod midi;
pub mod pitch;
pub mod ports;
pub mod ring;
pub mod slot;
pub mod wavetable;
pub mod waves;
