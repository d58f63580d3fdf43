//! Core of a desktop music player: the playback control plane, the DSP
//! parameter exchange, the SPSC sample ring, the LRC lyrics pipeline, the
//! playback queue, and the content-addressed cache layout.
//!
//! Every mutable DSP parameter travels as a 32-bit bit pattern, so the whole
//! control plane is stated and verified over plain integers; the
//! floating-point sample arithmetic that consumes these parameters lives in
//! the host layer around this crate.

pub mod bits;
pub mod clock;
pub mod control;
pub mod device;
pub mod error;
pub mod filters;
pub mod hash;
pub mod lyrics;
pub mod media;
pub mod queue;
pub mod ring;
pub mod resample;
pub mod reverb;
pub mod spatial;
pub mod stems;
pub mod tone;
pub mod wav;
