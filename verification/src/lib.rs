//! Sample-accurate emulation of a handheld console's sound processing unit
//! (sixteen hardware sample lanes, two capture units, stereo mixdown) together
//! with the voice-allocation and envelope-playback engine that drives it.
//!
//! All envelope and pitch arithmetic is carried out in fixed-point integer
//! form so that every numeric step of the engine is verified.
use vstd::prelude::*;

pub mod capture;
pub mod channel;
pub mod engine;
pub mod envelope;
pub mod fixed;
pub mod manager;
pub mod nds;
pub mod pitch;
pub mod record;
pub mod spu;

verus! {

/// Output sample rate of the emulated unit, in hertz.
pub const SAMPLE_RATE: usize = 32824;

/// Hardware ticks per sequencer note step at the default tempo.
pub const NOTE_RATE: usize = 4103;

/// Hardware ticks between successive envelope evaluations of a voice.
pub const EVENT_TIMING: usize = 171;

/// Note steps in one sequencer phrase.
pub const TRACK_LENGTH: usize = 32;

} // verus!
