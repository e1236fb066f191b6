//! Asset encoding for a small embedded engine.
//!
//! The sound side turns a Standard MIDI File into a strictly monophonic list
//! of tones (what sounds, and for how many microseconds); the sprite side
//! slices a vertical strip image into fixed-height sprites over a palette of
//! three values.
//!
//! Reading and writing files, the command line, and the serialised form of
//! the results are left to the program around this library.

pub mod decimal;
pub mod error;
pub mod event;
pub mod midi;
pub mod pixels;
pub mod smf;
pub mod spritesheet;
pub mod tempo;
pub mod tone;
pub mod tone_laws;
pub mod track;
pub mod types;
