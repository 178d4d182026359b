//! Note logic of a piano ear-training player: keyboard and staff geometry,
//! the shared note state, and the scripted performance that drives the
//! synthesizer.

pub mod keys;
pub mod state;
pub mod audio;
pub mod piano;
