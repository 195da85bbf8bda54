//! A Pomodoro timer: the session configuration, the timer state machine, the
//! mapping of key presses to commands and the text of each screen region.
//! The terminal, the clock and the audio output are supplied by the caller.

pub mod config;
pub mod input;
pub mod laws;
pub mod render;
pub mod text;
pub mod timer;
