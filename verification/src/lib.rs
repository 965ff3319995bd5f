//! The coordination core of a terminal music player.
//!
//! A controller owns the playlist and transport state and turns key presses
//! and timer ticks into commands; a playback worker consumes those commands
//! in order and drives the audio sink. Both are modelled as state machines
//! whose transitions are proved against their mathematical descriptions.

pub mod controller;
pub mod debug;
pub mod decimal;
pub mod laws;
pub mod player;
pub mod shuffle;
pub mod song;
pub mod state;
pub mod worker;
