//! The real-time event bridge of an audio-plugin host.
//!
//! Producers that may block (a command line, a MIDI input) hand events to a
//! queue; the audio callback drains the queue once per period and gives the
//! events to the plugin. This crate holds the event model, the translation of
//! raw MIDI messages, the queue, the command interpreter and the lifecycle of
//! a plugin session. It performs no I/O and holds no floating-point value:
//! numbers of that kind are carried as exact fractions or as bit patterns.

pub mod cmd;
pub mod event;
pub mod ids;
pub mod midi;
pub mod params;
pub mod period;
pub mod queue;
pub mod session;
pub mod text;
