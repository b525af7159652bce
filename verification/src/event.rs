//! The events that travel from the control surface to the plugin.

use vstd::prelude::*;

verus! {

/// What every velocity is counted in: one 127th of full scale, the step of a
/// MIDI velocity byte.
pub const VELOCITY_DENOMINATOR: u16 = 127;

/// The velocity, in 127ths, of a note that is played from the command line.
pub const NOTE_VELOCITY: u16 = 12700;

/// A note velocity, held exactly as the fraction `numerator / 127`.
///
/// A MIDI velocity byte `v` stands for `v / 127`, so full scale is 127.
#[derive(Clone, Copy, Debug, PartialEq, Eq, Structural)]
pub struct Velocity {
    pub numerator: u16,
}

impl Velocity {
    /// The velocity that a MIDI velocity byte stands for.
    pub open spec fn of_midi(byte: u8) -> Velocity {
        Velocity { numerator: byte as u16 }
    }

    /// The velocity that a MIDI velocity byte stands for: `byte / 127`.
    pub fn from_midi(byte: u8) -> (v: Velocity)
        ensures
            v == Velocity::of_midi(byte),
    {
        Velocity { numerator: byte as u16 }
    }
}

/// A 64-bit IEEE-754 binary number, carried by its bit pattern.
#[derive(Clone, Copy, Debug, PartialEq, Eq, Structural)]
pub struct Binary64 {
    pub bits: u64,
}

/// One instruction for the plugin, stamped with its offset in the period.
#[derive(Clone, Copy, Debug, PartialEq, Eq, Structural)]
pub enum Event {
    /// A key was pressed.
    NoteOn { time: u32, port: u16, channel: u16, key: u16, velocity: Velocity },
    /// A key was released.
    NoteOff { time: u32, port: u16, channel: u16, key: u16, velocity: Velocity },
    /// A parameter takes a new value.
    ParamValue { time: u32, param_id: u32, value: Binary64 },
}

} // verus!
