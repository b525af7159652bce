//! From raw MIDI messages to events.
//!
//! A raw message is a status byte and up to two data bytes. The upper half of
//! the status byte names the kind of message, the lower half the channel.
//! Note-on and note-off messages become events; every other kind is
//! recognised and refused.

use vstd::prelude::*;
use crate::event::{Event, Velocity};
use crate::queue::EventQueue;

verus! {

/// The kind of a MIDI message, as the upper half of its status byte names it.
#[derive(Clone, Copy, Debug, PartialEq, Eq, Structural)]
pub enum MidiEventType {
    NoteOff,
    NoteOn,
    NoteAftertouch,
    Controller,
    ProgramChange,
    ChannelAftertouch,
    PitchBend,
    Unknown,
}

impl MidiEventType {
    /// The kind that the upper half of a status byte names.
    pub open spec fn of_nibble(value: u8) -> MidiEventType {
        if value == 0x8 {
            MidiEventType::NoteOff
        } else if value == 0x9 {
            MidiEventType::NoteOn
        } else if value == 0xA {
            MidiEventType::NoteAftertouch
        } else if value == 0xB {
            MidiEventType::Controller
        } else if value == 0xC {
            MidiEventType::ProgramChange
        } else if value == 0xD {
            MidiEventType::ChannelAftertouch
        } else if value == 0xE {
            MidiEventType::PitchBend
        } else {
            MidiEventType::Unknown
        }
    }

    /// What a refusal of a message of this kind says. Notes are never
    /// refused; for them it is the empty text.
    pub open spec fn refusal(self) -> Seq<char> {
        match self {
            MidiEventType::NoteOff | MidiEventType::NoteOn => Seq::empty(),
            MidiEventType::NoteAftertouch => "Note aftertouch events are not yet supported!"@,
            MidiEventType::Controller => "Controller events are not yet supported!"@,
            MidiEventType::ProgramChange => "Program change events are not yet supported!"@,
            MidiEventType::ChannelAftertouch => "Channel aftertouch events are not yet supported!"@,
            MidiEventType::PitchBend => "Pitch bend events are not yet supported!"@,
            MidiEventType::Unknown => "Unknown MIDI event type!"@,
        }
    }
}

impl vstd::std_specs::convert::FromSpecImpl<u8> for MidiEventType {
    open spec fn obeys_from_spec() -> bool {
        true
    }

    open spec fn from_spec(value: u8) -> MidiEventType {
        MidiEventType::of_nibble(value)
    }
}

impl From<u8> for MidiEventType {
    /// The kind that the upper half of a status byte names: 0x8 to 0xE are
    /// the seven channel messages, anything else is unknown.
    fn from(value: u8) -> (kind: MidiEventType)
        ensures
            kind == MidiEventType::of_nibble(value),
    {
        match value {
            0x8 => MidiEventType::NoteOff,
            0x9 => MidiEventType::NoteOn,
            0xA => MidiEventType::NoteAftertouch,
            0xB => MidiEventType::Controller,
            0xC => MidiEventType::ProgramChange,
            0xD => MidiEventType::ChannelAftertouch,
            0xE => MidiEventType::PitchBend,
            _ => MidiEventType::Unknown,
        }
    }
}

/// Why a raw MIDI message gave no event.
#[derive(Clone, Copy, Debug, PartialEq, Eq, Structural)]
pub enum MidiTranslationError {
    /// The message is of a kind that is recognised but not handled.
    Unsupported(MidiEventType),
}

impl MidiTranslationError {
    /// The text of the error.
    pub open spec fn text(self) -> Seq<char> {
        match self {
            MidiTranslationError::Unsupported(kind) => kind.refusal(),
        }
    }

    /// The text of the error, for a log line.
    pub fn message(&self) -> (text: &'static str)
        ensures
            text@ == self.text(),
    {
        match self {
            MidiTranslationError::Unsupported(kind) => match kind {
                MidiEventType::NoteAftertouch => "Note aftertouch events are not yet supported!",
                MidiEventType::Controller => "Controller events are not yet supported!",
                MidiEventType::ProgramChange => "Program change events are not yet supported!",
                MidiEventType::ChannelAftertouch => {
                    "Channel aftertouch events are not yet supported!"
                },
                MidiEventType::PitchBend => "Pitch bend events are not yet supported!",
                MidiEventType::Unknown => "Unknown MIDI event type!",
                MidiEventType::NoteOff | MidiEventType::NoteOn => {
                    proof {
                        reveal_strlit("");
                    }
                    assert(""@ =~= Seq::<char>::empty());
                    ""
                },
            },
        }
    }
}

/// One raw MIDI message: the frame at which it arrived in the period, and its
/// bytes, the status byte first.
#[derive(Clone, Copy, Debug)]
pub struct RawMidi<'a> {
    pub time: u32,
    pub bytes: &'a [u8],
}

impl<'a> RawMidi<'a> {
    /// Whether the message holds everything that its kind asks for.
    pub fn is_complete(&self) -> (complete: bool)
        ensures
            complete == is_complete(self.bytes@),
    {
        if self.bytes.len() == 0 {
            return false;
        }
        let status: u8 = self.bytes[0];
        let nibble: u8 = (status & 0xF0) >> 4;
        assert(nibble == status / 16) by (bit_vector)
            requires
                nibble == (status & 0xF0) >> 4,
        ;
        if nibble == 0x8 || nibble == 0x9 {
            self.bytes.len() >= 3
        } else {
            true
        }
    }
}

/// The kind of the message with this status byte.
pub open spec fn kind_of(status: u8) -> MidiEventType {
    MidiEventType::of_nibble(status / 16)
}

/// The channel of the message with this status byte.
pub open spec fn channel_of(status: u8) -> u8 {
    status % 16
}

/// Whether the bytes hold everything that the kind of the message asks for:
/// a status byte, and for a note the key and the velocity behind it.
pub open spec fn is_complete(bytes: Seq<u8>) -> bool {
    &&& bytes.len() >= 1
    &&& (kind_of(bytes[0]) == MidiEventType::NoteOn || kind_of(bytes[0])
        == MidiEventType::NoteOff) ==> bytes.len() >= 3
}

/// What a complete raw message becomes: a note event on the message's
/// channel, with the key of the first data byte and the velocity of the
/// second as a count of 127ths, or the refusal of its kind.
pub open spec fn translation(time: u32, bytes: Seq<u8>, port: u16) -> Result<
    Event,
    MidiTranslationError,
> {
    match kind_of(bytes[0]) {
        MidiEventType::NoteOn => Ok(
            Event::NoteOn {
                time,
                port,
                channel: channel_of(bytes[0]) as u16,
                key: bytes[1] as u16,
                velocity: Velocity::of_midi(bytes[2]),
            },
        ),
        MidiEventType::NoteOff => Ok(
            Event::NoteOff {
                time,
                port,
                channel: channel_of(bytes[0]) as u16,
                key: bytes[1] as u16,
                velocity: Velocity::of_midi(bytes[2]),
            },
        ),
        kind => Err(MidiTranslationError::Unsupported(kind)),
    }
}

/// The kind and the channel of a message are the upper and the lower four
/// bits of its status byte.
pub proof fn halves_of_a_status_byte(status: u8)
    by (bit_vector)
    ensures
        status / 16 == (status & 0xF0) >> 4,
        status % 16 == status & 0x0F,
{
}

/// A note-on message with key `k` and velocity byte `v` becomes a note-on
/// event with key `k` and velocity `v / 127`; a note-off message becomes a
/// note-off event in the same way; a message of any other kind is refused.
pub proof fn what_a_message_becomes(time: u32, bytes: Seq<u8>, port: u16)
    requires
        is_complete(bytes),
    ensures
        bytes[0] / 16 == 0x9 ==> translation(time, bytes, port) == Ok::<
            Event,
            MidiTranslationError,
        >(
            Event::NoteOn {
                time,
                port,
                channel: (bytes[0] % 16) as u16,
                key: bytes[1] as u16,
                velocity: Velocity { numerator: bytes[2] as u16 },
            },
        ),
        bytes[0] / 16 == 0x8 ==> translation(time, bytes, port) == Ok::<
            Event,
            MidiTranslationError,
        >(
            Event::NoteOff {
                time,
                port,
                channel: (bytes[0] % 16) as u16,
                key: bytes[1] as u16,
                velocity: Velocity { numerator: bytes[2] as u16 },
            },
        ),
        bytes[0] / 16 != 0x9 && bytes[0] / 16 != 0x8 ==> translation(time, bytes, port) == Err::<
            Event,
            MidiTranslationError,
        >(MidiTranslationError::Unsupported(kind_of(bytes[0]))),
{
}

/// Translates one raw MIDI message that arrived on `port`.
///
/// A note-on or note-off message gives the event; a message of any other
/// kind gives `Unsupported` with that kind. `note_id` is taken for the
/// caller's sake and has no part in the result: a note from MIDI addresses
/// every voice of its key.
pub fn translate_raw_midi(raw_midi: RawMidi<'_>, port: u16, note_id: u32) -> (result: Result<
    Event,
    MidiTranslationError,
>)
    requires
        is_complete(raw_midi.bytes@),
    ensures
        result == translation(raw_midi.time, raw_midi.bytes@, port),
{
    let status: u8 = raw_midi.bytes[0];
    let nibble: u8 = (status & 0xF0) >> 4;
    let midi_channel: u8 = status & 0x0F;
    assert(nibble == status / 16) by (bit_vector)
        requires
            nibble == (status & 0xF0) >> 4,
    ;
    assert(midi_channel == status % 16) by (bit_vector)
        requires
            midi_channel == status & 0x0F,
    ;
    let event_type = MidiEventType::from(nibble);
    match event_type {
        MidiEventType::NoteOff => Ok(
            Event::NoteOff {
                time: raw_midi.time,
                port,
                channel: midi_channel as u16,
                key: raw_midi.bytes[1] as u16,
                velocity: Velocity::from_midi(raw_midi.bytes[2]),
            },
        ),
        MidiEventType::NoteOn => Ok(
            Event::NoteOn {
                time: raw_midi.time,
                port,
                channel: midi_channel as u16,
                key: raw_midi.bytes[1] as u16,
                velocity: Velocity::from_midi(raw_midi.bytes[2]),
            },
        ),
        kind => Err(MidiTranslationError::Unsupported(kind)),
    }
}

/// Translates one raw MIDI message and, where it is a note, appends the
/// event to `event_buffer`. A message of any other kind leaves the buffer as
/// it was and gives the refusal.
pub fn add_raw_midi_to_event_buffer(
    event_buffer: &mut EventQueue,
    raw_midi: RawMidi<'_>,
    port: u16,
    note_id: u32,
) -> (result: Result<(), MidiTranslationError>)
    requires
        is_complete(raw_midi.bytes@),
    ensures
        match translation(raw_midi.time, raw_midi.bytes@, port) {
            Ok(event) => {
                &&& result == Ok::<(), MidiTranslationError>(())
                &&& final(event_buffer)@ == old(event_buffer)@.push(event)
            },
            Err(error) => {
                &&& result == Err::<(), MidiTranslationError>(error)
                &&& final(event_buffer)@ == old(event_buffer)@
            },
        },
{
    match translate_raw_midi(raw_midi, port, note_id) {
        Ok(event) => {
            event_buffer.push(event);
            Ok(())
        },
        Err(error) => Err(error),
    }
}

} // verus!
