use clack_audio_host::event::{Event, Velocity};
use clack_audio_host::midi::{MidiEventType, MidiTranslationError, RawMidi};
use clack_audio_host::period::begin_period;
use clack_audio_host::queue::EventQueue;
use clack_audio_host::session::{AudioConfiguration, PluginSession, SessionState};

fn note_on(time: u32, port: u16, channel: u16, key: u16, velocity: u16) -> Event {
    Event::NoteOn { time, port, channel, key, velocity: Velocity { numerator: velocity } }
}

#[test]
fn pending_events_come_before_the_notes_of_the_period() {
    let mut queue = EventQueue::new();
    queue.push(note_on(0, 0, 0, 10, 12700));
    let on = [0x92u8, 61, 90];
    let controller = [0xB0u8, 7, 100];
    let off = [0x82u8, 61, 0];
    let program = [0xC0u8];
    let messages = vec![
        RawMidi { time: 3, bytes: &on },
        RawMidi { time: 4, bytes: &controller },
        RawMidi { time: 8, bytes: &off },
        RawMidi { time: 9, bytes: &program },
    ];
    let mut input = vec![note_on(0, 0, 0, 99, 1)];
    let refusals = begin_period(&mut queue, &messages, 1, 0, &mut input);
    assert_eq!(
        input,
        vec![
            note_on(0, 0, 0, 10, 12700),
            note_on(3, 1, 2, 61, 90),
            Event::NoteOff {
                time: 8,
                port: 1,
                channel: 2,
                key: 61,
                velocity: Velocity { numerator: 0 },
            },
        ]
    );
    assert_eq!(
        refusals,
        vec![
            MidiTranslationError::Unsupported(MidiEventType::Controller),
            MidiTranslationError::Unsupported(MidiEventType::ProgramChange),
        ]
    );
    assert!(queue.is_empty());
}

#[test]
fn a_period_without_events_hands_over_nothing() {
    let mut queue = EventQueue::new();
    let mut input = vec![note_on(0, 0, 0, 1, 1)];
    let refusals = begin_period(&mut queue, &Vec::new(), 1, 0, &mut input);
    assert!(input.is_empty());
    assert!(refusals.is_empty());
    assert!(queue.is_empty());
}

#[test]
fn a_note_pushed_before_the_callback_is_processed_once() {
    let mut queue = EventQueue::new();
    let mut input = Vec::new();
    begin_period(&mut queue, &Vec::new(), 1, 0, &mut input);
    assert!(input.is_empty());
    queue.push(note_on(0, 0, 0, 60, 127));
    begin_period(&mut queue, &Vec::new(), 1, 0, &mut input);
    assert_eq!(input, vec![note_on(0, 0, 0, 60, 127)]);
    assert!(queue.is_empty());
    begin_period(&mut queue, &Vec::new(), 1, 0, &mut input);
    assert!(input.is_empty());
}

#[test]
fn a_streaming_session_takes_one_note_in_one_period() {
    let mut session =
        PluginSession::activate(AudioConfiguration::at_sample_rate(48000), true).unwrap();
    session.start_processing(true).unwrap();
    assert_eq!(session.state(), SessionState::Streaming);
    let mut queue = EventQueue::new();
    let mut input = Vec::new();
    assert!(queue.is_empty());

    let note = Event::NoteOn {
        time: 0,
        port: 0,
        channel: 0,
        key: 60,
        velocity: Velocity::from_midi(127),
    };
    queue.push(note);

    assert!(session.can_process());
    begin_period(&mut queue, &Vec::new(), 1, 0, &mut input);
    assert_eq!(input, vec![note]);
    match input[0] {
        Event::NoteOn { key, velocity, .. } => {
            assert_eq!(key, 60);
            assert_eq!(velocity.numerator as f64 / 127.0, 1.0);
        },
        _ => unreachable!(),
    }
    assert_eq!(session.process(true), Ok(()));
    assert!(queue.is_empty());

    assert!(session.can_process());
    begin_period(&mut queue, &Vec::new(), 1, 0, &mut input);
    assert!(input.is_empty());
    assert_eq!(session.process(true), Ok(()));
}
