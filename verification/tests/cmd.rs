use clack_audio_host::cmd::{help_lines, ClackAudioHostCommand};
use clack_audio_host::event::{Binary64, Event, Velocity, NOTE_VELOCITY};
use clack_audio_host::queue::EventQueue;

use ClackAudioHostCommand::{
    Help, Invalid, ListFeatures, ListParams, ParamInfo, Quit, SetParam, StartNote, StopNote,
};

fn decode(word: Option<&str>) -> Option<Binary64> {
    let number: f64 = word?.parse().ok()?;
    Some(Binary64 { bits: number.to_bits() })
}

fn read(line: &str) -> ClackAudioHostCommand {
    let number = decode(ClackAudioHostCommand::value_token(line));
    ClackAudioHostCommand::from(line, number)
}

fn bits(number: f64) -> Binary64 {
    Binary64 { bits: number.to_bits() }
}

#[test]
fn every_name_selects_its_command() {
    assert_eq!(read("help"), Help);
    assert_eq!(read("h"), Help);
    assert_eq!(read("?"), Help);
    assert_eq!(read("note 60"), StartNote(60));
    assert_eq!(read("n 61"), StartNote(61));
    assert_eq!(read("nb 62"), StartNote(62));
    assert_eq!(read("stop 60"), StopNote(60));
    assert_eq!(read("s 61"), StopNote(61));
    assert_eq!(read("ne 62"), StopNote(62));
    assert_eq!(read("lsf"), ListFeatures);
    assert_eq!(read("lsp"), ListParams);
    assert_eq!(read("pi 12"), ParamInfo(12));
    assert_eq!(read("ps 3 0.5"), SetParam(3, bits(0.5)));
    assert_eq!(read("q"), Quit);
    assert_eq!(read("quit"), Quit);
}

#[test]
fn names_are_case_sensitive_and_whole_words() {
    assert_eq!(read("Help"), Invalid);
    assert_eq!(read("HELP"), Invalid);
    assert_eq!(read("Q"), Invalid);
    assert_eq!(read("helper"), Invalid);
    assert_eq!(read("hel"), Invalid);
    assert_eq!(read("lsfp"), Invalid);
    assert_eq!(read("pi12"), Invalid);
    assert_eq!(read("frobnicate"), Invalid);
    assert_eq!(read("60 note"), Invalid);
}

#[test]
fn empty_and_blank_lines_are_invalid() {
    assert_eq!(read(""), Invalid);
    assert_eq!(read(" "), Invalid);
    assert_eq!(read("   \t  "), Invalid);
    assert_eq!(read("\n"), Invalid);
    assert_eq!(read("\u{a0}\u{2003}\u{3000}"), Invalid);
    assert_eq!(ClackAudioHostCommand::from("", Some(bits(1.0))), Invalid);
    assert_eq!(ClackAudioHostCommand::from("  ", Some(bits(1.0))), Invalid);
}

#[test]
fn white_space_around_and_between_words_is_skipped() {
    assert_eq!(read("  help  "), Help);
    assert_eq!(read("\tpi\t\t7\n"), ParamInfo(7));
    assert_eq!(read("ps\u{2003}3\u{a0}0.5"), SetParam(3, bits(0.5)));
    assert_eq!(read("   note    60   "), StartNote(60));
}

#[test]
fn words_beyond_the_arguments_are_ignored() {
    assert_eq!(read("help me please"), Help);
    assert_eq!(read("q now"), Quit);
    assert_eq!(read("pi 3 4 5"), ParamInfo(3));
    assert_eq!(read("note 60 127"), StartNote(60));
    assert_eq!(read("ps 3 0.5 extra"), SetParam(3, bits(0.5)));
}

#[test]
fn a_missing_argument_is_invalid() {
    assert_eq!(read("note"), Invalid);
    assert_eq!(read("stop"), Invalid);
    assert_eq!(read("pi"), Invalid);
    assert_eq!(read("ps"), Invalid);
    assert_eq!(read("ps 3"), Invalid);
    assert_eq!(ClackAudioHostCommand::from("ps 3", Some(bits(0.5))), Invalid);
    assert_eq!(ClackAudioHostCommand::from("ps", Some(bits(0.5))), Invalid);
}

#[test]
fn an_argument_that_is_no_number_is_invalid() {
    assert_eq!(read("pi abc"), Invalid);
    assert_eq!(read("pi 1.5"), Invalid);
    assert_eq!(read("pi -1"), Invalid);
    assert_eq!(read("pi 0x10"), Invalid);
    assert_eq!(read("pi 1_000"), Invalid);
    assert_eq!(read("pi +"), Invalid);
    assert_eq!(read("pi ++1"), Invalid);
    assert_eq!(read("pi \u{661}"), Invalid);
    assert_eq!(read("note sixty"), Invalid);
    assert_eq!(read("stop 6o"), Invalid);
    assert_eq!(read("ps x 0.5"), Invalid);
    assert_eq!(ClackAudioHostCommand::from("ps x 0.5", Some(bits(0.5))), Invalid);
    assert_eq!(read("ps 3 abc"), Invalid);
    assert_eq!(read("ps 3 0.5.1"), Invalid);
    assert_eq!(ClackAudioHostCommand::from("ps 3 0.5", None), Invalid);
}

#[test]
fn numbers_are_read_as_the_standard_library_reads_them() {
    assert_eq!(read("pi 0"), ParamInfo(0));
    assert_eq!(read("pi +5"), ParamInfo(5));
    assert_eq!(read("pi 007"), ParamInfo(7));
    assert_eq!(read("pi 00000000000000000000000000012"), ParamInfo(12));
    assert_eq!(read("pi 4294967295"), ParamInfo(u32::MAX));
    assert_eq!(read("pi 4294967296"), Invalid);
    assert_eq!(read("pi 99999999999999999999999999"), Invalid);
    assert_eq!(read("note 0"), StartNote(0));
    assert_eq!(read("note 65535"), StartNote(u16::MAX));
    assert_eq!(read("note 65536"), Invalid);
    assert_eq!(read("stop +65535"), StopNote(u16::MAX));
    assert_eq!(read("stop 4294967295"), Invalid);
    assert_eq!(read("ps 4294967295 1"), SetParam(u32::MAX, bits(1.0)));
    assert_eq!(read("ps 4294967296 1"), Invalid);
}

#[test]
fn values_of_ps() {
    assert_eq!(read("ps 3 0.5"), SetParam(3, bits(0.5)));
    assert_eq!(read("ps 3 -2"), SetParam(3, bits(-2.0)));
    assert_eq!(read("ps 3 1e3"), SetParam(3, bits(1000.0)));
    assert_eq!(read("ps 3 .25"), SetParam(3, bits(0.25)));
    assert_eq!(read("ps 3 inf"), SetParam(3, bits(f64::INFINITY)));
    match read("ps 0 nan") {
        SetParam(0, value) => assert!(f64::from_bits(value.bits).is_nan()),
        other => panic!("unexpected {:?}", other),
    }
}

#[test]
fn the_value_word_is_named_for_ps_alone() {
    assert_eq!(ClackAudioHostCommand::value_token("ps 3 0.5"), Some("0.5"));
    assert_eq!(ClackAudioHostCommand::value_token("  ps   3   abc  def"), Some("abc"));
    assert_eq!(ClackAudioHostCommand::value_token("ps 3"), None);
    assert_eq!(ClackAudioHostCommand::value_token("ps x 0.5"), None);
    assert_eq!(ClackAudioHostCommand::value_token("pi 3 0.5"), None);
    assert_eq!(ClackAudioHostCommand::value_token("help 3 0.5"), None);
    assert_eq!(ClackAudioHostCommand::value_token(""), None);
}

#[test]
fn a_number_that_is_not_asked_for_changes_nothing() {
    for line in ["help", "pi 3", "note 60", "q", "", "what 1 2", "ps", "ps 3", "ps x 1"] {
        assert_eq!(
            ClackAudioHostCommand::from(line, None),
            ClackAudioHostCommand::from(line, Some(bits(0.25)))
        );
    }
}

#[test]
fn reading_a_line_twice_gives_the_same_command() {
    for line in ["help", "pi 3", "ps 3 0.5", "note 60", "", "nonsense", "ps 3 x"] {
        assert_eq!(read(line), read(line));
    }
}

#[test]
fn parsing_from_words() {
    assert_eq!(ClackAudioHostCommand::try_parse_from_tokens(vec![], None), None);
    assert_eq!(ClackAudioHostCommand::try_parse_from_tokens(vec!["help"], None), Some(Help));
    assert_eq!(
        ClackAudioHostCommand::try_parse_from_tokens(vec!["pi", "9"], None),
        Some(ParamInfo(9))
    );
    assert_eq!(ClackAudioHostCommand::try_parse_from_tokens(vec!["pi", "x"], None), None);
    assert_eq!(
        ClackAudioHostCommand::try_parse_from_tokens(vec!["ps", "9", "1.5"], Some(bits(1.5))),
        Some(SetParam(9, bits(1.5)))
    );
    assert_eq!(
        ClackAudioHostCommand::try_parse_from_tokens(vec!["ps", "9"], Some(bits(1.5))),
        None
    );
    assert_eq!(ClackAudioHostCommand::try_parse_from_tokens(vec!["unknown"], None), None);
}

#[test]
fn events_of_the_commands() {
    assert_eq!(NOTE_VELOCITY, 12700);
    assert_eq!(NOTE_VELOCITY as f64 / 127.0, 100.0);
    assert_eq!(
        StartNote(60).event(),
        Some(Event::NoteOn {
            time: 0,
            port: 0,
            channel: 0,
            key: 60,
            velocity: Velocity { numerator: 12700 },
        })
    );
    assert_eq!(
        StopNote(60).event(),
        Some(Event::NoteOff {
            time: 0,
            port: 0,
            channel: 0,
            key: 60,
            velocity: Velocity { numerator: 12700 },
        })
    );
    assert_eq!(
        SetParam(3, bits(0.5)).event(),
        Some(Event::ParamValue { time: 0, param_id: 3, value: bits(0.5) })
    );
    for command in [Help, ListFeatures, ListParams, ParamInfo(3), Quit, Invalid] {
        assert_eq!(command.event(), None);
    }
}

#[test]
fn note_then_stop_are_enqueued_in_that_order() {
    let mut queue = EventQueue::new();
    assert!(read("note 60").enqueue(&mut queue));
    assert!(read("stop 60").enqueue(&mut queue));
    let mut events = Vec::new();
    queue.drain_into(&mut events);
    assert_eq!(events.len(), 2);
    assert!(matches!(events[0], Event::NoteOn { key: 60, .. }));
    assert!(matches!(events[1], Event::NoteOff { key: 60, .. }));
}

#[test]
fn ps_enqueues_the_value_of_the_parameter() {
    let mut queue = EventQueue::new();
    assert!(read("ps 3 0.5").enqueue(&mut queue));
    let mut events = Vec::new();
    queue.drain_into(&mut events);
    assert_eq!(events, vec![Event::ParamValue { time: 0, param_id: 3, value: bits(0.5) }]);
    match events[0] {
        Event::ParamValue { param_id, value, .. } => {
            assert_eq!(param_id, 3);
            assert_eq!(f64::from_bits(value.bits), 0.5);
        },
        _ => unreachable!(),
    }
}

#[test]
fn commands_without_an_event_enqueue_nothing() {
    let mut queue = EventQueue::new();
    for line in ["help", "lsf", "lsp", "pi 3", "q", "nonsense", "", "ps 3 x"] {
        assert!(!read(line).enqueue(&mut queue));
    }
    assert!(queue.is_empty());
}

#[test]
fn the_usage_names_every_command() {
    let lines = help_lines();
    assert_eq!(
        lines,
        vec![
            "help|h|?                  - Show this help message",
            "note|n|nb <key>           - Start playing a note",
            "stop|s|ne <key>           - Stop playing a note",
            "pi <param_id>             - Show information about a specific parameter",
            "lsf                       - List plugin features",
            "lsp                       - List plugin parameters",
            "ps <param_id> <new_value> - Set a parameter",
            "q|quit                    - Quit",
        ]
    );
}

#[test]
fn one_number_is_no_parameter_id() {
    assert!(read("ps 4294967294 1").is_sendable());
    assert!(!read("ps 4294967295 1").is_sendable());
    assert!(read("pi 4294967295").is_sendable());
    for line in ["help", "note 60", "stop 60", "lsf", "lsp", "q", "", "what"] {
        assert!(read(line).is_sendable());
    }
}
