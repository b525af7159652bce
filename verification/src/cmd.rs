//! The command interpreter: from one line of text to one command.
//!
//! A line is split into words at white space. The first word selects the
//! command; the words behind it are its arguments, and words beyond those are
//! ignored. A line whose first word is unknown, or whose arguments are
//! missing or are no numbers of the right kind, is `Invalid`.
//!
//! The value of `ps` is a 64-bit binary number. This crate holds no such
//! number but by its bit pattern, so the caller decodes the word that
//! `value_token` names and hands the outcome to `from`.

use vstd::prelude::*;
use crate::event::{Binary64, Event, Velocity, NOTE_VELOCITY};
use crate::ids::{can_be_param_id, is_param_id};
use crate::queue::EventQueue;
use crate::text::{
    chars_of, is_space, numeral_value, parse_unsigned, spells, texts, tokenize,
    white_space_holds_no_word, words,
};

verus! {

/// What the operator asks of the host.
#[derive(Clone, Copy, Debug, PartialEq, Eq, Structural)]
pub enum ClackAudioHostCommand {
    /// Show the usage.
    Help,
    /// Press a key.
    StartNote(u16),
    /// Release a key.
    StopNote(u16),
    /// List the features of the plugin.
    ListFeatures,
    /// List the parameters of the plugin.
    ListParams,
    /// Show one parameter.
    ParamInfo(u32),
    /// Give a parameter a new value.
    SetParam(u32, Binary64),
    /// End the control loop.
    Quit,
    /// The line is no command.
    Invalid,
}

/// Whether `word` asks for the usage.
pub open spec fn names_help(word: Seq<char>) -> bool {
    word == "help"@ || word == "h"@ || word == "?"@
}

/// Whether `word` asks to press a key.
pub open spec fn names_start_note(word: Seq<char>) -> bool {
    word == "note"@ || word == "n"@ || word == "nb"@
}

/// Whether `word` asks to release a key.
pub open spec fn names_stop_note(word: Seq<char>) -> bool {
    word == "stop"@ || word == "s"@ || word == "ne"@
}

/// Whether `word` asks to end the control loop.
pub open spec fn names_quit(word: Seq<char>) -> bool {
    word == "q"@ || word == "quit"@
}

/// The largest number that the command named by `word` takes as its first
/// argument: 16 bits for the key of a note, 32 bits for the id of a
/// parameter. `None` for a name that takes no number.
pub open spec fn number_limit(word: Seq<char>) -> Option<nat> {
    if names_start_note(word) || names_stop_note(word) {
        Some(u16::MAX as nat)
    } else if word == "pi"@ || word == "ps"@ {
        Some(u32::MAX as nat)
    } else {
        None
    }
}

/// The number that the word at `index` spells, where there is such a word
/// and it is an unsigned decimal numeral no larger than `max`.
pub open spec fn argument(words: Seq<Seq<char>>, index: int, max: nat) -> Option<nat> {
    if 0 <= index < words.len() {
        numeral_value(words[index], max)
    } else {
        None
    }
}

/// The word that holds the value of a `ps` command: the third word of a line
/// that begins with `ps` and a parameter id.
pub open spec fn value_word(words: Seq<Seq<char>>) -> Option<Seq<char>> {
    if words.len() >= 3 && words[0] == "ps"@ && argument(words, 1, u32::MAX as nat).is_some() {
        Some(words[2])
    } else {
        None
    }
}

impl ClackAudioHostCommand {
    /// The command that the words of a line spell, if they spell one.
    /// `value` is what the value word of the line decodes to, `None` where it
    /// is no number or the line has no value word.
    pub open spec fn parsed(words: Seq<Seq<char>>, value: Option<Binary64>) -> Option<
        ClackAudioHostCommand,
    > {
        if words.len() == 0 {
            None
        } else if names_help(words[0]) {
            Some(ClackAudioHostCommand::Help)
        } else if names_quit(words[0]) {
            Some(ClackAudioHostCommand::Quit)
        } else if words[0] == "lsf"@ {
            Some(ClackAudioHostCommand::ListFeatures)
        } else if words[0] == "lsp"@ {
            Some(ClackAudioHostCommand::ListParams)
        } else if names_start_note(words[0]) {
            match argument(words, 1, u16::MAX as nat) {
                Some(key) => Some(ClackAudioHostCommand::StartNote(key as u16)),
                None => None,
            }
        } else if names_stop_note(words[0]) {
            match argument(words, 1, u16::MAX as nat) {
                Some(key) => Some(ClackAudioHostCommand::StopNote(key as u16)),
                None => None,
            }
        } else if words[0] == "pi"@ {
            match argument(words, 1, u32::MAX as nat) {
                Some(id) => Some(ClackAudioHostCommand::ParamInfo(id as u32)),
                None => None,
            }
        } else if words[0] == "ps"@ {
            match (argument(words, 1, u32::MAX as nat), value) {
                (Some(id), Some(number)) if words.len() >= 3 => Some(
                    ClackAudioHostCommand::SetParam(id as u32, number),
                ),
                _ => None,
            }
        } else {
            None
        }
    }

    /// The command that `line` is: what its words spell, and `Invalid` where
    /// they spell no command.
    pub open spec fn classified(line: Seq<char>, value: Option<Binary64>) -> ClackAudioHostCommand {
        match ClackAudioHostCommand::parsed(words(line), value) {
            Some(command) => command,
            None => ClackAudioHostCommand::Invalid,
        }
    }

    /// Whether the command can be carried out. Every command can but a `ps`
    /// whose parameter id is the one number that is no id.
    pub open spec fn sendable(self) -> bool {
        self matches ClackAudioHostCommand::SetParam(param_id, _) ==> is_param_id(param_id)
    }

    /// The event that the command sends to the plugin, if it sends one: a
    /// note at the start of the period on port 0 and channel 0, or a new
    /// value for a parameter.
    pub open spec fn event_of(self) -> Option<Event> {
        match self {
            ClackAudioHostCommand::StartNote(key) => Some(
                Event::NoteOn {
                    time: 0,
                    port: 0,
                    channel: 0,
                    key,
                    velocity: Velocity { numerator: NOTE_VELOCITY },
                },
            ),
            ClackAudioHostCommand::StopNote(key) => Some(
                Event::NoteOff {
                    time: 0,
                    port: 0,
                    channel: 0,
                    key,
                    velocity: Velocity { numerator: NOTE_VELOCITY },
                },
            ),
            ClackAudioHostCommand::SetParam(param_id, value) => Some(
                Event::ParamValue { time: 0, param_id, value },
            ),
            _ => None,
        }
    }

    /// Reads the argument at `index` as a number no larger than `max`.
    fn read_argument(tokens: &Vec<&str>, index: usize, max: u32) -> (number: Option<u32>)
        ensures
            match argument(texts(tokens@), index as int, max as nat) {
                Some(value) => number == Some(value as u32),
                None => number.is_none(),
            },
    {
        if index < tokens.len() {
            parse_unsigned(tokens[index], max)
        } else {
            None
        }
    }

    /// The command that the words of a line spell, if they spell one.
    ///
    /// `value` is what the caller decoded the third word to: the bit pattern
    /// of the number, or `None` where the word is no number. It is read for
    /// `ps` alone.
    pub fn try_parse_from_tokens(tokens: Vec<&str>, value: Option<Binary64>) -> (command: Option<
        ClackAudioHostCommand,
    >)
        ensures
            command == ClackAudioHostCommand::parsed(texts(tokens@), value),
    {
        if tokens.len() == 0 {
            return None;
        }
        let first = chars_of(tokens[0]);
        assert(first@ == texts(tokens@)[0]);
        if spells(&first, "help") || spells(&first, "h") || spells(&first, "?") {
            Some(ClackAudioHostCommand::Help)
        } else if spells(&first, "q") || spells(&first, "quit") {
            Some(ClackAudioHostCommand::Quit)
        } else if spells(&first, "lsf") {
            Some(ClackAudioHostCommand::ListFeatures)
        } else if spells(&first, "lsp") {
            Some(ClackAudioHostCommand::ListParams)
        } else if spells(&first, "note") || spells(&first, "n") || spells(&first, "nb") {
            match ClackAudioHostCommand::read_argument(&tokens, 1, 0xFFFF) {
                Some(key) => Some(ClackAudioHostCommand::StartNote(key as u16)),
                None => None,
            }
        } else if spells(&first, "stop") || spells(&first, "s") || spells(&first, "ne") {
            match ClackAudioHostCommand::read_argument(&tokens, 1, 0xFFFF) {
                Some(key) => Some(ClackAudioHostCommand::StopNote(key as u16)),
                None => None,
            }
        } else if spells(&first, "pi") {
            match ClackAudioHostCommand::read_argument(&tokens, 1, 0xFFFF_FFFF) {
                Some(id) => Some(ClackAudioHostCommand::ParamInfo(id)),
                None => None,
            }
        } else if spells(&first, "ps") {
            match ClackAudioHostCommand::read_argument(&tokens, 1, 0xFFFF_FFFF) {
                Some(id) => {
                    if tokens.len() >= 3 {
                        match value {
                            Some(number) => Some(ClackAudioHostCommand::SetParam(id, number)),
                            None => None,
                        }
                    } else {
                        None
                    }
                },
                None => None,
            }
        } else {
            None
        }
    }

    /// The command that `line` is, with `value` for what the caller decoded
    /// its value word to. Every line is exactly one command; a line that
    /// spells none is `Invalid`.
    pub fn from(line: &str, value: Option<Binary64>) -> (command: ClackAudioHostCommand)
        ensures
            command == ClackAudioHostCommand::classified(line@, value),
    {
        match ClackAudioHostCommand::try_parse_from_tokens(tokenize(line), value) {
            Some(command) => command,
            None => ClackAudioHostCommand::Invalid,
        }
    }

    /// The word of `line` that the caller has to decode before it calls
    /// `from`: the third word, where the line begins with `ps` and a
    /// parameter id. Any other line needs no number.
    pub fn value_token(line: &str) -> (word: Option<&str>)
        ensures
            match value_word(words(line@)) {
                Some(text) => word.is_some() && word.unwrap()@ == text,
                None => word.is_none(),
            },
    {
        let tokens = tokenize(line);
        if tokens.len() < 3 {
            return None;
        }
        let first = chars_of(tokens[0]);
        assert(first@ == texts(tokens@)[0]);
        assert(tokens[2]@ == texts(tokens@)[2]);
        if spells(&first, "ps") && ClackAudioHostCommand::read_argument(
            &tokens,
            1,
            0xFFFF_FFFF,
        ).is_some() {
            Some(tokens[2])
        } else {
            None
        }
    }

    /// Whether the command can be carried out: `ps` cannot where its
    /// parameter id is the one number that is no id.
    pub fn is_sendable(&self) -> (sendable: bool)
        ensures
            sendable == self.sendable(),
    {
        match *self {
            ClackAudioHostCommand::SetParam(param_id, _) => can_be_param_id(param_id),
            _ => true,
        }
    }

    /// The event that the command sends to the plugin, if it sends one.
    pub fn event(&self) -> (event: Option<Event>)
        requires
            self.sendable(),
        ensures
            event == self.event_of(),
    {
        match *self {
            ClackAudioHostCommand::StartNote(key) => Some(
                Event::NoteOn {
                    time: 0,
                    port: 0,
                    channel: 0,
                    key,
                    velocity: Velocity { numerator: NOTE_VELOCITY },
                },
            ),
            ClackAudioHostCommand::StopNote(key) => Some(
                Event::NoteOff {
                    time: 0,
                    port: 0,
                    channel: 0,
                    key,
                    velocity: Velocity { numerator: NOTE_VELOCITY },
                },
            ),
            ClackAudioHostCommand::SetParam(param_id, value) => Some(
                Event::ParamValue { time: 0, param_id, value },
            ),
            _ => None,
        }
    }

    /// Appends the event of the command to `queue`, and says whether there
    /// was one. A command without an event leaves the queue as it was.
    pub fn enqueue(&self, queue: &mut EventQueue) -> (sent: bool)
        requires
            self.sendable(),
        ensures
            match self.event_of() {
                Some(event) => sent && final(queue)@ == old(queue)@.push(event),
                None => !sent && final(queue)@ == old(queue)@,
            },
    {
        match self.event() {
            Some(event) => {
                queue.push(event);
                true
            },
            None => false,
        }
    }
}

/// The usage, line by line.
pub open spec fn help_text() -> Seq<Seq<char>> {
    seq![
        "help|h|?                  - Show this help message"@,
        "note|n|nb <key>           - Start playing a note"@,
        "stop|s|ne <key>           - Stop playing a note"@,
        "pi <param_id>             - Show information about a specific parameter"@,
        "lsf                       - List plugin features"@,
        "lsp                       - List plugin parameters"@,
        "ps <param_id> <new_value> - Set a parameter"@,
        "q|quit                    - Quit"@,
    ]
}

/// The usage, line by line, for the caller to print.
pub fn help_lines() -> (lines: Vec<&'static str>)
    ensures
        texts(lines@) == help_text(),
{
    let mut lines: Vec<&'static str> = Vec::new();
    lines.push("help|h|?                  - Show this help message");
    lines.push("note|n|nb <key>           - Start playing a note");
    lines.push("stop|s|ne <key>           - Stop playing a note");
    lines.push("pi <param_id>             - Show information about a specific parameter");
    lines.push("lsf                       - List plugin features");
    lines.push("lsp                       - List plugin parameters");
    lines.push("ps <param_id> <new_value> - Set a parameter");
    lines.push("q|quit                    - Quit");
    assert(texts(lines@) =~= help_text());
    lines
}

/// What each name of a command spells, letter by letter.
proof fn lemma_names_spelled()
    ensures
        "help"@.len() == 4 && "help"@[0] == 'h' && "help"@[1] == 'e' && "help"@[2] == 'l' && "help"@[3] == 'p',
        "h"@.len() == 1 && "h"@[0] == 'h',
        "?"@.len() == 1 && "?"@[0] == '?',
        "q"@.len() == 1 && "q"@[0] == 'q',
        "quit"@.len() == 4 && "quit"@[0] == 'q' && "quit"@[1] == 'u' && "quit"@[2] == 'i' && "quit"@[3] == 't',
        "lsf"@.len() == 3 && "lsf"@[0] == 'l' && "lsf"@[1] == 's' && "lsf"@[2] == 'f',
        "lsp"@.len() == 3 && "lsp"@[0] == 'l' && "lsp"@[1] == 's' && "lsp"@[2] == 'p',
        "note"@.len() == 4 && "note"@[0] == 'n' && "note"@[1] == 'o' && "note"@[2] == 't' && "note"@[3] == 'e',
        "n"@.len() == 1 && "n"@[0] == 'n',
        "nb"@.len() == 2 && "nb"@[0] == 'n' && "nb"@[1] == 'b',
        "stop"@.len() == 4 && "stop"@[0] == 's' && "stop"@[1] == 't' && "stop"@[2] == 'o' && "stop"@[3] == 'p',
        "s"@.len() == 1 && "s"@[0] == 's',
        "ne"@.len() == 2 && "ne"@[0] == 'n' && "ne"@[1] == 'e',
        "pi"@.len() == 2 && "pi"@[0] == 'p' && "pi"@[1] == 'i',
        "ps"@.len() == 2 && "ps"@[0] == 'p' && "ps"@[1] == 's',
{
    reveal_strlit("help");
    reveal_strlit("h");
    reveal_strlit("?");
    reveal_strlit("q");
    reveal_strlit("quit");
    reveal_strlit("lsf");
    reveal_strlit("lsp");
    reveal_strlit("note");
    reveal_strlit("n");
    reveal_strlit("nb");
    reveal_strlit("stop");
    reveal_strlit("s");
    reveal_strlit("ne");
    reveal_strlit("pi");
    reveal_strlit("ps");
}

/// One if `holds`, else zero.
pub open spec fn one_if(holds: bool) -> int {
    if holds {
        1
    } else {
        0
    }
}

/// No word names two commands, so the order in which the names are tried is
/// of no account.
pub proof fn no_word_names_two_commands(word: Seq<char>)
    ensures
        one_if(names_help(word)) + one_if(names_quit(word)) + one_if(word == "lsf"@) + one_if(
            word == "lsp"@,
        ) + one_if(names_start_note(word)) + one_if(names_stop_note(word)) + one_if(
            word == "pi"@,
        ) + one_if(word == "ps"@) <= 1,
{
    lemma_names_spelled();
}

/// A line of nothing but white space, and so the empty line, is `Invalid`.
pub proof fn blank_line_is_invalid(line: Seq<char>, value: Option<Binary64>)
    requires
        forall|i: int| 0 <= i < line.len() ==> is_space(#[trigger] line[i]),
    ensures
        ClackAudioHostCommand::classified(line, value) == ClackAudioHostCommand::Invalid,
{
    white_space_holds_no_word(line, 0);
}

/// A command that takes a number is never read in part: where the word
/// behind `note`, `stop`, `pi` or `ps` (or one of their short forms) is
/// missing, is no numeral or is too large, the line is `Invalid`.
pub proof fn line_without_its_number_is_invalid(line: Seq<char>, value: Option<Binary64>)
    requires
        words(line).len() > 0,
        number_limit(words(line)[0]) matches Some(max) && argument(words(line), 1, max).is_none(),
    ensures
        ClackAudioHostCommand::classified(line, value) == ClackAudioHostCommand::Invalid,
{
    no_word_names_two_commands(words(line)[0]);
}

/// A `ps` line whose value word is no number is `Invalid`, whatever its
/// parameter id.
pub proof fn line_without_its_value_is_invalid(line: Seq<char>)
    requires
        words(line).len() > 0,
        words(line)[0] == "ps"@,
    ensures
        ClackAudioHostCommand::classified(line, None) == ClackAudioHostCommand::Invalid,
{
    no_word_names_two_commands(words(line)[0]);
}

/// The number that the caller decodes is read for no line but one with a
/// value word: every other line is the same command whatever is handed in.
pub proof fn line_without_value_word_ignores_the_number(
    line: Seq<char>,
    one: Option<Binary64>,
    other: Option<Binary64>,
)
    requires
        value_word(words(line)).is_none(),
    ensures
        ClackAudioHostCommand::classified(line, one) == ClackAudioHostCommand::classified(
            line,
            other,
        ),
{
}

} // verus!
