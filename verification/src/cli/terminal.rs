//! What the user types into a shell.

use crate::cli::error::{RunError, RunErrorView};
use crate::codec;
use crate::text::{chars_of, push_char};
use vstd::prelude::*;
use vstd::utf8::encode_utf8;

verus! {

/// A key of the keyboard.
#[derive(Clone, Copy, Debug, PartialEq, Eq, Structural)]
pub enum KeyCode {
    Char(char),
    Enter,
    Tab,
    BackTab,
    Backspace,
    Esc,
    Up,
    Down,
    Right,
    Left,
    Home,
    End,
    Delete,
    Insert,
    PageUp,
    PageDown,
    /// A function key by its number.
    F(u8),
    /// A key that has no input.
    Other,
}

/// A key that is pressed, with the modifiers that are held.
#[derive(Clone, Copy, Debug, PartialEq, Eq, Structural)]
pub struct Key {
    pub code: KeyCode,
    pub control: bool,
    pub alt: bool,
}

/// The input of a function key.
pub open spec fn function_key_bytes(number: u8) -> Seq<u8> {
    if number == 1 {
        seq![0x1b, 0x4f, 0x50]
    } else if number == 2 {
        seq![0x1b, 0x4f, 0x51]
    } else if number == 3 {
        seq![0x1b, 0x4f, 0x52]
    } else if number == 4 {
        seq![0x1b, 0x4f, 0x53]
    } else if number == 5 {
        seq![0x1b, 0x5b, 0x31, 0x35, 0x7e]
    } else if 6 <= number <= 8 {
        seq![0x1b, 0x5b, 0x31, (0x31 + number) as u8, 0x7e]
    } else if 9 <= number <= 10 {
        seq![0x1b, 0x5b, 0x32, (0x27 + number) as u8, 0x7e]
    } else if 11 <= number <= 12 {
        seq![0x1b, 0x5b, 0x32, (0x28 + number) as u8, 0x7e]
    } else {
        Seq::empty()
    }
}

/// The input of a key without modifiers: that of the Linux console.
pub open spec fn plain_key_bytes(code: KeyCode) -> Seq<u8> {
    match code {
        KeyCode::Char(c) => encode_utf8(seq![c]),
        KeyCode::Enter => seq![0x0d],
        KeyCode::Tab => seq![0x09],
        KeyCode::BackTab => seq![0x1b, 0x5b, 0x5a],
        KeyCode::Backspace => seq![0x7f],
        KeyCode::Esc => seq![0x1b],
        KeyCode::Up => seq![0x1b, 0x5b, 0x41],
        KeyCode::Down => seq![0x1b, 0x5b, 0x42],
        KeyCode::Right => seq![0x1b, 0x5b, 0x43],
        KeyCode::Left => seq![0x1b, 0x5b, 0x44],
        KeyCode::Home => seq![0x1b, 0x5b, 0x48],
        KeyCode::End => seq![0x1b, 0x5b, 0x46],
        KeyCode::Delete => seq![0x1b, 0x5b, 0x33, 0x7e],
        KeyCode::Insert => seq![0x1b, 0x5b, 0x32, 0x7e],
        KeyCode::PageUp => seq![0x1b, 0x5b, 0x35, 0x7e],
        KeyCode::PageDown => seq![0x1b, 0x5b, 0x36, 0x7e],
        KeyCode::F(number) => function_key_bytes(number),
        KeyCode::Other => Seq::empty(),
    }
}

/// The input of a character that is typed with the control key: a control code,
/// where the character is ASCII.
pub open spec fn control_bytes(c: char) -> Seq<u8> {
    if c as u32 > 0x7f {
        Seq::empty()
    } else if c == '?' {
        seq![0x7f]
    } else {
        seq![(c as u8) & 0x1f]
    }
}

/// The input of a key: an escape goes before it where the alt key is held.
pub open spec fn key_bytes(key: Key) -> Seq<u8> {
    let before = if key.alt {
        seq![0x1bu8]
    } else {
        Seq::empty()
    };
    before + match key.code {
        KeyCode::Char(c) => if key.control {
            control_bytes(c)
        } else {
            plain_key_bytes(key.code)
        },
        _ => plain_key_bytes(key.code),
    }
}

fn function_key(number: u8) -> (bytes: Vec<u8>)
    ensures
        bytes@ == function_key_bytes(number),
{
    let bytes: Vec<u8> = match number {
        1 => vec![0x1b, 0x4f, 0x50],
        2 => vec![0x1b, 0x4f, 0x51],
        3 => vec![0x1b, 0x4f, 0x52],
        4 => vec![0x1b, 0x4f, 0x53],
        5 => vec![0x1b, 0x5b, 0x31, 0x35, 0x7e],
        6 => vec![0x1b, 0x5b, 0x31, 0x37, 0x7e],
        7 => vec![0x1b, 0x5b, 0x31, 0x38, 0x7e],
        8 => vec![0x1b, 0x5b, 0x31, 0x39, 0x7e],
        9 => vec![0x1b, 0x5b, 0x32, 0x30, 0x7e],
        10 => vec![0x1b, 0x5b, 0x32, 0x31, 0x7e],
        11 => vec![0x1b, 0x5b, 0x32, 0x33, 0x7e],
        12 => vec![0x1b, 0x5b, 0x32, 0x34, 0x7e],
        _ => Vec::new(),
    };
    assert(bytes@ =~= function_key_bytes(number));
    bytes
}

fn encode_plain_key(code: KeyCode) -> (bytes: Vec<u8>)
    ensures
        bytes@ == plain_key_bytes(code),
{
    let bytes: Vec<u8> = match code {
        KeyCode::Char(c) => {
            let mut text = String::new();
            push_char(&mut text, c);
            assert(text@ =~= seq![c]);
            vstd::slice::slice_to_vec(text.as_str().as_bytes())
        },
        KeyCode::Enter => vec![0x0d],
        KeyCode::Tab => vec![0x09],
        KeyCode::BackTab => vec![0x1b, 0x5b, 0x5a],
        KeyCode::Backspace => vec![0x7f],
        KeyCode::Esc => vec![0x1b],
        KeyCode::Up => vec![0x1b, 0x5b, 0x41],
        KeyCode::Down => vec![0x1b, 0x5b, 0x42],
        KeyCode::Right => vec![0x1b, 0x5b, 0x43],
        KeyCode::Left => vec![0x1b, 0x5b, 0x44],
        KeyCode::Home => vec![0x1b, 0x5b, 0x48],
        KeyCode::End => vec![0x1b, 0x5b, 0x46],
        KeyCode::Delete => vec![0x1b, 0x5b, 0x33, 0x7e],
        KeyCode::Insert => vec![0x1b, 0x5b, 0x32, 0x7e],
        KeyCode::PageUp => vec![0x1b, 0x5b, 0x35, 0x7e],
        KeyCode::PageDown => vec![0x1b, 0x5b, 0x36, 0x7e],
        KeyCode::F(number) => function_key(number),
        KeyCode::Other => Vec::new(),
    };
    assert(bytes@ =~= plain_key_bytes(code));
    bytes
}

/// The input of a key.
pub fn encode_key(key: Key) -> (bytes: Vec<u8>)
    ensures
        bytes@ == key_bytes(key),
{
    let mut bytes: Vec<u8> = Vec::new();
    if key.alt {
        bytes.push(0x1b);
    }
    let mut rest = match key.code {
        KeyCode::Char(c) => {
            if key.control {
                let mut rest: Vec<u8> = Vec::new();
                if c as u32 <= 0x7f {
                    let byte: u8 = c as u8;
                    rest.push(
                        if c == '?' {
                            0x7f
                        } else {
                            byte & 0x1f
                        },
                    );
                }
                assert(rest@ =~= control_bytes(c));
                rest
            } else {
                encode_plain_key(key.code)
            }
        },
        _ => encode_plain_key(key.code),
    };
    bytes.append(&mut rest);
    assert(bytes@ =~= key_bytes(key));
    bytes
}

/// The escape character that a setting stands for, if it is a setting: `none` in
/// any case for no escape, or one ASCII character.
pub open spec fn escape_of(value: Seq<char>) -> Option<Option<u8>> {
    if value.map_values(|c: char| codec::ascii_lower(c)) == "none"@ {
        Some(None)
    } else if value.len() == 1 && value[0] as u32 <= 0x7f {
        Some(Some(value[0] as u8))
    } else {
        None
    }
}

fn lower(c: char) -> (lower: char)
    ensures
        lower == codec::ascii_lower(c),
{
    if 'A' <= c && c <= 'Z' {
        ((c as u8) + 32u8) as char
    } else {
        c
    }
}

/// Reads the setting of the escape character.
pub fn parse_escape(value: &str) -> (result: Result<Option<u8>, RunError>)
    ensures
        match escape_of(value@) {
            Some(escape) => result == Ok::<_, RunError>(escape),
            None => result matches Err(error) && error@ == RunErrorView::Arguments(
                "-e expects one ASCII character or 'none'"@,
            ),
        },
{
    let chars = chars_of(value);
    let ghost lowered = value@.map_values(|c: char| codec::ascii_lower(c));
    proof {
        reveal_strlit("none");
    }
    if chars.len() == 4 && lower(chars[0]) == 'n' && lower(chars[1]) == 'o' && lower(chars[2])
        == 'n' && lower(chars[3]) == 'e' {
        assert(lowered =~= "none"@);
        return Ok(None);
    }
    proof {
        if lowered == "none"@ {
            assert(lowered.len() == 4);
            assert(lowered[0] == 'n' && lowered[1] == 'o' && lowered[2] == 'n' && lowered[3] == 'e');
        }
    }
    if chars.len() == 1 && chars[0] as u32 <= 0x7f {
        Ok(Some(chars[0] as u8))
    } else {
        Err(RunError::Arguments("-e expects one ASCII character or 'none'".to_owned()))
    }
}

/// Watches what is typed for the local escape: at the beginning of a line, the
/// escape character and a dot close the shell, and the escape character twice
/// stands for itself.
#[derive(Debug)]
pub struct EscapeFilter {
    escape: Option<u8>,
    at_line_start: bool,
    pending: bool,
}

/// The model of [`EscapeFilter`].
#[verifier::ext_equal]
pub struct EscapeFilterView {
    pub escape: Option<u8>,
    /// Whether the next byte begins a line.
    pub at_line_start: bool,
    /// Whether the escape character has just been typed at the beginning of a line.
    pub pending: bool,
}

impl View for EscapeFilter {
    type V = EscapeFilterView;

    closed spec fn view(&self) -> EscapeFilterView {
        EscapeFilterView {
            escape: self.escape,
            at_line_start: self.at_line_start,
            pending: self.pending,
        }
    }
}

/// What is left of the input: the bytes to send, and whether the shell is to be
/// closed behind them.
#[derive(Debug)]
pub struct FilteredInput {
    pub data: Vec<u8>,
    pub close: bool,
}

/// Whether a byte ends a line.
pub open spec fn ends_line(byte: u8) -> bool {
    byte == 13 || byte == 10
}

/// What one byte comes to: the bytes to send, whether the shell is to be closed,
/// and the filter afterwards.
pub open spec fn filter_byte(filter: EscapeFilterView, byte: u8) -> (
    Seq<u8>,
    bool,
    EscapeFilterView,
) {
    let after = EscapeFilterView { at_line_start: ends_line(byte), pending: false, ..filter };
    match filter.escape {
        None => (
            seq![byte],
            false,
            EscapeFilterView { at_line_start: ends_line(byte), ..filter },
        ),
        Some(escape) => if filter.pending {
            if byte == 46 {
                (Seq::empty(), true, EscapeFilterView { pending: false, ..filter })
            } else if byte == escape {
                (
                    seq![escape],
                    false,
                    EscapeFilterView { at_line_start: false, pending: false, ..filter },
                )
            } else {
                (seq![escape, byte], false, after)
            }
        } else if filter.at_line_start && byte == escape {
            (Seq::empty(), false, EscapeFilterView { pending: true, ..filter })
        } else {
            (seq![byte], false, after)
        },
    }
}

/// What several bytes come to. Those behind the one that closes the shell are
/// dropped.
pub open spec fn filter_bytes(filter: EscapeFilterView, input: Seq<u8>) -> (
    Seq<u8>,
    bool,
    EscapeFilterView,
)
    decreases input.len(),
{
    if input.len() == 0 {
        (Seq::empty(), false, filter)
    } else {
        let (data, close, next) = filter_byte(filter, input[0]);
        if close {
            (data, true, next)
        } else {
            let (rest, closed, last) = filter_bytes(next, input.skip(1));
            (data + rest, closed, last)
        }
    }
}

impl EscapeFilter {
    /// A filter at the beginning of a line.
    pub fn new(escape: Option<u8>) -> (filter: Self)
        ensures
            filter@ == (EscapeFilterView { escape, at_line_start: true, pending: false }),
    {
        EscapeFilter { escape, at_line_start: true, pending: false }
    }

    fn push_byte(&mut self, byte: u8, data: &mut Vec<u8>) -> (close: bool)
        ensures
            (close, final(self)@) == (filter_byte(old(self)@, byte).1, filter_byte(
                old(self)@,
                byte,
            ).2),
            final(data)@ == old(data)@ + filter_byte(old(self)@, byte).0,
    {
        let ghost before = data@;
        let ghost sent = filter_byte(self@, byte).0;
        match self.escape {
            None => {
                data.push(byte);
                self.at_line_start = byte == 13 || byte == 10;
            },
            Some(escape) => {
                if self.pending {
                    self.pending = false;
                    if byte == 46 {
                        assert(data@ =~= before + sent);
                        return true;
                    }
                    data.push(escape);
                    if byte == escape {
                        self.at_line_start = false;
                    } else {
                        data.push(byte);
                        self.at_line_start = byte == 13 || byte == 10;
                    }
                } else if self.at_line_start && byte == escape {
                    self.pending = true;
                } else {
                    data.push(byte);
                    self.at_line_start = byte == 13 || byte == 10;
                }
            },
        }
        assert(data@ =~= before + sent);
        false
    }

    /// Takes what is typed next.
    pub fn push(&mut self, input: &[u8]) -> (filtered: FilteredInput)
        ensures
            (filtered.data@, filtered.close, final(self)@) == filter_bytes(old(self)@, input@),
    {
        let mut data: Vec<u8> = Vec::new();
        let mut i: usize = 0;
        let ghost whole = filter_bytes(self@, input@);
        assert(input@.skip(0) =~= input@);
        assert(data@ + whole.0 =~= whole.0);
        while i < input.len()
            invariant
                i <= input@.len(),
                whole == filter_bytes(old(self)@, input@),
                ({
                    let (rest, closed, last) = filter_bytes(self@, input@.skip(i as int));
                    (data@ + rest, closed, last)
                }) == whole,
            decreases input@.len() - i,
        {
            let ghost before = data@;
            let ghost left = input@.skip(i as int);
            let ghost at = self@;
            assert(left.skip(1) =~= input@.skip(i + 1));
            let close = self.push_byte(input[i], &mut data);
            proof {
                let sent = filter_byte(at, left[0]).0;
                if !close {
                    let (rest, closed, last) = filter_bytes(self@, left.skip(1));
                    assert(before + (sent + rest) =~= data@ + rest);
                }
            }
            if close {
                return FilteredInput { data, close: true };
            }
            i += 1;
        }
        assert(data@ + Seq::<u8>::empty() =~= data@);
        FilteredInput { data, close: false }
    }
}

/// Without an escape character all that is typed is sent as it is.
pub proof fn disabled_escape_sends_everything(filter: EscapeFilterView, input: Seq<u8>)
    requires
        filter.escape is None,
    ensures
        filter_bytes(filter, input).0 == input,
        !filter_bytes(filter, input).1,
    decreases input.len(),
{
    if input.len() == 0 {
        assert(input =~= Seq::empty());
    } else {
        let next = filter_byte(filter, input[0]).2;
        disabled_escape_sends_everything(next, input.skip(1));
        assert(seq![input[0]] + input.skip(1) =~= input);
    }
}

/// It does not matter in how many pieces the input is typed.
pub proof fn input_can_come_in_pieces(filter: EscapeFilterView, first: Seq<u8>, second: Seq<u8>)
    requires
        !filter_bytes(filter, first).1,
    ensures
        ({
            let (sent, _, between) = filter_bytes(filter, first);
            let (more, close, last) = filter_bytes(between, second);
            filter_bytes(filter, first + second) == (sent + more, close, last)
        }),
    decreases first.len(),
{
    if first.len() == 0 {
        assert(first + second =~= second);
        let more = filter_bytes(filter, second).0;
        assert(Seq::<u8>::empty() + more =~= more);
    } else {
        let (data, _, next) = filter_byte(filter, first[0]);
        input_can_come_in_pieces(next, first.skip(1), second);
        assert((first + second).skip(1) =~= first.skip(1) + second);
        let (rest, _, between) = filter_bytes(next, first.skip(1));
        let (more, _, _) = filter_bytes(between, second);
        assert(data + (rest + more) =~= (data + rest) + more);
    }
}

/// Only an escape character at the beginning of a line can close the shell: a line
/// that begins otherwise is sent as it is up to its end.
pub proof fn line_that_begins_otherwise_is_sent(
    filter: EscapeFilterView,
    escape: u8,
    line: Seq<u8>,
)
    requires
        filter.escape == Some(escape),
        !filter.pending,
        line.len() > 0,
        filter.at_line_start ==> line[0] != escape,
        forall|i: int| 0 <= i < line.len() - 1 ==> !ends_line(#[trigger] line[i]),
    ensures
        filter_bytes(filter, line).0 == line,
        !filter_bytes(filter, line).1,
        !filter_bytes(filter, line).2.pending,
    decreases line.len(),
{
    let next = filter_byte(filter, line[0]).2;
    assert(seq![line[0]] + line.skip(1) =~= line);
    if line.len() > 1 {
        assert(!ends_line(line[0]));
        assert forall|i: int| 0 <= i < line.skip(1).len() - 1 implies !ends_line(
            #[trigger] line.skip(1)[i],
        ) by {
            assert(line.skip(1)[i] == line[i + 1]);
        }
        line_that_begins_otherwise_is_sent(next, escape, line.skip(1));
    } else {
        assert(filter_bytes(next, line.skip(1)) == (Seq::<u8>::empty(), false, next));
        assert(line =~= seq![line[0]] + Seq::<u8>::empty());
    }
}

/// Whether a line begins at this place of what is typed: behind a carriage return or a
/// line feed, or at the very beginning if the filter says so.
pub open spec fn line_begins(filter: EscapeFilterView, input: Seq<u8>, i: int) -> bool {
    if i == 0 {
        filter.at_line_start
    } else {
        input[i - 1] == 13 || input[i - 1] == 10
    }
}

/// Whether nothing that is typed is an escape: behind each escape character that begins a
/// line comes something, and neither a dot nor the escape character again.
pub open spec fn holds_no_escape(filter: EscapeFilterView, escape: u8, input: Seq<u8>) -> bool {
    forall|i: int|
        0 <= i < input.len() && #[trigger] input[i] == escape && line_begins(filter, input, i)
            ==> i + 1 < input.len() && input[i + 1] != 46 && input[i + 1] != escape
}

/// What is typed without an escape is sent as it is, also where lines begin with the escape
/// character; and the filter then knows whether a line begins.
pub proof fn typed_text_is_sent(filter: EscapeFilterView, escape: u8, input: Seq<u8>)
    requires
        filter.escape == Some(escape),
        !filter.pending,
        holds_no_escape(filter, escape, input),
    ensures
        filter_bytes(filter, input).0 == input,
        !filter_bytes(filter, input).1,
        filter_bytes(filter, input).2 == (EscapeFilterView {
            at_line_start: line_begins(filter, input, input.len() as int),
            ..filter
        }),
    decreases input.len(),
{
    if input.len() == 0 {
        assert(input =~= Seq::empty());
    } else if filter.at_line_start && input[0] == escape {
        assert(line_begins(filter, input, 0));
        let (_, _, waiting) = filter_byte(filter, input[0]);
        let rest = input.skip(1);
        let (sent, _, next) = filter_byte(waiting, rest[0]);
        let later = rest.skip(1);
        assert(rest[0] == input[1]);
        assert forall|i: int| 0 <= i < later.len() && #[trigger] later[i] == escape && line_begins(
            next,
            later,
            i,
        ) implies i + 1 < later.len() && later[i + 1] != 46 && later[i + 1] != escape by {
            assert(later[i] == input[i + 2]);
            assert(line_begins(filter, input, i + 2)) by {
                if i > 0 {
                    assert(later[i - 1] == input[i + 1]);
                }
            }
        }
        typed_text_is_sent(next, escape, later);
        assert(filter_bytes(waiting, rest).0 == sent + later);
        assert(Seq::<u8>::empty() + (sent + later) =~= input);
        if later.len() > 0 {
            assert(later.last() == input.last());
        }
    } else {
        let (_, _, next) = filter_byte(filter, input[0]);
        let rest = input.skip(1);
        assert forall|i: int| 0 <= i < rest.len() && #[trigger] rest[i] == escape && line_begins(
            next,
            rest,
            i,
        ) implies i + 1 < rest.len() && rest[i + 1] != 46 && rest[i + 1] != escape by {
            assert(rest[i] == input[i + 1]);
            assert(line_begins(filter, input, i + 1)) by {
                if i > 0 {
                    assert(rest[i - 1] == input[i]);
                }
            }
        }
        typed_text_is_sent(next, escape, rest);
        assert(seq![input[0]] + rest =~= input);
        if rest.len() > 0 {
            assert(rest.last() == input.last());
        }
    }
}

/// The escape character and a dot at the beginning of a line close the shell: what was
/// typed before is sent, and nothing else.
pub proof fn escape_and_dot_close(
    filter: EscapeFilterView,
    escape: u8,
    typed: Seq<u8>,
    rest: Seq<u8>,
)
    requires
        filter.escape == Some(escape),
        !filter.pending,
        holds_no_escape(filter, escape, typed),
        line_begins(filter, typed, typed.len() as int),
    ensures
        filter_bytes(filter, typed + seq![escape, 46u8] + rest).0 == typed,
        filter_bytes(filter, typed + seq![escape, 46u8] + rest).1,
{
    typed_text_is_sent(filter, escape, typed);
    let tail = seq![escape, 46u8] + rest;
    let between = filter_bytes(filter, typed).2;
    input_can_come_in_pieces(filter, typed, tail);
    assert(typed + seq![escape, 46u8] + rest =~= typed + tail);
    assert(tail[0] == escape);
    assert(tail.skip(1)[0] == 46u8);
    let waiting = filter_byte(between, tail[0]).2;
    assert(filter_bytes(waiting, tail.skip(1)).0 =~= Seq::<u8>::empty());
    assert(filter_bytes(between, tail).0 =~= Seq::<u8>::empty());
    assert(typed + Seq::<u8>::empty() =~= typed);
}

/// The escape character twice at the beginning of a line is sent once, and what follows is
/// taken as the rest of that line.
pub proof fn doubled_escape_is_sent_once(
    filter: EscapeFilterView,
    escape: u8,
    typed: Seq<u8>,
    rest: Seq<u8>,
)
    requires
        filter.escape == Some(escape),
        escape != 46,
        !filter.pending,
        holds_no_escape(filter, escape, typed),
        line_begins(filter, typed, typed.len() as int),
    ensures
        ({
            let within = EscapeFilterView { at_line_start: false, ..filter };
            let (sent, close, last) = filter_bytes(within, rest);
            filter_bytes(filter, typed + seq![escape, escape] + rest) == (
                typed.push(escape) + sent,
                close,
                last,
            )
        }),
{
    typed_text_is_sent(filter, escape, typed);
    let tail = seq![escape, escape] + rest;
    let between = filter_bytes(filter, typed).2;
    input_can_come_in_pieces(filter, typed, tail);
    assert(typed + seq![escape, escape] + rest =~= typed + tail);
    assert(tail[0] == escape);
    assert(tail.skip(1)[0] == escape);
    assert(tail.skip(1).skip(1) =~= rest);
    let waiting = filter_byte(between, tail[0]).2;
    let within = filter_byte(waiting, escape).2;
    assert(within == EscapeFilterView { at_line_start: false, ..filter });
    let sent = filter_bytes(within, rest).0;
    assert(filter_bytes(waiting, tail.skip(1)).0 == seq![escape] + sent);
    assert(filter_bytes(between, tail).0 =~= seq![escape] + sent);
    assert(typed + (seq![escape] + sent) =~= typed.push(escape) + sent);
}

/// An escape character at the beginning of a line is held back until the next byte shows
/// what it is; nothing is lost by that.
pub proof fn escape_is_held_back(filter: EscapeFilterView, escape: u8, typed: Seq<u8>, next: u8)
    requires
        filter.escape == Some(escape),
        !filter.pending,
        holds_no_escape(filter, escape, typed),
        line_begins(filter, typed, typed.len() as int),
        next != 46,
        next != escape,
    ensures
        ({
            let (sent, close, held) = filter_bytes(filter, typed.push(escape));
            &&& sent == typed
            &&& !close
            &&& filter_bytes(held, seq![next]).0 == seq![escape, next]
            &&& !filter_bytes(held, seq![next]).1
        }),
{
    reveal_with_fuel(filter_bytes, 3);
    typed_text_is_sent(filter, escape, typed);
    let between = filter_bytes(filter, typed).2;
    input_can_come_in_pieces(filter, typed, seq![escape]);
    assert(typed.push(escape) =~= typed + seq![escape]);
    let held = filter_byte(between, escape).2;
    assert(seq![escape].skip(1) =~= Seq::<u8>::empty());
    assert(seq![next].skip(1) =~= Seq::<u8>::empty());
    assert(filter_bytes(between, seq![escape]).0 =~= Seq::<u8>::empty());
    assert(typed + Seq::<u8>::empty() =~= typed);
    let after = filter_byte(held, next).2;
    assert(filter_bytes(after, Seq::<u8>::empty()).0 == Seq::<u8>::empty());
    assert(filter_bytes(held, seq![next]).0 =~= seq![escape, next]);
}

/// Nothing else closes the shell: where it is closed, a line has begun with the escape
/// character and a dot.
pub proof fn only_escape_and_dot_close(filter: EscapeFilterView, escape: u8, input: Seq<u8>)
    requires
        filter.escape == Some(escape),
        !filter.pending,
        filter_bytes(filter, input).1,
    ensures
        exists|i: int|
            0 <= i < input.len() - 1 && #[trigger] input[i] == escape && input[i + 1] == 46
                && line_begins(filter, input, i),
    decreases input.len(),
{
    reveal_with_fuel(filter_bytes, 3);
    let rest = input.skip(1);
    if filter.at_line_start && input[0] == escape {
        let waiting = filter_byte(filter, input[0]).2;
        assert(rest.len() > 0);
        assert(rest[0] == input[1]);
        if input[1] == 46 {
            assert(line_begins(filter, input, 0));
        } else {
            let next = filter_byte(waiting, rest[0]).2;
            let later = rest.skip(1);
            only_escape_and_dot_close(next, escape, later);
            let i = choose|i: int|
                0 <= i < later.len() - 1 && #[trigger] later[i] == escape && later[i + 1] == 46
                    && line_begins(next, later, i);
            assert(later[i] == input[i + 2]);
            assert(line_begins(filter, input, i + 2)) by {
                if i > 0 {
                    assert(later[i - 1] == input[i + 1]);
                }
            }
        }
    } else {
        let next = filter_byte(filter, input[0]).2;
        only_escape_and_dot_close(next, escape, rest);
        let i = choose|i: int|
            0 <= i < rest.len() - 1 && #[trigger] rest[i] == escape && rest[i + 1] == 46
                && line_begins(next, rest, i);
        assert(rest[i] == input[i + 1]);
        assert(line_begins(filter, input, i + 1)) by {
            if i > 0 {
                assert(rest[i - 1] == input[i]);
            }
        }
    }
}

/// What is typed is what the shell reads: the bytes of a character are its own, with
/// the alt key behind an escape.
pub proof fn typed_characters_are_read_back(c: char, key: Key)
    ensures
        vstd::utf8::decode_utf8(
            key_bytes(Key { code: KeyCode::Char(c), control: false, alt: false }),
        ) == seq![c],
        key_bytes(Key { alt: true, ..key }) == seq![0x1bu8] + key_bytes(Key { alt: false, ..key }),
        !(key.code is Char) ==> key_bytes(Key { control: true, ..key }) == key_bytes(
            Key { control: false, ..key },
        ),
{
    vstd::utf8::encode_utf8_decode_utf8(seq![c]);
    let plain = Key { code: KeyCode::Char(c), control: false, alt: false };
    assert(key_bytes(plain) =~= encode_utf8(seq![c]));
    assert(key_bytes(Key { alt: false, ..key }) =~= key_bytes(Key { alt: false, ..key }));
    assert(key_bytes(Key { alt: true, ..key }) =~= seq![0x1bu8] + key_bytes(
        Key { alt: false, ..key },
    ));
}

/// A letter with the control key is the control code of its place in the alphabet,
/// whether or not it is a capital.
pub proof fn control_letters_are_numbered(letter: char)
    requires
        'a' <= letter <= 'z',
    ensures
        ({
            let capital = ((letter as u32) - 32) as char;
            &&& control_bytes(letter).len() == 1
            &&& control_bytes(letter)[0] == letter as int - 'a' as int + 1
            &&& control_bytes(capital) == control_bytes(letter)
        }),
{
    let byte = letter as u8;
    assert(97 <= byte <= 122);
    assert(byte & 0x1f == byte - 96 && ((byte - 32) as u8) & 0x1f == byte - 96) by (bit_vector)
        requires
            97 <= byte <= 122,
    ;
    let capital = ((letter as u32) - 32) as char;
    assert(capital as u8 == (byte - 32) as u8);
    assert(control_bytes(capital) =~= control_bytes(letter));
}

/// Whether a key is one that sends something else than a character.
pub open spec fn is_special(code: KeyCode) -> bool {
    match code {
        KeyCode::Char(_) => false,
        KeyCode::Other => false,
        KeyCode::F(number) => 1 <= number <= 12,
        _ => true,
    }
}

/// No two keys of a terminal send the same.
pub proof fn keys_are_told_apart(left: KeyCode, right: KeyCode)
    requires
        is_special(left),
        is_special(right),
        plain_key_bytes(left) == plain_key_bytes(right),
    ensures
        left == right,
{
    let l = plain_key_bytes(left);
    let r = plain_key_bytes(right);
    assert(l.len() == r.len());
    assert(l[0] == r[0]);
    if l.len() > 2 {
        assert(l[1] == r[1]);
        assert(l[2] == r[2]);
    }
    if l.len() > 3 {
        assert(l[3] == r[3]);
    }
}

proof fn ascii_fits_a_byte(c: char)
    ensures
        c as u32 <= 0x7f ==> (c as u8) as char == c && (c as u8) < 128,
{
}

/// The escape is the character that is set, or none in whatever case it is written;
/// nothing else is a setting.
pub proof fn escapes_are_as_set(value: Seq<char>)
    ensures
        escape_of(value) matches Some(Some(escape)) ==> value.len() == 1 && value[0]
            == escape as char && escape < 128,
        forall|escape: u8| escape < 128 ==> #[trigger] escape_of(seq![escape as char]) == Some(
            Some(escape),
        ),
        escape_of(value) == Some(None::<u8>) ==> value.len() == 4,
        escape_of("none"@) == Some(None::<u8>),
        escape_of("NONE"@) == Some(None::<u8>),
        value.len() != 1 && value.len() != 4 ==> escape_of(value) is None,
{
    reveal_strlit("none");
    reveal_strlit("NONE");
    let lowered = value.map_values(|c: char| codec::ascii_lower(c));
    assert(lowered.len() == value.len());
    if value.len() == 1 {
        ascii_fits_a_byte(value[0]);
        assert(lowered.len() != "none"@.len());
    }
    assert forall|escape: u8| escape < 128 implies #[trigger] escape_of(seq![escape as char])
        == Some(Some(escape)) by {
        let setting = seq![escape as char];
        assert(setting.map_values(|c: char| codec::ascii_lower(c)).len() == 1);
        assert("none"@.len() == 4);
    }
    assert("none"@.map_values(|c: char| codec::ascii_lower(c)) =~= "none"@);
    assert("NONE"@.map_values(|c: char| codec::ascii_lower(c)) =~= "none"@);
    if lowered == "none"@ {
        assert(lowered.len() == 4);
    }
}

} // verus!
