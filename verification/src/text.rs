//! The text wire form: one message to a line.
//!
//! A line that opens with `{` is a JSON object and is left to a JSON
//! decoder. A line of three comma-separated fields is a reading:
//! `<I|M>,<raw value>,<time in ms>`. A line that opens with `READY`
//! announces the firmware.

use vstd::prelude::*;
use crate::digits::{number_of, parse_number};
use crate::finger::Finger;

verus! {

/// A reading in the text form: the raw value of the converter (0 to 1023
/// on the device) and the device's clock.
#[derive(Debug, Clone, Copy, PartialEq, Eq, Structural)]
pub struct SensorReading {
    pub finger: Finger,
    pub raw: u16,
    pub timestamp_ms: u64,
}

/// A message from the device.
#[derive(Debug, Clone, PartialEq, Eq)]
pub enum ArduinoMessage {
    Sensor(SensorReading),
    Ready { firmware_version: String },
    Error { message: String },
}

/// What a line is: a JSON object, still to be decoded, or a message.
#[derive(Debug, Clone, PartialEq, Eq)]
pub enum TextLine {
    Json,
    Message(ArduinoMessage),
}

/// Why a line is no message.
#[derive(Debug, Clone, PartialEq, Eq)]
pub enum ParseError {
    UnknownFinger,
    InvalidPressure,
    InvalidTimestamp,
    UnknownFormat(String),
}

impl ParseError {
    /// What is wrong with the line, as a text.
    pub open spec fn message_text(self) -> Seq<char> {
        match self {
            ParseError::UnknownFinger => "Unknown finger"@,
            ParseError::InvalidPressure => "Invalid pressure value"@,
            ParseError::InvalidTimestamp => "Invalid timestamp"@,
            ParseError::UnknownFormat(line) => "Unknown format: "@ + line@,
        }
    }

    /// What is wrong with the line, as a text.
    pub fn message(&self) -> (r: String)
        ensures
            r@ == self.message_text(),
    {
        match self {
            ParseError::UnknownFinger => String::from_str("Unknown finger"),
            ParseError::InvalidPressure => String::from_str("Invalid pressure value"),
            ParseError::InvalidTimestamp => String::from_str("Invalid timestamp"),
            ParseError::UnknownFormat(line) => String::from_str("Unknown format: ").concat(
                line.as_str(),
            ),
        }
    }
}

/// A message, with its texts as sequences of characters.
pub enum MessageView {
    Sensor(SensorReading),
    Ready(Seq<char>),
    Error(Seq<char>),
}

/// A line, with its texts as sequences of characters.
pub enum LineView {
    Json,
    Message(MessageView),
}

/// A parse error, with its text as a sequence of characters.
pub enum ErrorView {
    UnknownFinger,
    InvalidPressure,
    InvalidTimestamp,
    UnknownFormat(Seq<char>),
}

impl View for ArduinoMessage {
    type V = MessageView;

    open spec fn view(&self) -> MessageView {
        match self {
            ArduinoMessage::Sensor(r) => MessageView::Sensor(*r),
            ArduinoMessage::Ready { firmware_version } => MessageView::Ready(firmware_version@),
            ArduinoMessage::Error { message } => MessageView::Error(message@),
        }
    }
}

impl View for TextLine {
    type V = LineView;

    open spec fn view(&self) -> LineView {
        match self {
            TextLine::Json => LineView::Json,
            TextLine::Message(m) => LineView::Message(m@),
        }
    }
}

impl View for ParseError {
    type V = ErrorView;

    open spec fn view(&self) -> ErrorView {
        match self {
            ParseError::UnknownFinger => ErrorView::UnknownFinger,
            ParseError::InvalidPressure => ErrorView::InvalidPressure,
            ParseError::InvalidTimestamp => ErrorView::InvalidTimestamp,
            ParseError::UnknownFormat(line) => ErrorView::UnknownFormat(line@),
        }
    }
}

/// The place of the first comma of a text, or its length if it has none.
pub open spec fn first_comma(s: Seq<char>) -> int
    decreases s.len(),
{
    if s.len() == 0 {
        0
    } else if s[0] == ',' {
        0
    } else {
        1 + first_comma(s.skip(1))
    }
}

/// The three fields of a text with exactly two commas.
pub open spec fn three_fields(s: Seq<char>) -> Option<(Seq<char>, Seq<char>, Seq<char>)> {
    let a = first_comma(s);
    if a >= s.len() {
        None
    } else {
        let rest = s.skip(a + 1);
        let b = first_comma(rest);
        if b >= rest.len() {
            None
        } else {
            let tail = rest.skip(b + 1);
            if first_comma(tail) < tail.len() {
                None
            } else {
                Some((s.take(a), rest.take(b), tail))
            }
        }
    }
}

/// Whether a text opens with another.
pub open spec fn starts_with(s: Seq<char>, prefix: Seq<char>) -> bool {
    s.len() >= prefix.len() && s.take(prefix.len() as int) == prefix
}

/// The word that opens a readiness line.
pub open spec fn ready_word() -> Seq<char> {
    seq!['R', 'E', 'A', 'D', 'Y']
}

/// The channel that the first field names.
pub open spec fn channel_of_letter(field: Seq<char>) -> Option<Finger> {
    if field == seq!['I'] {
        Some(Finger::Index)
    } else if field == seq!['M'] {
        Some(Finger::Middle)
    } else {
        None
    }
}

/// The reading that three fields spell. The channel is looked at first,
/// then the raw value, then the time.
pub open spec fn reading_of(fields: (Seq<char>, Seq<char>, Seq<char>)) -> Result<
    SensorReading,
    ErrorView,
> {
    match channel_of_letter(fields.0) {
        None => Err(ErrorView::UnknownFinger),
        Some(finger) => match number_of(fields.1, u16::MAX as nat) {
            None => Err(ErrorView::InvalidPressure),
            Some(raw) => match number_of(fields.2, u64::MAX as nat) {
                None => Err(ErrorView::InvalidTimestamp),
                Some(t) => Ok(SensorReading { finger, raw: raw as u16, timestamp_ms: t as u64 }),
            },
        },
    }
}

/// The firmware version that a readiness line names: what follows
/// `READY` and one blank, and `unknown` where no blank follows.
pub open spec fn firmware_of(s: Seq<char>) -> Seq<char> {
    if starts_with(s, ready_word().push(' ')) {
        s.skip(6)
    } else {
        "unknown"@
    }
}

/// What a line is.
pub open spec fn parse_line(s: Seq<char>) -> Result<LineView, ErrorView> {
    if s.len() > 0 && s[0] == '{' {
        Ok(LineView::Json)
    } else {
        match three_fields(s) {
            Some(fields) => match reading_of(fields) {
                Ok(r) => Ok(LineView::Message(MessageView::Sensor(r))),
                Err(e) => Err(e),
            },
            None => if starts_with(s, ready_word()) {
                Ok(LineView::Message(MessageView::Ready(firmware_of(s))))
            } else {
                Err(ErrorView::UnknownFormat(s))
            },
        }
    }
}

/// The first comma is where a comma stands with none before it.
pub proof fn lemma_first_comma(s: Seq<char>, at: int)
    requires
        0 <= at <= s.len(),
        forall|k: int| 0 <= k < at ==> s[k] != ',',
        at == s.len() || s[at] == ',',
    ensures
        first_comma(s) == at,
    decreases at,
{
    if at > 0 {
        let rest = s.skip(1);
        assert forall|k: int| 0 <= k < at - 1 implies rest[k] != ',' by {
            assert(rest[k] == s[k + 1]);
        }
        lemma_first_comma(rest, at - 1);
    }
}

/// The characters of a text.
pub fn chars_of(s: &str) -> (v: Vec<char>)
    ensures
        v@ == s@,
{
    let mut v: Vec<char> = Vec::new();
    for c in it: s.chars()
        invariant
            v@ == it.seq().take(it.index() as int),
            it.seq() == s@,
    {
        v.push(c);
    }
    v
}

fn find_comma(text: &Vec<char>, from: usize) -> (r: usize)
    requires
        from <= text@.len(),
    ensures
        from <= r <= text@.len(),
        r - from == first_comma(text@.skip(from as int)),
{
    let mut i: usize = from;
    while i < text.len() && text[i] != ','
        invariant
            from <= i <= text@.len(),
            forall|k: int| from <= k < i ==> text@[k] != ',',
        decreases text@.len() - i,
    {
        i = i + 1;
    }
    proof {
        let s = text@.skip(from as int);
        assert forall|k: int| 0 <= k < i - from implies s[k] != ',' by {
            assert(s[k] == text@[from + k]);
        }
        lemma_first_comma(s, i - from);
    }
    i
}

fn opens_with_ready(text: &Vec<char>) -> (r: bool)
    ensures
        r == starts_with(text@, ready_word()),
{
    let r = text.len() >= 5 && text[0] == 'R' && text[1] == 'E' && text[2] == 'A' && text[3] == 'D'
        && text[4] == 'Y';
    proof {
        if r {
            assert(text@.take(5) =~= ready_word());
        } else if text@.len() >= 5 {
            let t = text@.take(5);
            assert(t[0] == text@[0] && t[1] == text@[1] && t[2] == text@[2] && t[3] == text@[3]
                && t[4] == text@[4]);
            assert(ready_word()[0] == 'R' && ready_word()[1] == 'E' && ready_word()[2] == 'A'
                && ready_word()[3] == 'D' && ready_word()[4] == 'Y');
        }
    }
    r
}

/// Reads one line of the text form.
pub fn parse_arduino_message(line: &str) -> (r: Result<TextLine, ParseError>)
    ensures
        match r {
            Ok(l) => parse_line(line@) == Ok::<LineView, ErrorView>(l@),
            Err(e) => parse_line(line@) == Err::<LineView, ErrorView>(e@),
        },
{
    let text = chars_of(line);
    let n = text.len();
    if n > 0 && text[0] == '{' {
        return Ok(TextLine::Json);
    }
    let a = find_comma(&text, 0);
    assert(text@.skip(0) =~= text@);
    if a < n {
        let b = find_comma(&text, a + 1);
        if b < n {
            let c = find_comma(&text, b + 1);
            if c == n {
                let ghost rest = text@.skip(a + 1);
                let ghost tail = rest.skip(b - a);
                proof {
                    assert(tail =~= text@.skip(b + 1));
                    assert(text@.take(a as int) =~= text@.subrange(0, a as int));
                    assert(rest.take(b - (a + 1)) =~= text@.subrange(a + 1, b as int));
                    assert(tail =~= text@.subrange(b + 1, n as int));
                    assert(three_fields(text@) == Some(
                        (
                            text@.subrange(0, a as int),
                            text@.subrange(a + 1, b as int),
                            text@.subrange(b + 1, n as int),
                        ),
                    ));
                }
                let finger = if a == 1 && text[0] == 'I' {
                    Finger::Index
                } else if a == 1 && text[0] == 'M' {
                    Finger::Middle
                } else {
                    proof {
                        let f = text@.subrange(0, a as int);
                        if f == seq!['I'] {
                            assert(f.len() == 1 && f[0] == 'I');
                        }
                        if f == seq!['M'] {
                            assert(f.len() == 1 && f[0] == 'M');
                        }
                    }
                    return Err(ParseError::UnknownFinger);
                };
                proof {
                    let f = text@.subrange(0, a as int);
                    assert(f =~= seq![text@[0]]);
                }
                let raw = match parse_number(&text, a + 1, b, 65535) {
                    Some(v) => v as u16,
                    None => {
                        return Err(ParseError::InvalidPressure);
                    },
                };
                let timestamp_ms = match parse_number(&text, b + 1, n, u64::MAX) {
                    Some(v) => v,
                    None => {
                        return Err(ParseError::InvalidTimestamp);
                    },
                };
                return Ok(
                    TextLine::Message(
                        ArduinoMessage::Sensor(SensorReading { finger, raw, timestamp_ms }),
                    ),
                );
            }
        }
    }
    assert(three_fields(text@) is None) by {
        if a < n {
            let rest = text@.skip(a + 1);
            let b = a + 1 + first_comma(rest);
            if b < n {
                assert(rest.skip(b - a) =~= text@.skip(b + 1));
            }
        }
    }
    if opens_with_ready(&text) {
        let version = if n >= 6 && text[5] == ' ' {
            proof {
                assert(text@.take(6) =~= ready_word().push(' '));
                assert(text@.skip(6) =~= line@.subrange(6, n as int));
            }
            String::from_str(line.substring_char(6, n))
        } else {
            proof {
                if text@.len() >= 6 {
                    assert(text@.take(6)[5] == text@[5]);
                    assert(ready_word().push(' ')[5] == ' ');
                }
            }
            String::from_str("unknown")
        };
        return Ok(TextLine::Message(ArduinoMessage::Ready { firmware_version: version }));
    }
    Err(ParseError::UnknownFormat(String::from_str(line)))
}

/// Whether a character is white space.
pub open spec fn is_space(c: char) -> bool {
    let u = c as u32;
    (9 <= u <= 13) || u == 0x20 || u == 0x85 || u == 0xA0 || u == 0x1680 || (0x2000 <= u <= 0x200A)
        || u == 0x2028 || u == 0x2029 || u == 0x202F || u == 0x205F || u == 0x3000
}

/// The number of white-space characters that open a text.
pub open spec fn leading_spaces(s: Seq<char>) -> int
    decreases s.len(),
{
    if s.len() == 0 || !is_space(s[0]) {
        0
    } else {
        1 + leading_spaces(s.skip(1))
    }
}

/// The number of white-space characters that close a text.
pub open spec fn trailing_spaces(s: Seq<char>) -> int
    decreases s.len(),
{
    if s.len() == 0 || !is_space(s.last()) {
        0
    } else {
        1 + trailing_spaces(s.drop_last())
    }
}

/// A text without the white space that opens and closes it.
pub open spec fn trimmed(s: Seq<char>) -> Seq<char> {
    let from = leading_spaces(s);
    let to = s.len() - trailing_spaces(s);
    if from >= to {
        Seq::empty()
    } else {
        s.subrange(from, to)
    }
}

/// What reading a line from the port came to.
#[derive(Debug, Clone, PartialEq, Eq)]
pub enum LineRead {
    /// The port is at its end.
    Eof,
    /// A line was read.
    Line(String),
    /// Nothing came in time.
    TimedOut,
    /// Reading failed.
    Failed,
}

/// What the reader is to do next.
#[derive(Debug, Clone, PartialEq, Eq)]
pub enum ReaderAction {
    /// Leave the read loop.
    Stop,
    /// Read the next line.
    Skip,
    /// Hand this message on, then read the next line.
    Deliver(ArduinoMessage),
    /// Decode this text as JSON and hand the message on, then read the
    /// next line.
    DecodeJson(String),
    /// Report that the line was no message, then read the next line.
    Warn(ParseError),
}

/// A reader's action, with its texts as sequences of characters.
pub enum ActionView {
    Stop,
    Skip,
    Deliver(MessageView),
    DecodeJson(Seq<char>),
    Warn(ErrorView),
}

impl View for ReaderAction {
    type V = ActionView;

    open spec fn view(&self) -> ActionView {
        match self {
            ReaderAction::Stop => ActionView::Stop,
            ReaderAction::Skip => ActionView::Skip,
            ReaderAction::Deliver(m) => ActionView::Deliver(m@),
            ReaderAction::DecodeJson(t) => ActionView::DecodeJson(t@),
            ReaderAction::Warn(e) => ActionView::Warn(e@),
        }
    }
}

/// The answer to a line: blank lines are passed over, and a line that is
/// no message is reported and does not end the loop.
pub open spec fn line_answer(line: Seq<char>) -> ActionView {
    let text = trimmed(line);
    if text.len() == 0 {
        ActionView::Skip
    } else {
        match parse_line(text) {
            Ok(LineView::Json) => ActionView::DecodeJson(text),
            Ok(LineView::Message(m)) => ActionView::Deliver(m),
            Err(e) => ActionView::Warn(e),
        }
    }
}

/// The white space that opens a text ends at the first character that is
/// none.
pub proof fn lemma_leading_spaces(s: Seq<char>, at: int)
    requires
        0 <= at <= s.len(),
        forall|k: int| 0 <= k < at ==> is_space(s[k]),
        at == s.len() || !is_space(s[at]),
    ensures
        leading_spaces(s) == at,
    decreases at,
{
    if at > 0 {
        let rest = s.skip(1);
        assert forall|k: int| 0 <= k < at - 1 implies is_space(rest[k]) by {
            assert(rest[k] == s[k + 1]);
        }
        lemma_leading_spaces(rest, at - 1);
    }
}

/// The white space that closes a text begins after the last character
/// that is none.
pub proof fn lemma_trailing_spaces(s: Seq<char>, count: int)
    requires
        0 <= count <= s.len(),
        forall|k: int| s.len() - count <= k < s.len() ==> is_space(s[k]),
        count == s.len() || !is_space(s[s.len() - count - 1]),
    ensures
        trailing_spaces(s) == count,
    decreases count,
{
    if count > 0 {
        let rest = s.drop_last();
        assert forall|k: int| rest.len() - (count - 1) <= k < rest.len() implies is_space(
            rest[k],
        ) by {
            assert(rest[k] == s[k]);
        }
        lemma_trailing_spaces(rest, count - 1);
    }
}

fn space(c: char) -> (r: bool)
    ensures
        r == is_space(c),
{
    let u: u32 = c as u32;
    (9 <= u && u <= 13) || u == 0x20 || u == 0x85 || u == 0xA0 || u == 0x1680 || (0x2000 <= u && u
        <= 0x200A) || u == 0x2028 || u == 0x2029 || u == 0x202F || u == 0x205F || u == 0x3000
}

/// Takes the white space off both ends of a line.
pub fn trim_line(line: &str) -> (r: &str)
    ensures
        r@ == trimmed(line@),
{
    let text = chars_of(line);
    let n = text.len();
    let mut from: usize = 0;
    while from < n && space(text[from])
        invariant
            from <= n == text@.len(),
            forall|k: int| 0 <= k < from ==> is_space(text@[k]),
        decreases n - from,
    {
        from = from + 1;
    }
    let mut to: usize = n;
    while to > 0 && space(text[to - 1])
        invariant
            to <= n == text@.len(),
            forall|k: int| to <= k < n ==> is_space(text@[k]),
        decreases to,
    {
        to = to - 1;
    }
    proof {
        lemma_leading_spaces(text@, from as int);
        lemma_trailing_spaces(text@, n - to);
    }
    if from >= to {
        let r = line.substring_char(0, 0);
        assert(r@ =~= Seq::<char>::empty());
        r
    } else {
        line.substring_char(from, to)
    }
}

/// Takes what reading a line came to and says what to do next. The end of
/// the port and a failed read end the loop; a timeout does not.
pub fn on_line_read(read: LineRead) -> (action: ReaderAction)
    ensures
        action@ == match read {
            LineRead::Eof => ActionView::Stop,
            LineRead::Failed => ActionView::Stop,
            LineRead::TimedOut => ActionView::Skip,
            LineRead::Line(line) => line_answer(line@),
        },
{
    match read {
        LineRead::Eof => ReaderAction::Stop,
        LineRead::Failed => ReaderAction::Stop,
        LineRead::TimedOut => ReaderAction::Skip,
        LineRead::Line(line) => {
            let text = trim_line(line.as_str());
            if text.unicode_len() == 0 {
                return ReaderAction::Skip;
            }
            match parse_arduino_message(text) {
                Ok(TextLine::Json) => ReaderAction::DecodeJson(String::from_str(text)),
                Ok(TextLine::Message(m)) => ReaderAction::Deliver(m),
                Err(e) => ReaderAction::Warn(e),
            }
        },
    }
}

} // verus!
