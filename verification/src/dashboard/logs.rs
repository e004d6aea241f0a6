//! The log that the dashboard shows: the last hundred lines, oldest first.

use std::collections::VecDeque;
use vstd::prelude::*;
use vstd::utf8::{decode_utf8, valid_utf8};

verus! {

/// How many lines the log keeps at most.
pub const MAX_LOG_MESSAGES: usize = 100;

/// The level that a writer made by a `LogWriterFactory` logs at.
pub open spec fn default_level() -> Seq<char> {
    "INFO"@
}

/// A line of the log.
#[derive(Debug)]
pub struct LogMessage {
    pub level: String,
    pub message: String,
}

/// What a `LogMessage` stands for.
pub struct LogLine {
    pub level: Seq<char>,
    pub message: Seq<char>,
}

impl View for LogMessage {
    type V = LogLine;

    open spec fn view(&self) -> LogLine {
        LogLine { level: self.level@, message: self.message@ }
    }
}

impl DeepView for LogMessage {
    type V = LogLine;

    open spec fn deep_view(&self) -> LogLine {
        self@
    }
}

impl Clone for LogMessage {
    fn clone(&self) -> (r: Self)
        ensures
            r@ == self@,
    {
        LogMessage { level: self.level.clone(), message: self.message.clone() }
    }
}

/// The lines held after `line` has joined `lines`: where the log is full
/// the oldest line leaves first.
pub open spec fn pushed(lines: Seq<LogLine>, line: LogLine) -> Seq<LogLine> {
    if lines.len() >= MAX_LOG_MESSAGES {
        lines.drop_first().push(line)
    } else {
        lines.push(line)
    }
}

/// Whether `c` is white space, as Unicode's property `White_Space` has
/// it.
pub open spec fn is_space(c: char) -> bool {
    let u = c as u32;
    (0x09 <= u <= 0x0d) || u == 0x20 || u == 0x85 || u == 0xa0 || u == 0x1680 || (0x2000 <= u
        <= 0x200a) || u == 0x2028 || u == 0x2029 || u == 0x202f || u == 0x205f || u == 0x3000
}

/// `s` without the white space it starts with.
pub open spec fn trim_start_of(s: Seq<char>) -> Seq<char>
    decreases s.len(),
{
    if s.len() > 0 && is_space(s.first()) {
        trim_start_of(s.drop_first())
    } else {
        s
    }
}

/// `s` without the white space it ends with.
pub open spec fn trim_end_of(s: Seq<char>) -> Seq<char>
    decreases s.len(),
{
    if s.len() > 0 && is_space(s.last()) {
        trim_end_of(s.drop_last())
    } else {
        s
    }
}

/// `s` without the white space at either end.
pub open spec fn trimmed(s: Seq<char>) -> Seq<char> {
    trim_end_of(trim_start_of(s))
}

/// The lines held after the bytes `written` were logged at `level`: the
/// text of the bytes, trimmed, joins the log, unless the bytes are no
/// UTF-8 or nothing but white space.
pub open spec fn logged(lines: Seq<LogLine>, level: Seq<char>, written: Seq<u8>) -> Seq<LogLine> {
    if valid_utf8(written) && trimmed(decode_utf8(written)).len() > 0 {
        pushed(lines, LogLine { level, message: trimmed(decode_utf8(written)) })
    } else {
        lines
    }
}

/// `std::str::from_utf8`: the text that the bytes encode, where they are
/// valid UTF-8, and `None` where they are not.
#[verifier::external_body]
fn utf8_text(bytes: &[u8]) -> (r: Option<&str>)
    ensures
        match r {
            Some(text) => valid_utf8(bytes@) && text@ == decode_utf8(bytes@),
            None => !valid_utf8(bytes@),
        },
{
    std::str::from_utf8(bytes).ok()
}

/// Whether `c` is white space.
pub fn is_whitespace(c: char) -> (r: bool)
    ensures
        r == is_space(c),
{
    let u: u32 = c as u32;
    (0x09 <= u && u <= 0x0d) || u == 0x20 || u == 0x85 || u == 0xa0 || u == 0x1680 || (0x2000 <= u
        && u <= 0x200a) || u == 0x2028 || u == 0x2029 || u == 0x202f || u == 0x205f || u == 0x3000
}

/// `s` without the white space at either end.
pub fn trim(s: &str) -> (r: &str)
    ensures
        r@ == trimmed(s@),
{
    let len = s.unicode_len();
    let mut start: usize = 0;
    assert(s@.subrange(0, len as int) =~= s@);
    while start < len && is_whitespace(s.get_char(start))
        invariant
            start <= len,
            len == s@.len(),
            trim_start_of(s@) == trim_start_of(s@.subrange(start as int, len as int)),
        decreases len - start,
    {
        assert(s@.subrange(start as int, len as int).drop_first() =~= s@.subrange(
            start + 1,
            len as int,
        ));
        start += 1;
    }
    let ghost body = s@.subrange(start as int, len as int);
    assert(trim_start_of(s@) == body);
    let mut end: usize = len;
    while end > start && is_whitespace(s.get_char(end - 1))
        invariant
            start <= end <= len,
            len == s@.len(),
            body == s@.subrange(start as int, len as int),
            trim_end_of(body) == trim_end_of(s@.subrange(start as int, end as int)),
        decreases end - start,
    {
        assert(s@.subrange(start as int, end as int).drop_last() =~= s@.subrange(
            start as int,
            end - 1,
        ));
        end -= 1;
    }
    s.substring_char(start, end)
}

/// The lines of the log, oldest first; a hundred at most.
#[derive(Debug)]
pub struct LogBuffer {
    messages: VecDeque<LogMessage>,
}

impl View for LogBuffer {
    type V = Seq<LogLine>;

    closed spec fn view(&self) -> Seq<LogLine> {
        self.messages.deep_view()
    }
}

impl Clone for LogBuffer {
    fn clone(&self) -> (r: Self)
        ensures
            r@ == self@,
    {
        proof {
            use_type_invariant(self);
        }
        let mut messages: VecDeque<LogMessage> = VecDeque::new();
        let mut i: usize = 0;
        assert(messages.deep_view() =~= self.messages.deep_view().take(0));
        while i < self.messages.len()
            invariant
                i <= self.messages.len(),
                self.messages.len() <= MAX_LOG_MESSAGES,
                messages.deep_view() == self.messages.deep_view().take(i as int),
            decreases self.messages.len() - i,
        {
            let ghost held = messages.deep_view();
            let line = self.messages[i].clone();
            messages.push_back(line);
            assert(messages.deep_view() =~= held.push(line@));
            assert(messages.deep_view() =~= self.messages.deep_view().take(i + 1));
            i += 1;
        }
        assert(self.messages.deep_view().take(i as int) =~= self.messages.deep_view());
        LogBuffer { messages }
    }
}

impl Default for LogBuffer {
    fn default() -> (r: Self)
        ensures
            r@ == Seq::<LogLine>::empty(),
    {
        LogBuffer::new()
    }
}

impl LogBuffer {
    #[verifier::type_invariant]
    pub closed spec fn bounded(self) -> bool {
        self.messages.len() <= MAX_LOG_MESSAGES
    }

    /// An empty log.
    pub fn new() -> (r: Self)
        ensures
            r@ == Seq::<LogLine>::empty(),
    {
        let messages: VecDeque<LogMessage> = VecDeque::with_capacity(MAX_LOG_MESSAGES);
        assert(messages.deep_view() =~= Seq::empty());
        LogBuffer { messages }
    }

    /// How many lines are held: never more than `MAX_LOG_MESSAGES`.
    pub fn len(&self) -> (r: usize)
        ensures
            r == self@.len(),
            r <= MAX_LOG_MESSAGES,
    {
        proof {
            use_type_invariant(self);
        }
        self.messages.len()
    }

    /// Adds a line. Where the log is full, the oldest line leaves.
    pub fn push(&mut self, level: &str, message: String)
        ensures
            final(self)@ == pushed(old(self)@, LogLine { level: level@, message: message@ }),
            final(self)@.len() <= MAX_LOG_MESSAGES,
    {
        proof {
            use_type_invariant(&*self);
        }
        let mut taken = LogBuffer::new();
        std::mem::swap(self, &mut taken);
        let LogBuffer { messages } = taken;
        let mut messages = messages;
        let ghost before = messages.deep_view();
        let line = LogMessage { level: String::from_str(level), message };
        if messages.len() >= MAX_LOG_MESSAGES {
            messages.pop_front();
            assert(messages.deep_view() =~= before.drop_first());
        }
        let ghost kept = messages.deep_view();
        messages.push_back(line);
        assert(messages.deep_view() =~= kept.push(line@));
        *self = LogBuffer { messages };
    }

    /// A copy of the lines held, oldest first.
    pub fn get_messages(&self) -> (r: Vec<LogMessage>)
        ensures
            r.deep_view() == self@,
    {
        let mut lines: Vec<LogMessage> = Vec::new();
        let mut i: usize = 0;
        assert(lines.deep_view() =~= self.messages.deep_view().take(0));
        while i < self.messages.len()
            invariant
                i <= self.messages.len(),
                lines.deep_view() == self.messages.deep_view().take(i as int),
            decreases self.messages.len() - i,
        {
            let ghost held = lines.deep_view();
            let line = self.messages[i].clone();
            lines.push(line);
            assert(lines.deep_view() =~= held.push(line@));
            assert(lines.deep_view() =~= self.messages.deep_view().take(i + 1));
            i += 1;
        }
        assert(self.messages.deep_view().take(i as int) =~= self.messages.deep_view());
        lines
    }

    /// Drops every line.
    pub fn clear(&mut self)
        ensures
            final(self)@ == Seq::<LogLine>::empty(),
    {
        *self = LogBuffer::new();
    }
}

/// What a `LogWriter` stands for.
pub struct WriterView {
    pub lines: Seq<LogLine>,
    pub level: Seq<char>,
}

/// Takes what is written to it into a log, line by line, at one level.
#[derive(Debug)]
pub struct LogWriter {
    buffer: LogBuffer,
    level: String,
}

impl View for LogWriter {
    type V = WriterView;

    closed spec fn view(&self) -> WriterView {
        WriterView { lines: self.buffer@, level: self.level@ }
    }
}

impl LogWriter {
    /// A writer into `buffer` at `level`.
    pub fn new(buffer: LogBuffer, level: &str) -> (r: Self)
        ensures
            r@ == (WriterView { lines: buffer@, level: level@ }),
    {
        LogWriter { buffer, level: String::from_str(level) }
    }

    /// The log written into.
    pub fn buffer(&self) -> (r: &LogBuffer)
        ensures
            r@ == self@.lines,
    {
        &self.buffer
    }

    /// Gives the log back.
    pub fn into_buffer(self) -> (r: LogBuffer)
        ensures
            r@ == self@.lines,
    {
        self.buffer
    }

    /// Logs the bytes as one line and reports all of them as written. Bytes
    /// that are no UTF-8 or nothing but white space leave no line.
    pub fn write(&mut self, buf: &[u8]) -> (written: usize)
        ensures
            written == buf@.len(),
            final(self)@ == (WriterView {
                lines: logged(old(self)@.lines, old(self)@.level, buf@),
                level: old(self)@.level,
            }),
    {
        match utf8_text(buf) {
            Some(text) => {
                let line = trim(text);
                if line.unicode_len() > 0 {
                    self.buffer.push(self.level.as_str(), String::from_str(line));
                }
            },
            None => {},
        }
        buf.len()
    }

    /// Does nothing: every line is in the log as soon as it is written.
    pub fn flush(&mut self)
        ensures
            final(self)@ == old(self)@,
    {
    }
}

/// Makes the writer that the log lines of a run go through.
#[derive(Debug)]
pub struct LogWriterFactory {
    buffer: LogBuffer,
}

impl LogWriterFactory {
    /// The log that the writer will write into.
    pub closed spec fn lines(&self) -> Seq<LogLine> {
        self.buffer@
    }

    /// A factory of writers into `buffer`.
    pub fn new(buffer: LogBuffer) -> (r: Self)
        ensures
            r.lines() == buffer@,
    {
        LogWriterFactory { buffer }
    }

    /// The writer, which logs at the level `INFO`.
    pub fn make_writer(self) -> (r: LogWriter)
        ensures
            r@ == (WriterView { lines: self.lines(), level: default_level() }),
    {
        LogWriter::new(self.buffer, "INFO")
    }
}

} // verus!
