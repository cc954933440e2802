//! Line input and output: the traits a session reads and writes through,
//! the framing rules for lines, and in-memory implementations.

use vstd::prelude::*;
use vstd::string::*;
use crate::errors::IpcError;
use crate::text::{is_blank, str_is_blank};

verus! {

/// A source of request lines.
pub trait InputReader {
    /// The next line, without its line ending.
    fn read_line(&mut self) -> (r: Result<String, IpcError>);
}

/// A sink of response lines.
pub trait OutputWriter {
    /// Writes one line and flushes it. An implementation refuses a blank
    /// line as a protocol violation.
    fn write_line(&mut self, line: &str) -> (r: Result<(), IpcError>);

    /// Hands buffered output on.
    fn flush(&mut self) -> (r: Result<(), IpcError>);
}

/// What came back from reading one raw line of a byte stream.
#[derive(Debug)]
pub enum RawLine {
    /// The stream has ended.
    Eof,
    /// A line, still with its line ending if it had one.
    Line(String),
    /// Reading failed, with the text of the failure.
    Failed(String),
}

/// `line` without one trailing `\n`, and without one `\r` before it.
pub open spec fn without_ending(line: Seq<char>) -> Seq<char> {
    if line.len() > 0 && line.last() == '\n' {
        let cut = line.drop_last();
        if cut.len() > 0 && cut.last() == '\r' {
            cut.drop_last()
        } else {
            cut
        }
    } else {
        line
    }
}

fn strip_ending(line: &str) -> (r: String)
    ensures
        r@ == without_ending(line@),
{
    broadcast use vstd::string::group_string_axioms;

    let mut held: Vec<char> = Vec::new();
    for c in it: line.chars()
        invariant
            it.seq() == line@,
            held@ == line@.take(it.index()),
    {
        held.push(c);
        proof {
            assert(line@.take(it.index() + 1) == line@.take(it.index()).push(c));
        }
    }
    proof {
        assert(line@.take(line@.len() as int) == line@);
    }
    if held.len() > 0 && held[held.len() - 1] == '\n' {
        held.pop();
        if held.len() > 0 && held[held.len() - 1] == '\r' {
            held.pop();
        }
    }
    let mut r = String::new();
    let mut i: usize = 0;
    while i < held.len()
        invariant
            i <= held.len(),
            r@ == held@.take(i as int),
        decreases held.len() - i,
    {
        r.push(held[i]);
        proof {
            assert(held@.take(i + 1) == held@.take(i as int).push(held@[i as int]));
        }
        i += 1;
    }
    proof {
        assert(held@.take(held@.len() as int) == held@);
    }
    r
}

/// The framing of input lines read from a byte stream, and their count.
pub struct Reader {
    pub line_count: usize,
}

impl Reader {
    pub fn new() -> (r: Self)
        ensures
            r.line_count == 0,
    {
        Reader { line_count: 0 }
    }

    /// The number of lines read so far.
    pub fn lines_read(&self) -> (n: usize)
        ensures
            n == self.line_count,
    {
        self.line_count
    }

    /// Turns what was read from the stream into a request line: the end of
    /// the stream and a failure are errors; a line counts, loses its line
    /// ending, and is refused where nothing but whitespace is left.
    pub fn frame(&mut self, raw: RawLine) -> (r: Result<String, IpcError>)
        ensures
            match raw {
                RawLine::Eof => r matches Err(IpcError::ProcessCommunication { message }) && message@
                    == "EOF reached"@ && final(self).line_count == old(self).line_count,
                RawLine::Failed(text) => r matches Err(IpcError::Io(t)) && t@ == text@ && final(self).line_count == old(self).line_count,
                RawLine::Line(line) => final(self).line_count == (if old(self).line_count
                    == usize::MAX {
                    usize::MAX
                } else {
                    (old(self).line_count + 1) as usize
                }) && (if is_blank(without_ending(line@)) {
                    r matches Err(IpcError::Protocol { message }) && message@
                        == "empty line received"@
                } else {
                    r matches Ok(framed) && framed@ == without_ending(line@)
                }),
            },
    {
        match raw {
            RawLine::Eof => Err(IpcError::process_communication("EOF reached")),
            RawLine::Failed(text) => Err(IpcError::Io(text)),
            RawLine::Line(line) => {
                if self.line_count < usize::MAX {
                    self.line_count = self.line_count + 1;
                }
                let framed = strip_ending(line.as_str());
                if str_is_blank(framed.as_str()) {
                    return Err(IpcError::protocol("empty line received"));
                }
                Ok(framed)
            },
        }
    }
}

/// The framing of output lines written to a byte stream, and their count.
pub struct Writer {
    pub lines_written: usize,
}

impl Writer {
    pub fn new() -> (w: Self)
        ensures
            w.lines_written == 0,
    {
        Writer { lines_written: 0 }
    }

    /// The number of lines written so far.
    pub fn lines_written(&self) -> (n: usize)
        ensures
            n == self.lines_written,
    {
        self.lines_written
    }

    /// Decides whether a line may be written: a blank line may not.
    pub fn check_line(&self, line: &str) -> (r: Result<(), IpcError>)
        ensures
            match r {
                Ok(_) => !is_blank(line@),
                Err(e) => e matches IpcError::Protocol { message } && message@
                    == "cannot write empty line"@ && is_blank(line@),
            },
    {
        if str_is_blank(line) {
            return Err(IpcError::protocol("cannot write empty line"));
        }
        Ok(())
    }

    /// Takes note of the outcome of writing and flushing one line: a
    /// success counts, a failure becomes an I/O error.
    pub fn record(&mut self, outcome: Result<(), String>) -> (r: Result<(), IpcError>)
        ensures
            match outcome {
                Ok(_) => r is Ok && final(self).lines_written == (if old(self).lines_written
                    == usize::MAX {
                    usize::MAX
                } else {
                    (old(self).lines_written + 1) as usize
                }),
                Err(text) => r matches Err(IpcError::Io(t)) && t@ == text@ && final(self).lines_written == old(self).lines_written,
            },
    {
        match outcome {
            Ok(_) => {
                if self.lines_written < usize::MAX {
                    self.lines_written = self.lines_written + 1;
                }
                Ok(())
            },
            Err(text) => Err(IpcError::Io(text)),
        }
    }
}

/// A reader over lines held in memory. It hands them out as they are.
pub struct MockReader {
    pub lines: Vec<String>,
    pub position: usize,
}

impl MockReader {
    pub fn new(lines: Vec<String>) -> (r: Self)
        ensures
            r.lines == lines,
            r.position == 0,
    {
        MockReader { lines, position: 0 }
    }
}

impl InputReader for MockReader {
    /// The next held line; the end of the lines is an error.
    fn read_line(&mut self) -> (r: Result<String, IpcError>)
        ensures
            final(self).lines == old(self).lines,
            if old(self).position < old(self).lines@.len() {
                r matches Ok(line) && line@ == old(self).lines@[old(self).position as int]@
                    && final(self).position == old(self).position + 1
            } else {
                r matches Err(IpcError::ProcessCommunication { message }) && message@
                    == "EOF reached"@ && final(self).position == old(self).position
            },
    {
        if self.position >= self.lines.len() {
            return Err(IpcError::process_communication("EOF reached"));
        }
        let line = self.lines[self.position].clone();
        self.position = self.position + 1;
        Ok(line)
    }
}

/// A writer that keeps its lines in memory.
pub struct MockWriter {
    pub lines: Vec<String>,
}

/// The texts of a list of lines.
pub open spec fn line_texts(lines: Seq<String>) -> Seq<Seq<char>> {
    Seq::new(lines.len(), |i: int| lines[i]@)
}

impl MockWriter {
    pub fn new() -> (w: Self)
        ensures
            w.lines@.len() == 0,
    {
        MockWriter { lines: Vec::new() }
    }

    /// The lines written so far, oldest first.
    pub fn lines(&self) -> (lines: &Vec<String>)
        ensures
            *lines == self.lines,
    {
        &self.lines
    }

    /// Forgets the lines written so far.
    pub fn clear(&mut self)
        ensures
            final(self).lines@.len() == 0,
    {
        self.lines.clear();
    }
}

impl MockWriter {
    /// The texts of the lines written so far, oldest first.
    pub open spec fn written(&self) -> Seq<Seq<char>> {
        line_texts(self.lines@)
    }
}

impl OutputWriter for MockWriter {
    /// Keeps the line, unless it is blank.
    fn write_line(&mut self, line: &str) -> (r: Result<(), IpcError>)
        ensures
            if is_blank(line@) {
                r is Err && r->Err_0 is Protocol && final(self).written() == old(self).written()
            } else {
                r is Ok && final(self).written() == old(self).written().push(line@)
            },
    {
        if str_is_blank(line) {
            return Err(IpcError::protocol("cannot write empty line"));
        }
        self.lines.push(line.to_owned());
        assert(line_texts(self.lines@) =~= line_texts(old(self).lines@).push(line@));
        Ok(())
    }

    fn flush(&mut self) -> (r: Result<(), IpcError>)
        ensures
            r is Ok,
            final(self).lines == old(self).lines,
    {
        Ok(())
    }
}

} // verus!
