//! The session's line handler: reads and checks requests, checks and writes
//! responses, and counts both.
//!
//! The reader and the writer are the caller's. The handler keeps a record
//! of what it asked of them: how often it asked for a line, which lines it
//! handed to the writer, and which of those the writer accepted.

use vstd::prelude::*;
use vstd::string::*;
use crate::errors::{ipc_error_text, IpcError};
use crate::io::{InputReader, OutputWriter};
use crate::json::{json_parse, json_render, one_line, Json, JsonView};
use crate::protocol::{
    invalid_response_text, request_from_json, response_to_json, valid_method, valid_response, ErrorInfo, ErrorInfoView,
    Request, Response, ResponseStatus, ResponseView,
};
use crate::text::opt_text;

verus! {

/// How many requests were read and how many responses were written.
#[derive(Clone, Copy, Debug, PartialEq, Eq, Structural)]
pub struct IpcStats {
    pub requests_processed: usize,
    pub responses_sent: usize,
}

/// Reads requests from a reader and writes responses to a writer.
pub struct IpcHandler<R: InputReader, W: OutputWriter> {
    pub reader: R,
    pub writer: W,
    pub request_count: usize,
    pub response_count: usize,
    /// The lines that the writer accepted, oldest first.
    pub sent: Ghost<Seq<Seq<char>>>,
    /// The lines that were handed to the writer, accepted or not, oldest first.
    pub offered: Ghost<Seq<Seq<char>>>,
    /// How often the reader was asked for a line.
    pub reads: Ghost<nat>,
    /// How often the writer was asked to flush.
    pub flushes: Ghost<nat>,
}

/// `n + 1`, held at the largest value once it is reached.
pub open spec fn count_up(n: usize) -> usize {
    if n == usize::MAX {
        n
    } else {
        (n + 1) as usize
    }
}

/// What a line stands for: a request, or the kind of its fault.
pub enum LineVerdict {
    /// The line is not JSON, or is JSON that stands for no request.
    Malformed,
    /// The line is a request whose method name breaks the rules.
    Invalid,
    /// The line is a valid request.
    Request(crate::protocol::RequestView),
}

/// What a line stands for.
pub open spec fn line_verdict(line: Seq<char>) -> LineVerdict {
    match json_parse(line) {
        None => LineVerdict::Malformed,
        Some(j) => match request_from_json(j) {
            None => LineVerdict::Malformed,
            Some(request) => if valid_method(request.method) {
                LineVerdict::Request(request)
            } else {
                LineVerdict::Invalid
            },
        },
    }
}

/// The code that an error is reported under.
pub open spec fn error_code(e: IpcError) -> i32 {
    match e {
        IpcError::Json(_) => ErrorInfo::PARSE_ERROR,
        IpcError::InvalidRequest { .. } => ErrorInfo::INVALID_REQUEST,
        IpcError::InvalidResponse { .. } => ErrorInfo::INVALID_PARAMS,
        IpcError::Timeout { .. } => ErrorInfo::TIMEOUT_ERROR,
        IpcError::ProcessCommunication { .. } => ErrorInfo::PROCESS_ERROR,
        _ => ErrorInfo::INTERNAL_ERROR,
    }
}

/// The response was not made before: it has the given parts, some
/// timestamp, and no metadata.
pub open spec fn response_of(
    v: ResponseView,
    id: Option<Seq<char>>,
    status: ResponseStatus,
    result: Option<JsonView>,
    error: Option<ErrorInfoView>,
) -> bool {
    v.id == id && v.status == status && v.result == result && v.error == error
        && v.timestamp is Some && v.metadata is None
}

/// The error that refuses a response which breaks the rules, naming the
/// rule that it breaks.
pub open spec fn unfit_error(e: IpcError, v: ResponseView) -> bool {
    e matches IpcError::InvalidResponse { message } && message@ == invalid_response_text(v)
}

impl<R: InputReader, W: OutputWriter> IpcHandler<R, W> {
    /// A handler over the given reader and writer, with both counts at zero.
    pub fn with_io(reader: R, writer: W) -> (h: Self)
        ensures
            h.reader == reader,
            h.writer == writer,
            h.request_count == 0,
            h.response_count == 0,
            h.sent@.len() == 0,
            h.offered@.len() == 0,
            h.reads@ == 0,
            h.flushes@ == 0,
    {
        IpcHandler {
            reader,
            writer,
            request_count: 0,
            response_count: 0,
            sent: Ghost(Seq::empty()),
            offered: Ghost(Seq::empty()),
            reads: Ghost(0),
            flushes: Ghost(0),
        }
    }

    /// The reader and the writer were not called.
    pub open spec fn no_calls(old_self: Self, new_self: Self) -> bool {
        new_self.offered == old_self.offered && new_self.reads == old_self.reads
            && new_self.flushes == old_self.flushes
    }

    /// Nothing was written and no response was counted.
    pub open spec fn wrote_nothing(old_self: Self, new_self: Self) -> bool {
        new_self.sent@ == old_self.sent@ && new_self.response_count
            == old_self.response_count && new_self.request_count == old_self.request_count
    }

    /// Exactly the line of `v` was handed to the writer, accepted and counted.
    pub open spec fn wrote(old_self: Self, new_self: Self, v: ResponseView) -> bool {
        json_render(response_to_json(v)) matches Some(line) && new_self.sent@
            == old_self.sent@.push(line) && new_self.response_count == count_up(
            old_self.response_count,
        ) && new_self.request_count == old_self.request_count && new_self.offered@
            == old_self.offered@.push(line) && new_self.reads == old_self.reads
            && new_self.flushes == old_self.flushes
    }

    /// What writing the valid response `v` came to, with the outcome `w`.
    /// A response that cannot be rendered is not handed to the writer and
    /// fails with a JSON error. Any other is handed to the writer once, as
    /// its one line, which holds no line feed; it is written and counted
    /// where the writer accepts it, and leaves no trace in the counts
    /// where the writer does not.
    pub open spec fn attempted(
        old_self: Self,
        new_self: Self,
        v: ResponseView,
        w: Result<(), IpcError>,
    ) -> bool {
        &&& new_self.reads == old_self.reads
        &&& new_self.flushes == old_self.flushes
        &&& new_self.request_count == old_self.request_count
        &&& match json_render(response_to_json(v)) {
            None => w is Err && w->Err_0 is Json && new_self.offered == old_self.offered
                && new_self.sent == old_self.sent && new_self.response_count
                == old_self.response_count,
            Some(line) => one_line(line) && new_self.offered@ == old_self.offered@.push(line)
                && (match w {
                Ok(_) => new_self.sent@ == old_self.sent@.push(line) && new_self.response_count
                    == count_up(old_self.response_count),
                Err(_) => new_self.sent == old_self.sent && new_self.response_count
                    == old_self.response_count,
            }),
        }
    }

    /// A response with the given parts, some timestamp and no metadata was
    /// made, and writing it came to `w`.
    pub open spec fn tried(
        old_self: Self,
        new_self: Self,
        id: Option<Seq<char>>,
        status: ResponseStatus,
        result: Option<JsonView>,
        error: Option<ErrorInfoView>,
        w: Result<(), IpcError>,
    ) -> bool {
        exists|v: ResponseView|
            #![trigger Self::attempted(old_self, new_self, v, w)]
            response_of(v, id, status, result, error) && Self::attempted(old_self, new_self, v, w)
    }

    /// A response whose writing succeeded was written; one whose writing
    /// failed left the counts and the accepted lines as they were.
    pub proof fn lemma_tried(
        old_self: Self,
        new_self: Self,
        id: Option<Seq<char>>,
        status: ResponseStatus,
        result: Option<JsonView>,
        error: Option<ErrorInfoView>,
        w: Result<(), IpcError>,
    )
        requires
            Self::tried(old_self, new_self, id, status, result, error, w),
        ensures
            w is Ok ==> Self::answered(old_self, new_self, id, status, result, error),
            w is Err ==> Self::wrote_nothing(old_self, new_self),
    {
        let v = choose|v: ResponseView|
            #![trigger Self::attempted(old_self, new_self, v, w)]
            response_of(v, id, status, result, error) && Self::attempted(old_self, new_self, v, w);
        if w is Ok {
            assert(Self::wrote(old_self, new_self, v));
        }
    }

    /// A response with the given parts, some timestamp and no metadata was
    /// written, and counted.
    pub open spec fn answered(
        old_self: Self,
        new_self: Self,
        id: Option<Seq<char>>,
        status: ResponseStatus,
        result: Option<JsonView>,
        error: Option<ErrorInfoView>,
    ) -> bool {
        exists|v: ResponseView|
            #![trigger Self::wrote(old_self, new_self, v)]
            response_of(v, id, status, result, error) && Self::wrote(old_self, new_self, v)
    }

    /// Turns a line into a request: the line must be JSON, must stand for
    /// a request, and the request must be valid. A valid request counts.
    pub fn accept_line(&mut self, line: &str) -> (r: Result<Request, IpcError>)
        ensures
            final(self).reader == old(self).reader,
            final(self).writer == old(self).writer,
            final(self).sent == old(self).sent,
            Self::no_calls(*old(self), *final(self)),
            final(self).response_count == old(self).response_count,
            match line_verdict(line@) {
                LineVerdict::Malformed => r is Err && r->Err_0 is Json && final(self).request_count
                    == old(self).request_count,
                LineVerdict::Invalid => r is Err && r->Err_0 is InvalidRequest && final(self).request_count == old(self).request_count,
                LineVerdict::Request(v) => r is Ok && r->Ok_0@ == v && final(self).request_count
                    == count_up(old(self).request_count),
            },
    {
        let j = match Json::parse(line) {
            Ok(j) => j,
            Err(e) => {
                return Err(e);
            },
        };
        let request = match Request::from_json(&j) {
            Ok(request) => request,
            Err(e) => {
                return Err(e);
            },
        };
        match request.validate() {
            Ok(_) => {},
            Err(e) => {
                return Err(e);
            },
        }
        if self.request_count < usize::MAX {
            self.request_count = self.request_count + 1;
        }
        Ok(request)
    }

    /// Asks the reader for one line. Nothing is known of what comes back.
    pub fn read_line(&mut self) -> (r: Result<String, IpcError>)
        ensures
            final(self).writer == old(self).writer,
            final(self).sent == old(self).sent,
            final(self).offered == old(self).offered,
            final(self).flushes == old(self).flushes,
            final(self).reads@ == old(self).reads@ + 1,
            final(self).request_count == old(self).request_count,
            final(self).response_count == old(self).response_count,
    {
        let r = self.reader.read_line();
        self.reads = Ghost(self.reads@ + 1);
        r
    }

    /// Takes what the reader handed back: a failure is passed on, a line
    /// becomes what `accept_line` makes of it.
    pub fn accept_read(&mut self, read: Result<String, IpcError>) -> (r: Result<Request, IpcError>)
        ensures
            final(self).reader == old(self).reader,
            final(self).writer == old(self).writer,
            final(self).sent == old(self).sent,
            Self::no_calls(*old(self), *final(self)),
            final(self).response_count == old(self).response_count,
            match read {
                Err(e) => r is Err && r->Err_0 == e && final(self).request_count == old(self).request_count,
                Ok(line) => match line_verdict(line@) {
                    LineVerdict::Malformed => r is Err && r->Err_0 is Json && final(self).request_count == old(self).request_count,
                    LineVerdict::Invalid => r is Err && r->Err_0 is InvalidRequest && final(self).request_count == old(self).request_count,
                    LineVerdict::Request(v) => r is Ok && r->Ok_0@ == v && final(self).request_count == count_up(old(self).request_count),
                },
            },
    {
        match read {
            Ok(line) => self.accept_line(line.as_str()),
            Err(e) => Err(e),
        }
    }

    /// Reads one line and turns it into a request. The reader is asked
    /// once; what it hands back decides, as `accept_read` says: a request
    /// comes of a line that stands for a valid one, and is counted.
    pub fn read_request(&mut self) -> (r: Result<Request, IpcError>)
        ensures
            final(self).writer == old(self).writer,
            final(self).sent == old(self).sent,
            final(self).offered == old(self).offered,
            final(self).flushes == old(self).flushes,
            final(self).reads@ == old(self).reads@ + 1,
            final(self).response_count == old(self).response_count,
            match r {
                Ok(request) => final(self).request_count == count_up(old(self).request_count)
                    && exists|line: Seq<char>|
                    #[trigger] line_verdict(line) == LineVerdict::Request(request@),
                Err(_) => final(self).request_count == old(self).request_count,
            },
    {
        let read = self.read_line();
        let r = self.accept_read(read);
        proof {
            if r is Ok {
                assert(line_verdict(read->Ok_0@) == LineVerdict::Request(r->Ok_0@));
            }
        }
        r
    }

    /// Takes what the writer made of `line`: a line that was accepted is
    /// logged and counted; a failure is passed on and changes nothing.
    pub fn settle(&mut self, line: &str, outcome: Result<(), IpcError>) -> (r: Result<(), IpcError>)
        ensures
            final(self).reader == old(self).reader,
            final(self).writer == old(self).writer,
            Self::no_calls(*old(self), *final(self)),
            final(self).request_count == old(self).request_count,
            match outcome {
                Ok(_) => r is Ok && final(self).sent@ == old(self).sent@.push(line@) && final(self).response_count == count_up(old(self).response_count),
                Err(e) => r is Err && r->Err_0 == e && final(self).sent == old(self).sent
                    && final(self).response_count == old(self).response_count,
            },
    {
        match outcome {
            Ok(_) => {
                self.sent = Ghost(self.sent@.push(line@));
                if self.response_count < usize::MAX {
                    self.response_count = self.response_count + 1;
                }
                Ok(())
            },
            Err(e) => Err(e),
        }
    }

    /// Checks a response and writes it as one line. A response that breaks
    /// the rules is not handed to the writer; nor is one that cannot be
    /// rendered. Any other is handed to the writer once, and counts where
    /// the writer accepts it.
    pub fn write_response(&mut self, response: &Response) -> (r: Result<(), IpcError>)
        ensures
            final(self).reader == old(self).reader,
            if valid_response(response@) {
                Self::attempted(*old(self), *final(self), response@, r)
            } else {
                r is Err && unfit_error(r->Err_0, response@) && Self::wrote_nothing(
                    *old(self),
                    *final(self),
                ) && Self::no_calls(*old(self), *final(self)) && final(self).writer == old(self).writer
            },
            match r {
                Ok(_) => valid_response(response@) && Self::wrote(
                    *old(self),
                    *final(self),
                    response@,
                ),
                Err(e) => Self::wrote_nothing(*old(self), *final(self)) && (!valid_response(
                    response@,
                ) ==> e is InvalidResponse) && (valid_response(response@) && json_render(
                    response_to_json(response@),
                ) is None ==> e is Json),
            },
    {
        match response.validate() {
            Ok(_) => {},
            Err(e) => {
                return Err(e);
            },
        }
        let line = match response.to_json().render() {
            Ok(line) => line,
            Err(e) => {
                return Err(e);
            },
        };
        self.offered = Ghost(self.offered@.push(line@));
        let outcome = self.writer.write_line(line.as_str());
        self.settle(line.as_str(), outcome)
    }

    /// Writes the signal that the worker is ready.
    pub fn send_ready(&mut self) -> (r: Result<(), IpcError>)
        ensures
            final(self).reader == old(self).reader,
            Self::tried(*old(self), *final(self), None, ResponseStatus::Ready, None, None, r),
            match r {
                Ok(_) => Self::answered(*old(self), *final(self), None, ResponseStatus::Ready, None, None),
                Err(_) => Self::wrote_nothing(*old(self), *final(self)),
            },
    {
        let response = Response::ready();
        let r = self.write_response(&response);
        proof {
            assert(response_of(response@, None, ResponseStatus::Ready, None, None));
            assert(Self::attempted(*old(self), *self, response@, r));
        }
        r
    }

    /// Writes the signal that work on a request has begun.
    pub fn send_processing(&mut self, request_id: Option<String>) -> (r: Result<(), IpcError>)
        ensures
            final(self).reader == old(self).reader,
            Self::tried(*old(self), *final(self), opt_text(request_id), ResponseStatus::Processing, None, None, r),
            match r {
                Ok(_) => Self::answered(*old(self), *final(self), opt_text(request_id), ResponseStatus::Processing, None, None),
                Err(_) => Self::wrote_nothing(*old(self), *final(self)),
            },
    {
        let response = Response::processing(request_id);
        let r = self.write_response(&response);
        proof {
            assert(response_of(
                    response@,
                    opt_text(request_id),
                    ResponseStatus::Processing,
                    None,
                    None,
                ));
            assert(Self::attempted(*old(self), *self, response@, r));
        }
        r
    }

    /// Writes a success with its result.
    pub fn send_success(&mut self, request_id: Option<String>, result: Option<Json>) -> (r: Result<
        (),
        IpcError,
    >)
        ensures
            final(self).reader == old(self).reader,
            Self::tried(*old(self), *final(self), opt_text(request_id), ResponseStatus::Success, crate::protocol::opt_json(result), None, r),
            match r {
                Ok(_) => Self::answered(*old(self), *final(self), opt_text(request_id),
                        ResponseStatus::Success,
                        crate::protocol::opt_json(result),
                        None),
                Err(_) => Self::wrote_nothing(*old(self), *final(self)),
            },
    {
        let response = Response::success(request_id, result);
        let r = self.write_response(&response);
        proof {
            assert(response_of(
                    response@,
                    opt_text(request_id),
                    ResponseStatus::Success,
                    crate::protocol::opt_json(result),
                    None,
                ));
            assert(Self::attempted(*old(self), *self, response@, r));
        }
        r
    }

    /// Writes an error with its code and message.
    pub fn send_error(&mut self, request_id: Option<String>, code: i32, message: String) -> (r:
        Result<(), IpcError>)
        ensures
            final(self).reader == old(self).reader,
            Self::tried(*old(self), *final(self), opt_text(request_id), ResponseStatus::Error, None, Some(ErrorInfoView { code, message: message@, data: None }), r),
            match r {
                Ok(_) => Self::answered(*old(self), *final(self), opt_text(request_id),
                        ResponseStatus::Error,
                        None,
                        Some(ErrorInfoView { code, message: message@, data: None })),
                Err(_) => Self::wrote_nothing(*old(self), *final(self)),
            },
    {
        let response = Response::error(request_id, code, message);
        let r = self.write_response(&response);
        proof {
            assert(response_of(
                    response@,
                    opt_text(request_id),
                    ResponseStatus::Error,
                    None,
                    Some(ErrorInfoView { code, message: message@, data: None }),
                ));
            assert(Self::attempted(*old(self), *self, response@, r));
        }
        r
    }

    /// Writes an error under the code that belongs to its kind, with the
    /// error's text as the message.
    pub fn send_error_from(&mut self, request_id: Option<String>, error: &IpcError) -> (r: Result<
        (),
        IpcError,
    >)
        ensures
            final(self).reader == old(self).reader,
            Self::tried(*old(self), *final(self), opt_text(request_id), ResponseStatus::Error, None, Some(ErrorInfoView { code: error_code(*error), message: ipc_error_text(*error), data: None }), r),
            match r {
                Ok(_) => Self::answered(*old(self), *final(self), opt_text(request_id),
                        ResponseStatus::Error,
                        None,
                        Some(
                            ErrorInfoView {
                                code: error_code(*error),
                                message: ipc_error_text(*error),
                                data: None,
                            },
                        )),
                Err(_) => Self::wrote_nothing(*old(self), *final(self)),
            },
    {
        let code = match error {
            IpcError::Json(_) => ErrorInfo::PARSE_ERROR,
            IpcError::InvalidRequest { .. } => ErrorInfo::INVALID_REQUEST,
            IpcError::InvalidResponse { .. } => ErrorInfo::INVALID_PARAMS,
            IpcError::Timeout { .. } => ErrorInfo::TIMEOUT_ERROR,
            IpcError::ProcessCommunication { .. } => ErrorInfo::PROCESS_ERROR,
            _ => ErrorInfo::INTERNAL_ERROR,
        };
        self.send_error(request_id, code, error.to_string())
    }

    /// Writes a response made elsewhere; the same as `write_response`.
    pub fn send_response(&mut self, response: &Response) -> (r: Result<(), IpcError>)
        ensures
            final(self).reader == old(self).reader,
            if valid_response(response@) {
                Self::attempted(*old(self), *final(self), response@, r)
            } else {
                r is Err && unfit_error(r->Err_0, response@) && Self::wrote_nothing(
                    *old(self),
                    *final(self),
                ) && Self::no_calls(*old(self), *final(self)) && final(self).writer == old(self).writer
            },
            match r {
                Ok(_) => valid_response(response@) && Self::wrote(
                    *old(self),
                    *final(self),
                    response@,
                ),
                Err(e) => Self::wrote_nothing(*old(self), *final(self)) && (!valid_response(
                    response@,
                ) ==> e is InvalidResponse) && (valid_response(response@) && json_render(
                    response_to_json(response@),
                ) is None ==> e is Json),
            },
    {
        self.write_response(response)
    }

    /// The counts so far.
    pub fn stats(&self) -> (s: IpcStats)
        ensures
            s.requests_processed == self.request_count,
            s.responses_sent == self.response_count,
    {
        IpcStats { requests_processed: self.request_count, responses_sent: self.response_count }
    }

    /// Asks the writer, once, to hand buffered output on. The writer
    /// decides whether that succeeds; no line is handed to it.
    pub fn flush(&mut self) -> (r: Result<(), IpcError>)
        ensures
            final(self).reader == old(self).reader,
            Self::wrote_nothing(*old(self), *final(self)),
            final(self).offered == old(self).offered,
            final(self).reads == old(self).reads,
            final(self).flushes@ == old(self).flushes@ + 1,
    {
        let r = self.writer.flush();
        self.flushes = Ghost(self.flushes@ + 1);
        r
    }
}

} // verus!
