//! The session: one request at a time is read, turned into a command,
//! executed against the orchestrator and answered.
//!
//! The session decides and writes; its caller does what the session cannot:
//! it reads model files and runs token producers in the background, as the
//! returned `Action` asks, and hands the outcome back.

use vstd::prelude::*;
use vstd::string::*;
use crate::ai_core::{AiCore, AiStats, InferenceResult, LoadStep, ModelInfo};
use crate::clock::{elapsed_millis, instant_now, timestamp_now};
use crate::command::{
    command_of, confidence_json, confidence_to_json, parse_command, result_json, result_to_json,
    Command, CommandFault, CommandResult, CommandView,
};
use crate::config::{cache_size_spec, Config};
use crate::errors::{ipc_error_text, prefixed, AiCoreError, IpcError, ProtocolError};
use crate::handler::{count_up, error_code, line_verdict, IpcHandler, LineVerdict};
use crate::io::{InputReader, OutputWriter};
use crate::json::{json_parse, members_view, Json, JsonView};
use crate::cache::{after_get, has_key, value_of, zero_size_error};
use crate::model_loader::{format_label, path_join, FileProbe, LoadVerdict};
use crate::protocol::{
    request_from_json, ErrorInfo, ErrorInfoView, Request, RequestView, ResponseStatus,
};
use crate::streaming::{
    token_limit, Phase, ProducerState, StreamEvent, StreamingEngine, Token, TokenStream,
};
use crate::text::{clone_opt_text, is_blank, opt_text};

verus! {

/// The model file does not exist.
pub const MODEL_NOT_FOUND: i32 = -32000;

/// The model's format is unknown or not accepted.
pub const UNSUPPORTED_FORMAT: i32 = -32001;

/// Any other failure of a load.
pub const LOAD_FAILED: i32 = -32002;

/// Inference was asked for before a model was loaded.
pub const MODEL_NOT_LOADED: i32 = -32003;

/// Any other failure of an inference.
pub const INFERENCE_FAILED: i32 = -32004;

/// The token budget of an inference that names none.
pub const DEFAULT_BUDGET: usize = 512;

/// What the caller of the session is to do next.
pub enum Action {
    /// Read the next request.
    Continue,
    /// End the session: the host asked for it.
    Stop,
    /// Look for this file, read it, and call `finish_load` with what was found.
    Read { path: String },
    /// Run this stream, in the background or by pulling from it, and
    /// hand its events to `on_stream_event`, one call for each.
    Stream { stream: TokenStream },
    /// Hand the next event of the running stream to `on_stream_event`.
    NextEvent,
}

/// What the session waits for between two calls.
pub enum Pending {
    /// Nothing: the next request.
    Idle,
    /// The content of a model file.
    Load { id: Option<String>, model_path: String, path: String, init: bool },
    /// The events of a stream.
    Stream {
        id: Option<String>,
        max_tokens: Option<usize>,
        text: String,
        tokens: usize,
        started: std::time::Instant,
    },
}

/// A session over a reader and a writer.
pub struct AiService<R: InputReader, W: OutputWriter> {
    pub ipc_handler: IpcHandler<R, W>,
    pub ai_core: AiCore,
    pub config: Config,
    pub pending: Pending,
}

/// The details of an error without data.
pub open spec fn plain_error(code: i32, message: Seq<char>) -> ErrorInfoView {
    ErrorInfoView { code, message, data: None }
}

/// The code under which a failed load is reported.
pub open spec fn load_error_code(e: AiCoreError) -> i32 {
    match e {
        AiCoreError::NotFound { .. } => MODEL_NOT_FOUND,
        AiCoreError::Unsupported { .. } => UNSUPPORTED_FORMAT,
        _ => LOAD_FAILED,
    }
}

/// The code under which a failed inference is reported.
pub open spec fn inference_error_code(e: AiCoreError) -> i32 {
    match e {
        AiCoreError::ModelNotLoaded => MODEL_NOT_LOADED,
        _ => INFERENCE_FAILED,
    }
}

/// The code under which a request that names no command is reported.
pub open spec fn fault_code(fault: CommandFault) -> i32 {
    match fault {
        CommandFault::UnknownMethod => ErrorInfo::METHOD_NOT_FOUND,
        _ => ErrorInfo::INVALID_PARAMS,
    }
}

/// The message with which a request that names no command is reported.
pub open spec fn fault_message(fault: CommandFault, method: Seq<char>) -> Seq<char> {
    match fault {
        CommandFault::UnknownMethod => "Unknown method: "@ + method,
        CommandFault::Missing(name) => "Missing required parameter: "@ + name,
        CommandFault::WrongType(name) => "Invalid parameter type: "@ + name,
    }
}

/// The result of a ping.
pub open spec fn is_pong(result: CommandResult) -> bool {
    result matches CommandResult::Pong { message, .. } && message@ == "pong"@
}

/// The result of an initialisation with the model label `model`.
pub open spec fn is_initialized(result: CommandResult, model: Seq<char>) -> bool {
    result matches CommandResult::Initialized { model: m, status } && m@ == model && status@
        == "ready"@
}

/// The members that report a loaded model.
pub open spec fn info_members(members: Seq<(Seq<char>, JsonView)>, format: Seq<char>, size: u64) -> bool {
    members.len() == 3 && members[0] == ("format"@, JsonView::Str(format)) && members[1] == (
        "size_bytes"@,
        crate::command::json_uint(size as nat),
    ) && members[2].0 == "loaded_at"@ && members[2].1 is Str
}

/// The members that report the session's counts.
pub open spec fn ipc_members(requests: usize, responses: usize) -> Seq<(Seq<char>, JsonView)> {
    seq![
        ("requests_processed"@, crate::command::json_uint(requests as nat)),
        ("responses_sent"@, crate::command::json_uint(responses as nat)),
    ]
}

/// The members that report the orchestrator's counters.
pub open spec fn core_members(stats: AiStats) -> Seq<(Seq<char>, JsonView)> {
    seq![
        ("models_loaded"@, crate::command::json_uint(stats.models_loaded as nat)),
        ("inferences_performed"@, crate::command::json_uint(stats.inferences_performed as nat)),
        ("cache_hits"@, crate::command::json_uint(stats.cache_hits as nat)),
        ("cache_misses"@, crate::command::json_uint(stats.cache_misses as nat)),
    ]
}

/// The result of a request for the counters.
pub open spec fn is_stats(result: CommandResult, requests: usize, responses: usize, stats: AiStats) -> bool {
    result matches CommandResult::Stats { ipc, ai_core, uptime_seconds } && members_view(ipc@)
        == ipc_members(requests, responses) && members_view(ai_core@) == core_members(stats)
        && uptime_seconds == stats.uptime
}

/// The JSON value that carries one token of a stream.
pub open spec fn token_json(text: Seq<char>, confidence: Option<u32>) -> JsonView {
    JsonView::Object(
        seq![
            ("event"@, JsonView::Str("token"@)),
            (
                "data"@,
                JsonView::Object(
                    seq![("token"@, JsonView::Str(text)), ("confidence"@, confidence_json(confidence))],
                ),
            ),
        ],
    )
}

fn member(name: &str, value: Json) -> (m: (String, Json))
    ensures
        m.0@ == name@,
        m.1 == value,
{
    (name.to_owned(), value)
}

/// The JSON value that carries one token of a stream.
pub fn token_to_json(text: &str, confidence: Option<u32>) -> (j: Json)
    ensures
        j@ == token_json(text@, confidence),
{
    let mut data: Vec<(String, Json)> = Vec::new();
    data.push(member("token", Json::string(text)));
    data.push(member("confidence", confidence_to_json(confidence)));
    let mut outer: Vec<(String, Json)> = Vec::new();
    outer.push(member("event", Json::string("token")));
    let inner = Json::object(data);
    assert(inner@->Object_0 =~= seq![
        ("token"@, JsonView::Str(text@)),
        ("confidence"@, confidence_json(confidence)),
    ]);
    outer.push(member("data", inner));
    let j = Json::object(outer);
    assert(j@->Object_0 =~= token_json(text@, confidence)->Object_0);
    j
}

/// The code under which a failed load is reported.
pub fn code_of_load_error(e: &AiCoreError) -> (code: i32)
    ensures
        code == load_error_code(*e),
{
    match e {
        AiCoreError::NotFound { .. } => MODEL_NOT_FOUND,
        AiCoreError::Unsupported { .. } => UNSUPPORTED_FORMAT,
        _ => LOAD_FAILED,
    }
}

/// The code under which a failed inference is reported.
pub fn code_of_inference_error(e: &AiCoreError) -> (code: i32)
    ensures
        code == inference_error_code(*e),
{
    match e {
        AiCoreError::ModelNotLoaded => MODEL_NOT_LOADED,
        _ => INFERENCE_FAILED,
    }
}

/// What became of the writes of a step: nothing where the step went
/// through, and the failure where a write did not.
pub open spec fn outcome(r: Result<Action, IpcError>) -> Result<(), IpcError> {
    match r {
        Ok(_) => Ok(()),
        Err(e) => Err(e),
    }
}

/// A failure of the transport itself, on which a session ends.
pub open spec fn ends_session(e: IpcError) -> bool {
    e is Io || e is ProcessCommunication
}

/// Whether the error is a failure of the transport itself, on which a
/// session ends: the end of the input or an input/output failure.
pub fn is_session_end(e: &IpcError) -> (b: bool)
    ensures
        b == ends_session(*e),
{
    match e {
        IpcError::Io(_) => true,
        IpcError::ProcessCommunication { .. } => true,
        _ => false,
    }
}

impl<R: InputReader, W: OutputWriter> AiService<R, W> {
    /// The orchestrator is well-formed.
    pub open spec fn wf(&self) -> bool {
        self.ai_core.wf()
    }

    /// An error with `code` was made for the request `id`, and writing it
    /// came to `w`.
    pub open spec fn failed(
        old_h: IpcHandler<R, W>,
        new_h: IpcHandler<R, W>,
        id: Option<Seq<char>>,
        code: i32,
        w: Result<(), IpcError>,
    ) -> bool {
        exists|message: Seq<char>|
            #![trigger plain_error(code, message)]
            IpcHandler::<R, W>::tried(
                old_h,
                new_h,
                id,
                ResponseStatus::Error,
                None,
                Some(plain_error(code, message)),
                w,
            )
    }

    /// A success with `result` was made for the request `id`, and writing
    /// it came to `w`.
    pub open spec fn succeeded(
        old_h: IpcHandler<R, W>,
        new_h: IpcHandler<R, W>,
        id: Option<Seq<char>>,
        result: JsonView,
        w: Result<(), IpcError>,
    ) -> bool {
        IpcHandler::<R, W>::tried(
            old_h,
            new_h,
            id,
            ResponseStatus::Success,
            Some(result),
            None,
            w,
        )
    }

    /// The signal that work has begun was made for a request with an id,
    /// and writing it came to `w`; for a request without an id nothing was
    /// made and nothing can fail.
    pub open spec fn signalled(
        old_h: IpcHandler<R, W>,
        new_h: IpcHandler<R, W>,
        id: Option<Seq<char>>,
        w: Result<(), IpcError>,
    ) -> bool {
        if id is Some {
            IpcHandler::<R, W>::tried(
                old_h,
                new_h,
                id,
                ResponseStatus::Processing,
                None,
                None,
                w,
            )
        } else {
            w is Ok && new_h == old_h
        }
    }

    /// Nothing but the handler changed.
    pub open spec fn only_handler_changed(old_self: Self, new_self: Self) -> bool {
        new_self.ai_core == old_self.ai_core && new_self.config == old_self.config
            && new_self.pending == old_self.pending && new_self.ipc_handler.reader
            == old_self.ipc_handler.reader
    }

    /// A session over the given reader and writer, with an orchestrator as
    /// the configuration describes it.
    pub fn new(config: Config, reader: R, writer: W) -> (r: Result<Self, AiCoreError>)
        ensures
            match r {
                Ok(service) => service.wf() && service.pending is Idle && service.config == config
                    && service.ipc_handler.reader == reader && service.ipc_handler.writer == writer
                    && service.ipc_handler.request_count == 0
                    && service.ipc_handler.response_count == 0 && service.ipc_handler.sent@.len()
                    == 0 && service.ipc_handler.offered@.len() == 0 && service.ipc_handler.reads@
                    == 0 && service.ipc_handler.flushes@ == 0 && service.ai_core.fresh(config),
                Err(e) => zero_size_error(e) && cache_size_spec(config.lookup("/cache/max_size"@))
                    == 0,
            },
    {
        let ai_core = match AiCore::new(&config) {
            Ok(core) => core,
            Err(e) => {
                return Err(e);
            },
        };
        Ok(
            AiService {
                ipc_handler: IpcHandler::with_io(reader, writer),
                ai_core,
                config,
                pending: Pending::Idle,
            },
        )
    }

    /// Makes the signal that the session is ready for requests and hands
    /// it to the writer, which decides whether it is written.
    pub fn start(&mut self) -> (r: Result<(), IpcError>)
        ensures
            Self::only_handler_changed(*old(self), *final(self)),
            IpcHandler::<R, W>::tried(
                old(self).ipc_handler,
                final(self).ipc_handler,
                None,
                ResponseStatus::Ready,
                None,
                None,
                r,
            ),
    {
        self.ipc_handler.send_ready()
    }

    /// Answers a request with an error. The session goes on where the
    /// error was written; the failure to write it comes back.
    pub fn reply_error(&mut self, id: Option<String>, code: i32, message: String) -> (r: Result<
        Action,
        IpcError,
    >)
        ensures
            Self::only_handler_changed(*old(self), *final(self)),
            r matches Ok(action) ==> action is Continue,
            IpcHandler::<R, W>::tried(
                old(self).ipc_handler,
                final(self).ipc_handler,
                opt_text(id),
                ResponseStatus::Error,
                None,
                Some(plain_error(code, message@)),
                outcome(r),
            ),
            Self::failed(
                old(self).ipc_handler,
                final(self).ipc_handler,
                opt_text(id),
                code,
                outcome(r),
            ),
    {
        let sent = self.ipc_handler.send_error(id, code, message);
        let ghost w: Result<(), IpcError> = sent;
        let r = match sent {
            Ok(_) => Ok(Action::Continue),
            Err(e) => Err(e),
        };
        proof {
            if w is Ok {
                let unit: () = w->Ok_0;
                assert(unit == ());
                assert(w == Ok::<(), IpcError>(()));
            }
            assert(outcome(r) == w);
        }
        r
    }

    /// Answers a request with the result of its command. Where the result
    /// was written, the session goes on unless the result is the end of
    /// the session; the failure to write it comes back.
    pub fn reply_result(&mut self, id: Option<String>, result: &CommandResult) -> (r: Result<
        Action,
        IpcError,
    >)
        ensures
            Self::only_handler_changed(*old(self), *final(self)),
            r matches Ok(action) ==> (if *result is ShutdownComplete {
                action is Stop
            } else {
                action is Continue
            }),
            Self::succeeded(
                old(self).ipc_handler,
                final(self).ipc_handler,
                opt_text(id),
                result_json(*result),
                outcome(r),
            ),
    {
        let stop = match result {
            CommandResult::ShutdownComplete => true,
            _ => false,
        };
        let sent = self.ipc_handler.send_success(id, Some(result_to_json(result)));
        let ghost w: Result<(), IpcError> = sent;
        let r = match sent {
            Ok(_) => if stop {
                Ok(Action::Stop)
            } else {
                Ok(Action::Continue)
            },
            Err(e) => Err(e),
        };
        proof {
            if w is Ok {
                let unit: () = w->Ok_0;
                assert(unit == ());
                assert(w == Ok::<(), IpcError>(()));
            }
            assert(outcome(r) == w);
        }
        r
    }

    /// Makes the signal that work has begun, for a request with an id, and
    /// hands it to the writer. For a request without an id nothing is
    /// written and the call succeeds.
    pub fn signal_processing(&mut self, id: &Option<String>) -> (r: Result<(), IpcError>)
        ensures
            Self::only_handler_changed(*old(self), *final(self)),
            Self::signalled(old(self).ipc_handler, final(self).ipc_handler, opt_text(*id), r),
    {
        match id {
            Some(text) => self.ipc_handler.send_processing(Some(text.clone())),
            None => Ok(()),
        }
    }

    /// The result that reports a loaded model: an initialisation names the
    /// model; a load names it and tells its format and size.
    pub open spec fn load_result(
        result: CommandResult,
        model_path: Seq<char>,
        init: bool,
        format: Seq<char>,
        size: u64,
    ) -> bool {
        if init {
            is_initialized(result, model_path)
        } else {
            result matches CommandResult::ModelLoaded { model_path: p, model_info } && p@
                == model_path && info_members(members_view(model_info@), format, size)
        }
    }

    /// What beginning a load of `model_path` comes to, after the handler
    /// stood at `from`. The model cache is asked for the resolved path. A
    /// model that is cached becomes the current model and a report of it is
    /// made, whatever becomes of writing the report. For any other path
    /// the session waits for the file's content, and that cannot fail.
    pub open spec fn load_begun(
        old_self: Self,
        new_self: Self,
        from: IpcHandler<R, W>,
        id: Option<Seq<char>>,
        model_path: Seq<char>,
        init: bool,
        r: Result<Action, IpcError>,
    ) -> bool {
        let full = path_join(old_self.ai_core.model_loader.base_path@, model_path);
        let cache = old_self.ai_core.model_loader.cache@;
        &&& new_self.ai_core.model_loader.cache@ == after_get(cache, full)
        &&& if has_key(cache, full) {
            &&& r matches Ok(action) ==> action is Continue
            &&& new_self.pending == old_self.pending
            &&& AiCore::installed(
                old_self.ai_core,
                new_self.ai_core,
                value_of(cache, full)@,
                model_path,
            )
            &&& exists|result: CommandResult|
                #![trigger result_json(result)]
                Self::load_result(
                    result,
                    model_path,
                    init,
                    format_label(value_of(cache, full)@.format),
                    value_of(cache, full)@.data.len() as u64,
                ) && Self::succeeded(
                    from,
                    new_self.ipc_handler,
                    id,
                    result_json(result),
                    outcome(r),
                )
        } else {
            &&& r matches Ok(Action::Read { path }) && path@ == full
            &&& new_self.pending matches Pending::Load { id: i, model_path: m, path: p, init: n }
                && opt_text(i) == id && m@ == model_path && p@ == full && n == init
            &&& new_self.ipc_handler == from
            &&& AiCore::only_loader_changed(old_self.ai_core, new_self.ai_core)
        }
    }

    /// The code under which the end of a load is reported.
    pub open spec fn verdict_code(verdict: LoadVerdict) -> i32 {
        match verdict {
            LoadVerdict::NotFound => MODEL_NOT_FOUND,
            LoadVerdict::UnknownFormat => UNSUPPORTED_FORMAT,
            LoadVerdict::UnsupportedFormat(_) => UNSUPPORTED_FORMAT,
            _ => LOAD_FAILED,
        }
    }

    /// What finishing a load with `probe` comes to. The session waits for
    /// nothing any more. A model that could be made is the current model
    /// and a report of it is made; any other outcome is reported under its
    /// code; what becomes of writing the report is `outcome(r)`. Where the
    /// session waited for no file, nothing happens and nothing can fail.
    pub open spec fn load_finished(
        old_self: Self,
        new_self: Self,
        probe: FileProbe,
        r: Result<Action, IpcError>,
    ) -> bool {
        match old_self.pending {
            Pending::Load { id, model_path, path, init } => {
                let verdict = old_self.ai_core.model_loader.verdict(path@, probe);
                &&& r matches Ok(action) ==> action is Continue
                &&& new_self.pending is Idle
                &&& if verdict is Cached || verdict is Loaded {
                    &&& new_self.ai_core.current_model is Some
                    &&& AiCore::installed(
                        old_self.ai_core,
                        new_self.ai_core,
                        new_self.ai_core.current_model->Some_0@,
                        model_path@,
                    )
                    &&& exists|result: CommandResult|
                        #![trigger result_json(result)]
                        Self::load_result(
                            result,
                            model_path@,
                            init,
                            format_label(new_self.ai_core.current_model->Some_0@.format),
                            new_self.ai_core.current_model->Some_0@.data.len() as u64,
                        ) && Self::succeeded(
                            old_self.ipc_handler,
                            new_self.ipc_handler,
                            opt_text(id),
                            result_json(result),
                            outcome(r),
                        )
                } else {
                    &&& AiCore::only_loader_changed(old_self.ai_core, new_self.ai_core)
                    &&& new_self.ai_core.model_loader.cache@ == old_self.ai_core.model_loader.cache@
                    &&& Self::failed(
                        old_self.ipc_handler,
                        new_self.ipc_handler,
                        opt_text(id),
                        Self::verdict_code(verdict),
                        outcome(r),
                    )
                }
            },
            _ => r matches Ok(action) && action is Continue && new_self.ai_core
                == old_self.ai_core && new_self.ipc_handler == old_self.ipc_handler
                && new_self.pending == old_self.pending,
        }
    }

    /// What a plain inference comes to, after the handler stood at `from`:
    /// the orchestrator ran it, and a report of its result or of its
    /// failure was made, whatever becomes of writing the report.
    pub open spec fn inference_done(
        old_self: Self,
        new_self: Self,
        from: IpcHandler<R, W>,
        id: Option<Seq<char>>,
        prompt: Seq<char>,
        budget: nat,
        r: Result<Action, IpcError>,
    ) -> bool {
        &&& r matches Ok(action) ==> action is Continue
        &&& new_self.pending == old_self.pending
        &&& exists|res: Result<InferenceResult, AiCoreError>|
            #![trigger AiCore::inferred(old_self.ai_core, new_self.ai_core, prompt, budget, res)]
            AiCore::inferred(old_self.ai_core, new_self.ai_core, prompt, budget, res) && match res {
                Ok(v) => Self::succeeded(
                    from,
                    new_self.ipc_handler,
                    id,
                    result_json(
                        CommandResult::InferenceComplete {
                            output: v.text,
                            tokens_generated: v.tokens_generated,
                            inference_time_ms: v.inference_time_ms,
                            model_used: v.model_used,
                        },
                    ),
                    outcome(r),
                ),
                Err(e) => Self::failed(
                    from,
                    new_self.ipc_handler,
                    id,
                    inference_error_code(e),
                    outcome(r),
                ),
            }
    }

    /// What the start of a streaming inference comes to, after the handler
    /// stood at `from`: a blank prompt is reported as a failure; for any
    /// other the session hands out a fresh stream and waits for its
    /// events, and that cannot fail.
    pub open spec fn stream_begun(
        old_self: Self,
        new_self: Self,
        from: IpcHandler<R, W>,
        id: Option<Seq<char>>,
        prompt: Seq<char>,
        max_tokens: Option<usize>,
        r: Result<Action, IpcError>,
    ) -> bool {
        &&& new_self.ai_core == old_self.ai_core
        &&& if is_blank(prompt) {
            (r matches Ok(action) ==> action is Continue) && new_self.pending == old_self.pending
                && Self::failed(from, new_self.ipc_handler, id, INFERENCE_FAILED, outcome(r))
        } else {
            &&& r matches Ok(Action::Stream { stream }) && stream.wf() && stream.producer@
                == (ProducerState {
                phase: Phase::Fresh,
                sent: 0,
                limit: token_limit(Some(512usize)),
            }) && stream.producer.pause_ms == 50
            &&& new_self.pending matches Pending::Stream { id: i, max_tokens: m, text, tokens, .. }
                && opt_text(i) == id && m == max_tokens && text@.len() == 0 && tokens == 0
            &&& new_self.ipc_handler == from
        }
    }

    /// The signal that work has begun could not be written: the failure
    /// comes back and nothing else has happened.
    pub open spec fn stopped_at_signal(
        old_self: Self,
        new_self: Self,
        mid: IpcHandler<R, W>,
        w: Result<(), IpcError>,
        r: Result<Action, IpcError>,
    ) -> bool {
        r is Err && w is Err && r->Err_0 == w->Err_0 && new_self.ipc_handler == mid
            && new_self.ai_core == old_self.ai_core && new_self.pending == old_self.pending
    }

    /// What executing a command for the request `id` comes to. Every
    /// command changes the orchestrator as it must, whatever becomes of
    /// writing its answer; `outcome(r)` is what became of the writing.
    pub open spec fn executed(
        old_self: Self,
        new_self: Self,
        id: Option<Seq<char>>,
        command: CommandView,
        r: Result<Action, IpcError>,
    ) -> bool {
        match command {
            CommandView::Ping => (r matches Ok(action) ==> action is Continue) && new_self.ai_core
                == old_self.ai_core && new_self.pending == old_self.pending && exists|
                result: CommandResult,
            |
                #![trigger result_json(result)]
                is_pong(result) && Self::succeeded(
                    old_self.ipc_handler,
                    new_self.ipc_handler,
                    id,
                    result_json(result),
                    outcome(r),
                ),
            CommandView::Shutdown => (r matches Ok(action) ==> action is Stop) && new_self.ai_core
                == old_self.ai_core && new_self.pending == old_self.pending && Self::succeeded(
                old_self.ipc_handler,
                new_self.ipc_handler,
                id,
                result_json(CommandResult::ShutdownComplete),
                outcome(r),
            ),
            CommandView::CacheClear => (r matches Ok(action) ==> action is Continue)
                && new_self.pending == old_self.pending && new_self.ai_core.cache@.len() == 0
                && new_self.ai_core.stats == old_self.ai_core.stats
                && new_self.ai_core.current_model == old_self.ai_core.current_model
                && Self::succeeded(
                old_self.ipc_handler,
                new_self.ipc_handler,
                id,
                result_json(
                    CommandResult::CacheCleared {
                        entries_removed: old_self.ai_core.cache@.len() as usize,
                    },
                ),
                outcome(r),
            ),
            CommandView::GetStats => (r matches Ok(action) ==> action is Continue)
                && new_self.pending == old_self.pending
                && new_self.ai_core.stats.models_loaded == old_self.ai_core.stats.models_loaded
                && new_self.ai_core.stats.inferences_performed
                == old_self.ai_core.stats.inferences_performed && new_self.ai_core.stats.cache_hits
                == old_self.ai_core.stats.cache_hits && new_self.ai_core.stats.cache_misses
                == old_self.ai_core.stats.cache_misses && new_self.ai_core.cache
                == old_self.ai_core.cache && new_self.ai_core.current_model
                == old_self.ai_core.current_model && exists|result: CommandResult|
                #![trigger result_json(result)]
                is_stats(
                    result,
                    old_self.ipc_handler.request_count,
                    old_self.ipc_handler.response_count,
                    new_self.ai_core.stats,
                ) && Self::succeeded(
                    old_self.ipc_handler,
                    new_self.ipc_handler,
                    id,
                    result_json(result),
                    outcome(r),
                ),
            CommandView::Init { model, params } => match model {
                None => (r matches Ok(action) ==> action is Continue) && new_self.ai_core
                    == old_self.ai_core && new_self.pending == old_self.pending && exists|
                    result: CommandResult,
                |
                    #![trigger result_json(result)]
                    is_initialized(result, "default"@) && Self::succeeded(
                        old_self.ipc_handler,
                        new_self.ipc_handler,
                        id,
                        result_json(result),
                        outcome(r),
                    ),
                Some(model_path) => Self::load_begun(
                    old_self,
                    new_self,
                    old_self.ipc_handler,
                    id,
                    model_path,
                    true,
                    r,
                ),
            },
            CommandView::LoadModel { model_path } => exists|
                mid: IpcHandler<R, W>,
                w: Result<(), IpcError>,
            |
                #![trigger Self::signalled(old_self.ipc_handler, mid, id, w)]
                Self::signalled(old_self.ipc_handler, mid, id, w) && (if w is Err {
                    Self::stopped_at_signal(old_self, new_self, mid, w, r)
                } else {
                    Self::load_begun(old_self, new_self, mid, id, model_path, false, r)
                }),
            CommandView::Inference { prompt, max_tokens, temperature, stream } => exists|
                mid: IpcHandler<R, W>,
                w: Result<(), IpcError>,
            |
                #![trigger Self::signalled(old_self.ipc_handler, mid, id, w)]
                Self::signalled(old_self.ipc_handler, mid, id, w) && (if w is Err {
                    Self::stopped_at_signal(old_self, new_self, mid, w, r)
                } else if stream == Some(true) {
                    Self::stream_begun(old_self, new_self, mid, id, prompt, max_tokens, r)
                } else {
                    Self::inference_done(
                        old_self,
                        new_self,
                        mid,
                        id,
                        prompt,
                        match max_tokens {
                            Some(m) => m as nat,
                            None => DEFAULT_BUDGET as nat,
                        },
                        r,
                    )
                }),
        }
    }

    fn start_load(&mut self, id: Option<String>, model_path: String, init: bool) -> (r: Result<
        Action,
        IpcError,
    >)
        requires
            old(self).wf(),
        ensures
            final(self).wf(),
            final(self).config == old(self).config,
            final(self).ipc_handler.reader == old(self).ipc_handler.reader,
            Self::load_begun(
                *old(self),
                *final(self),
                old(self).ipc_handler,
                opt_text(id),
                model_path@,
                init,
                r,
            ),
    {
        match self.ai_core.begin_load(Some(model_path.as_str())) {
            Ok(LoadStep::Done(info)) => {
                let result = load_report(model_path.as_str(), &info, init);
                let ghost h0 = self.ipc_handler;
                let r = self.reply_result(id, &result);
                proof {
                    assert(Self::succeeded(
                        h0,
                        self.ipc_handler,
                        opt_text(id),
                        result_json(result),
                        outcome(r),
                    ));
                }
                r
            },
            Ok(LoadStep::Read { path }) => {
                let action = Action::Read { path: path.clone() };
                self.pending = Pending::Load { id, model_path, path, init };
                Ok(action)
            },
            Ok(LoadStep::Scan { dir }) => self.reply_error(
                id,
                LOAD_FAILED,
                "Failed to load model".to_owned(),
            ),
            Err(e) => {
                let code = code_of_load_error(&e);
                self.reply_error(id, code, prefixed("Failed to load model: ", e.to_string().as_str()))
            },
        }
    }

    /// Takes the content of the model file that the session waits for,
    /// ends the load and answers the request that began it. Where the
    /// session waits for no file, nothing happens.
    pub fn finish_load(&mut self, probe: FileProbe) -> (r: Result<Action, IpcError>)
        requires
            old(self).wf(),
        ensures
            final(self).wf(),
            final(self).config == old(self).config,
            final(self).ipc_handler.reader == old(self).ipc_handler.reader,
            Self::load_finished(*old(self), *final(self), probe, r),
    {
        let mut taken = Pending::Idle;
        std::mem::swap(&mut self.pending, &mut taken);
        match taken {
            Pending::Load { id, model_path, path, init } => {
                let ghost h0 = self.ipc_handler;
                match self.ai_core.load_model(Some(model_path.as_str()), path, probe) {
                    Ok(info) => {
                        let result = load_report(model_path.as_str(), &info, init);
                        let r = self.reply_result(id, &result);
                        proof {
                            assert(Self::succeeded(
                                h0,
                                self.ipc_handler,
                                opt_text(id),
                                result_json(result),
                                outcome(r),
                            ));
                        }
                        r
                    },
                    Err(e) => {
                        let code = code_of_load_error(&e);
                        self.reply_error(
                            id,
                            code,
                            prefixed("Failed to load model: ", e.to_string().as_str()),
                        )
                    },
                }
            },
            other => {
                self.pending = other;
                Ok(Action::Continue)
            },
        }
    }

    /// Executes a command for a request and answers it, or tells the
    /// caller what the command needs first.
    pub fn execute_command(&mut self, command: Command, request: &Request) -> (r: Result<
        Action,
        IpcError,
    >)
        requires
            old(self).wf(),
        ensures
            final(self).wf(),
            final(self).config == old(self).config,
            final(self).ipc_handler.reader == old(self).ipc_handler.reader,
            Self::executed(*old(self), *final(self), request@.id, command@, r),
    {
        let ghost h0 = self.ipc_handler;
        let id = clone_opt_text(&request.id);
        match command {
            Command::Ping => {
                let result = CommandResult::Pong {
                    message: "pong".to_owned(),
                    timestamp: timestamp_now(),
                };
                let r = self.reply_result(id, &result);
                proof {
                    assert(is_pong(result) && Self::succeeded(
                        h0,
                        self.ipc_handler,
                        request@.id,
                        result_json(result),
                        outcome(r),
                    ));
                }
                r
            },
            Command::Shutdown => {
                let result = CommandResult::ShutdownComplete;
                self.reply_result(id, &result)
            },
            Command::CacheClear => {
                let removed = self.ai_core.cache_stats().0;
                self.ai_core.clear_cache();
                let result = CommandResult::CacheCleared { entries_removed: removed };
                self.reply_result(id, &result)
            },
            Command::GetStats => {
                let stats = self.ai_core.get_stats();
                let counts = self.ipc_handler.stats();
                let mut ipc: Vec<(String, Json)> = Vec::new();
                ipc.push(member("requests_processed", Json::uint(counts.requests_processed as u64)));
                ipc.push(member("responses_sent", Json::uint(counts.responses_sent as u64)));
                let mut core: Vec<(String, Json)> = Vec::new();
                core.push(member("models_loaded", Json::uint(stats.models_loaded)));
                core.push(member("inferences_performed", Json::uint(stats.inferences_performed)));
                core.push(member("cache_hits", Json::uint(stats.cache_hits)));
                core.push(member("cache_misses", Json::uint(stats.cache_misses)));
                proof {
                    assert(members_view(ipc@) =~= ipc_members(
                        counts.requests_processed,
                        counts.responses_sent,
                    ));
                    assert(members_view(core@) =~= core_members(stats));
                }
                let result = CommandResult::Stats {
                    ipc,
                    ai_core: core,
                    uptime_seconds: stats.uptime,
                };
                let r = self.reply_result(id, &result);
                proof {
                    assert(is_stats(
                        result,
                        h0.request_count,
                        h0.response_count,
                        self.ai_core.stats,
                    ) && Self::succeeded(
                        h0,
                        self.ipc_handler,
                        request@.id,
                        result_json(result),
                        outcome(r),
                    ));
                }
                r
            },
            Command::Init { model, params } => match model {
                None => {
                    let result = CommandResult::Initialized {
                        model: "default".to_owned(),
                        status: "ready".to_owned(),
                    };
                    let r = self.reply_result(id, &result);
                    proof {
                        assert(is_initialized(result, "default"@) && Self::succeeded(
                            h0,
                            self.ipc_handler,
                            request@.id,
                            result_json(result),
                            outcome(r),
                        ));
                    }
                    r
                },
                Some(model_path) => self.start_load(id, model_path, true),
            },
            Command::LoadModel { model_path } => {
                let signal = self.signal_processing(&request.id);
                let ghost mid = self.ipc_handler;
                let ghost w: Result<(), IpcError> = signal;
                match signal {
                    Ok(_) => {},
                    Err(e) => {
                        proof {
                            assert(Self::signalled(h0, mid, request@.id, w));
                            assert(Self::stopped_at_signal(
                                *old(self),
                                *self,
                                mid,
                                w,
                                Err::<Action, IpcError>(e),
                            ));
                        }
                        return Err(e);
                    },
                }
                let r = self.start_load(id, model_path, false);
                proof {
                    assert(Self::signalled(h0, mid, request@.id, w));
                    assert(Self::load_begun(
                        *old(self),
                        *self,
                        mid,
                        request@.id,
                        model_path@,
                        false,
                        r,
                    ));
                }
                r
            },
            Command::Inference { prompt, max_tokens, temperature, stream } => {
                let signal = self.signal_processing(&request.id);
                let ghost mid = self.ipc_handler;
                let ghost w: Result<(), IpcError> = signal;
                match signal {
                    Ok(_) => {},
                    Err(e) => {
                        proof {
                            assert(Self::signalled(h0, mid, request@.id, w));
                            assert(Self::stopped_at_signal(
                                *old(self),
                                *self,
                                mid,
                                w,
                                Err::<Action, IpcError>(e),
                            ));
                        }
                        return Err(e);
                    },
                }
                let streaming = match stream {
                    Some(b) => b,
                    None => false,
                };
                if streaming {
                    let engine = StreamingEngine::new();
                    match engine.stream_inference(prompt.as_str()) {
                        Ok(stream) => {
                            self.pending = Pending::Stream {
                                id,
                                max_tokens,
                                text: String::new(),
                                tokens: 0,
                                started: instant_now(),
                            };
                            let r = Ok(Action::Stream { stream });
                            proof {
                                assert(Self::signalled(h0, mid, request@.id, w));
                                assert(Self::stream_begun(
                                    *old(self),
                                    *self,
                                    mid,
                                    request@.id,
                                    prompt@,
                                    max_tokens,
                                    r,
                                ));
                            }
                            r
                        },
                        Err(e) => {
                            let code = code_of_inference_error(&e);
                            let r = self.reply_error(id, code, e.to_string());
                            proof {
                                assert(Self::signalled(h0, mid, request@.id, w));
                                assert(Self::stream_begun(
                                    *old(self),
                                    *self,
                                    mid,
                                    request@.id,
                                    prompt@,
                                    max_tokens,
                                    r,
                                ));
                            }
                            r
                        },
                    }
                } else {
                    let budget: usize = match max_tokens {
                        Some(m) => m,
                        None => DEFAULT_BUDGET,
                    };
                    let ghost core0 = self.ai_core;
                    let res = self.ai_core.inference(prompt.as_str(), budget);
                    let ghost res0 = res;
                    let r = match res {
                        Ok(v) => {
                            let result = CommandResult::InferenceComplete {
                                output: v.text,
                                tokens_generated: v.tokens_generated,
                                inference_time_ms: v.inference_time_ms,
                                model_used: v.model_used,
                            };
                            self.reply_result(id, &result)
                        },
                        Err(e) => {
                            let code = code_of_inference_error(&e);
                            self.reply_error(
                                id,
                                code,
                                prefixed("Inference failed: ", e.to_string().as_str()),
                            )
                        },
                    };
                    proof {
                        assert(Self::signalled(h0, mid, request@.id, w));
                        assert(AiCore::inferred(
                            core0,
                            self.ai_core,
                            prompt@,
                            budget as nat,
                            res0,
                        ));
                        assert(Self::inference_done(
                            *old(self),
                            *self,
                            mid,
                            request@.id,
                            prompt@,
                            budget as nat,
                            r,
                        ));
                    }
                    r
                }
            },
        }
    }

    /// The result that ends a stream which delivered `tokens` tokens with
    /// the text `text`.
    pub open spec fn stream_result(result: CommandResult, text: Seq<char>, tokens: usize) -> bool {
        result matches CommandResult::InferenceComplete {
            output,
            tokens_generated,
            model_used,
            ..
        } && output@ == text && tokens_generated == tokens && model_used@ == "streaming_model"@
    }

    /// The stream ended after the handler stood at `from`: the session
    /// waits for nothing any more, and a report of the whole text was
    /// made, the writing of which came to `w`.
    pub open spec fn stream_ended(
        old_self: Self,
        new_self: Self,
        from: IpcHandler<R, W>,
        id: Option<Seq<char>>,
        text: Seq<char>,
        tokens: usize,
        w: Result<(), IpcError>,
    ) -> bool {
        new_self.pending is Idle && exists|result: CommandResult|
            #![trigger result_json(result)]
            Self::stream_result(result, text, tokens) && Self::succeeded(
                from,
                new_self.ipc_handler,
                id,
                result_json(result),
                w,
            )
    }

    /// Whether a stream ends after a token: when the token could not be
    /// written, or when it used up the budget.
    pub open spec fn ends_after(w: Result<(), IpcError>, max_tokens: Option<usize>, counted: usize) -> bool {
        w is Err || (max_tokens is Some && counted >= max_tokens->Some_0)
    }

    /// What an event of the running stream comes to; `None` stands for a
    /// stream that ended without a terminal event. `Started` changes
    /// nothing. A token is added to the text, counted and reported; the
    /// stream goes on unless the report could not be written or the budget
    /// is used up. `Complete` and the end of the stream report the whole
    /// text. `Error` is reported as a failure. Where no stream is running
    /// nothing happens. Only the writing of a report can fail.
    pub open spec fn streamed(
        old_self: Self,
        new_self: Self,
        event: Option<StreamEvent>,
        r: Result<Action, IpcError>,
    ) -> bool {
        &&& new_self.ai_core == old_self.ai_core
        &&& match old_self.pending {
            Pending::Stream { id, max_tokens, text, tokens, started } => match event {
                Some(StreamEvent::Started) => r matches Ok(action) && action is NextEvent
                    && new_self.pending == old_self.pending && new_self.ipc_handler
                    == old_self.ipc_handler,
                Some(StreamEvent::Error(message)) => (r matches Ok(action) ==> action is Continue)
                    && new_self.pending is Idle && IpcHandler::<R, W>::tried(
                    old_self.ipc_handler,
                    new_self.ipc_handler,
                    opt_text(id),
                    ResponseStatus::Error,
                    None,
                    Some(plain_error(INFERENCE_FAILED, message@)),
                    outcome(r),
                ),
                Some(StreamEvent::Token(token)) => exists|
                    mid: IpcHandler<R, W>,
                    w: Result<(), IpcError>,
                |
                    #![trigger Self::grown_by(old_self, new_self, token, mid, w, r)]
                    Self::grown_by(old_self, new_self, token, mid, w, r),
                _ => (r matches Ok(action) ==> action is Continue) && Self::stream_ended(
                    old_self,
                    new_self,
                    old_self.ipc_handler,
                    opt_text(id),
                    text@,
                    tokens,
                    outcome(r),
                ),
            },
            _ => r matches Ok(action) && action is Continue && new_self.pending
                == old_self.pending && new_self.ipc_handler == old_self.ipc_handler,
        }
    }

    /// What the token `token` of the running stream comes to: a report of
    /// it is made, whose writing comes to `w` and leaves the handler at
    /// `mid`; the token is added to the text and counted; the stream goes
    /// on, or ends with a report of the whole text.
    pub open spec fn grown_by(
        old_self: Self,
        new_self: Self,
        token: Token,
        mid: IpcHandler<R, W>,
        w: Result<(), IpcError>,
        r: Result<Action, IpcError>,
    ) -> bool {
        old_self.pending matches Pending::Stream { id, max_tokens, text, tokens, started } && {
            let grown = text@ + token.text@;
            let counted = count_up(tokens);
            &&& Self::succeeded(
                old_self.ipc_handler,
                mid,
                opt_text(id),
                token_json(token.text@, token.confidence),
                w,
            )
            &&& if Self::ends_after(w, max_tokens, counted) {
                (r matches Ok(action) ==> action is Continue) && Self::stream_ended(
                    old_self,
                    new_self,
                    mid,
                    opt_text(id),
                    grown,
                    counted,
                    outcome(r),
                )
            } else {
                &&& r matches Ok(action) && action is NextEvent
                &&& new_self.ipc_handler == mid
                &&& new_self.pending matches Pending::Stream {
                    id: i,
                    max_tokens: m,
                    text: t,
                    tokens: n,
                    ..
                } && opt_text(i) == opt_text(id) && m == max_tokens && t@ == grown && n == counted
            }
        }
    }

    fn end_stream(&mut self, id: Option<String>, text: String, tokens: usize, started: &std::time::Instant) -> (r:
        Result<Action, IpcError>)
        ensures
            final(self).ai_core == old(self).ai_core,
            final(self).config == old(self).config,
            final(self).ipc_handler.reader == old(self).ipc_handler.reader,
            r matches Ok(action) ==> action is Continue,
            Self::stream_ended(
                *old(self),
                *final(self),
                old(self).ipc_handler,
                opt_text(id),
                text@,
                tokens,
                outcome(r),
            ),
    {
        self.pending = Pending::Idle;
        let result = CommandResult::InferenceComplete {
            output: text,
            tokens_generated: tokens,
            inference_time_ms: elapsed_millis(started),
            model_used: "streaming_model".to_owned(),
        };
        let ghost h0 = self.ipc_handler;
        let r = self.reply_result(id, &result);
        proof {
            assert(Self::stream_result(result, text@, tokens) && Self::succeeded(
                h0,
                self.ipc_handler,
                opt_text(id),
                result_json(result),
                outcome(r),
            ));
        }
        r
    }

    /// Takes one event of the running stream, or `None` where the stream
    /// ended without a terminal event.
    pub fn on_stream_event(&mut self, event: Option<StreamEvent>) -> (r: Result<Action, IpcError>)
        requires
            old(self).wf(),
        ensures
            final(self).wf(),
            final(self).config == old(self).config,
            final(self).ipc_handler.reader == old(self).ipc_handler.reader,
            Self::streamed(*old(self), *final(self), event, r),
    {
        let mut taken = Pending::Idle;
        std::mem::swap(&mut self.pending, &mut taken);
        match taken {
            Pending::Stream { id, max_tokens, text, tokens, started } => match event {
                Some(StreamEvent::Started) => {
                    self.pending = Pending::Stream { id, max_tokens, text, tokens, started };
                    let r = Ok(Action::NextEvent);
                    assert(Self::streamed(*old(self), *self, event, r));
                    r
                },
                Some(StreamEvent::Error(message)) => {
                    let r = self.reply_error(id, INFERENCE_FAILED, message);
                    proof {
                        assert(Self::streamed(*old(self), *self, event, r));
                    }
                    r
                },
                Some(StreamEvent::Token(token)) => {
                    let ghost text0 = text@;
                    let mut grown = text;
                    grown.append(token.text.as_str());
                    let counted: usize = if tokens == usize::MAX {
                        tokens
                    } else {
                        tokens + 1
                    };
                    let payload = token_to_json(token.text.as_str(), token.confidence);
                    let sent = self.ipc_handler.send_success(clone_opt_text(&id), Some(payload));
                    let ghost mid = self.ipc_handler;
                    let ghost w: Result<(), IpcError> = sent;
                    let spent = match max_tokens {
                        Some(m) => counted >= m,
                        None => false,
                    };
                    proof {
                        assert(counted == count_up(tokens));
                        assert(grown@ == text0 + token.text@);
                        assert(old(self).pending == (Pending::Stream {
                            id,
                            max_tokens,
                            text,
                            tokens,
                            started,
                        }));
                        assert(event == Some(StreamEvent::Token(token)));
                        assert(Self::succeeded(
                            old(self).ipc_handler,
                            mid,
                            opt_text(id),
                            token_json(token.text@, token.confidence),
                            w,
                        ));
                        assert(Self::ends_after(w, max_tokens, count_up(tokens)) == (sent.is_err()
                            || spent));
                    }
                    if sent.is_err() || spent {
                        let r = self.end_stream(id, grown, counted, &started);
                        proof {
                            assert(Self::stream_ended(
                                *old(self),
                                *self,
                                mid,
                                opt_text(id),
                                text0 + token.text@,
                                count_up(tokens),
                                outcome(r),
                            ));
                            assert(self.ai_core == old(self).ai_core);
                            assert(Self::grown_by(*old(self), *self, token, mid, w, r));
                            assert(Self::streamed(*old(self), *self, event, r));
                        }
                        r
                    } else {
                        self.pending = Pending::Stream {
                            id,
                            max_tokens,
                            text: grown,
                            tokens: counted,
                            started,
                        };
                        let r = Ok(Action::NextEvent);
                        proof {
                            assert(Self::grown_by(*old(self), *self, token, mid, w, r));
                            assert(Self::streamed(*old(self), *self, event, r));
                        }
                        r
                    }
                },
                _ => {
                    let r = self.end_stream(id, text, tokens, &started);
                    proof {
                        assert(Self::streamed(*old(self), *self, event, r));
                    }
                    r
                },
            },
            other => {
                self.pending = other;
                let r = Ok(Action::Continue);
                assert(Self::streamed(*old(self), *self, event, r));
                r
            },
        }
    }

    /// What a request comes to: the command it names is executed; a
    /// request that names none is answered with an error, under the code
    /// for an unknown method or for bad parameters, and reaches no command.
    pub open spec fn dispatched(
        old_self: Self,
        new_self: Self,
        request: RequestView,
        r: Result<Action, IpcError>,
    ) -> bool {
        match command_of(request) {
            Ok(command) => Self::executed(old_self, new_self, request.id, command, r),
            Err(fault) => (r matches Ok(action) ==> action is Continue) && new_self.ai_core
                == old_self.ai_core && new_self.pending == old_self.pending && IpcHandler::<
                R,
                W,
            >::tried(
                old_self.ipc_handler,
                new_self.ipc_handler,
                request.id,
                ResponseStatus::Error,
                None,
                Some(plain_error(fault_code(fault), fault_message(fault, request.method))),
                outcome(r),
            ),
        }
    }

    /// Turns a request into its command and executes it.
    pub fn dispatch(&mut self, request: Request) -> (r: Result<Action, IpcError>)
        requires
            old(self).wf(),
        ensures
            final(self).wf(),
            final(self).config == old(self).config,
            final(self).ipc_handler.reader == old(self).ipc_handler.reader,
            Self::dispatched(*old(self), *final(self), request@, r),
    {
        match parse_command(&request) {
            Ok(command) => self.execute_command(command, &request),
            Err(e) => {
                let id = clone_opt_text(&request.id);
                let (code, message) = match e {
                    ProtocolError::InvalidCommand(text) => (ErrorInfo::METHOD_NOT_FOUND, text),
                    ProtocolError::MissingParameter(name) => (
                        ErrorInfo::INVALID_PARAMS,
                        prefixed("Missing required parameter: ", name.as_str()),
                    ),
                    ProtocolError::InvalidParameterType(name) => (
                        ErrorInfo::INVALID_PARAMS,
                        prefixed("Invalid parameter type: ", name.as_str()),
                    ),
                };
                self.reply_error(id, code, message)
            },
        }
    }

    /// The handler once a valid request was counted: nothing else has changed.
    pub open spec fn counted(old_self: Self) -> Self {
        AiService {
            ipc_handler: IpcHandler {
                request_count: count_up(old_self.ipc_handler.request_count),
                ..old_self.ipc_handler
            },
            ..old_self
        }
    }

    /// What a line comes to. A line that is no request is answered with a
    /// parse error, an invalid request with an invalid-request error, both
    /// without an id, and neither reaches a command. A valid request is
    /// counted and dispatched.
    pub open spec fn handled(
        old_self: Self,
        new_self: Self,
        line: Seq<char>,
        r: Result<Action, IpcError>,
    ) -> bool {
        match line_verdict(line) {
            LineVerdict::Malformed => (r matches Ok(action) ==> action is Continue)
                && new_self.ai_core == old_self.ai_core && new_self.pending == old_self.pending
                && Self::failed(
                old_self.ipc_handler,
                new_self.ipc_handler,
                None,
                ErrorInfo::PARSE_ERROR,
                outcome(r),
            ),
            LineVerdict::Invalid => (r matches Ok(action) ==> action is Continue)
                && new_self.ai_core == old_self.ai_core && new_self.pending == old_self.pending
                && Self::failed(
                old_self.ipc_handler,
                new_self.ipc_handler,
                None,
                ErrorInfo::INVALID_REQUEST,
                outcome(r),
            ),
            LineVerdict::Request(request) => Self::dispatched(
                Self::counted(old_self),
                new_self,
                request,
                r,
            ),
        }
    }

    /// Takes one line of input: checks it, executes the command it names
    /// and answers.
    pub fn handle_line(&mut self, line: &str) -> (r: Result<Action, IpcError>)
        requires
            old(self).wf(),
        ensures
            final(self).wf(),
            final(self).config == old(self).config,
            final(self).ipc_handler.reader == old(self).ipc_handler.reader,
            Self::handled(*old(self), *final(self), line@, r),
    {
        match self.ipc_handler.accept_line(line) {
            Ok(request) => {
                proof {
                    assert(*self == Self::counted(*old(self)));
                }
                self.dispatch(request)
            },
            Err(e) => {
                let ghost h0 = self.ipc_handler;
                proof {
                    assert(h0 == old(self).ipc_handler);
                }
                let r = self.reply_error(None, code_of_error(&e), e.to_string());
                proof {
                    assert(Self::failed(h0, self.ipc_handler, None, error_code(e), outcome(r)));
                }
                r
            },
        }
    }

    /// The session as it stands once the reader was asked for a line:
    /// nothing but the reader, and the count of its calls, has changed.
    pub open spec fn after_reading(old_self: Self, new_self: Self) -> Self {
        AiService {
            ipc_handler: IpcHandler {
                reader: new_self.ipc_handler.reader,
                reads: Ghost((old_self.ipc_handler.reads@ + 1) as nat),
                ..old_self.ipc_handler
            },
            ..old_self
        }
    }

    /// What the reader's answer comes to. A line is handled as `handled`
    /// says. The end of the input and a failure of the transport come back
    /// as they are and change nothing. Any other failure to read is
    /// answered with an error under its code, without an id.
    pub open spec fn read_handled(
        old_self: Self,
        new_self: Self,
        read: Result<String, IpcError>,
        r: Result<Action, IpcError>,
    ) -> bool {
        match read {
            Ok(line) => Self::handled(old_self, new_self, line@, r),
            Err(e) => if ends_session(e) {
                r is Err && r->Err_0 == e && new_self == old_self
            } else {
                (r matches Ok(action) ==> action is Continue) && new_self.ai_core
                    == old_self.ai_core && new_self.pending == old_self.pending && IpcHandler::<
                    R,
                    W,
                >::tried(
                    old_self.ipc_handler,
                    new_self.ipc_handler,
                    None,
                    ResponseStatus::Error,
                    None,
                    Some(plain_error(error_code(e), ipc_error_text(e))),
                    outcome(r),
                )
            },
        }
    }

    /// Takes what the reader handed back and does what it calls for.
    pub fn handle_read(&mut self, read: Result<String, IpcError>) -> (r: Result<Action, IpcError>)
        requires
            old(self).wf(),
        ensures
            final(self).wf(),
            final(self).config == old(self).config,
            final(self).ipc_handler.reader == old(self).ipc_handler.reader,
            Self::read_handled(*old(self), *final(self), read, r),
    {
        match read {
            Ok(line) => self.handle_line(line.as_str()),
            Err(e) => {
                if is_session_end(&e) {
                    Err(e)
                } else {
                    self.reply_error(None, code_of_error(&e), e.to_string())
                }
            },
        }
    }

    /// Asks the reader for one line, once, and handles what comes back as
    /// `handle_read` says: a line is checked, executed and answered; the
    /// end of the input and a failure of the transport come back as errors,
    /// for the caller to end the session on.
    pub fn process_request(&mut self) -> (r: Result<Action, IpcError>)
        requires
            old(self).wf(),
        ensures
            final(self).wf(),
            final(self).config == old(self).config,
            final(self).ipc_handler.reads@ == old(self).ipc_handler.reads@ + 1,
            exists|read: Result<String, IpcError>|
                #![trigger Self::read_handled(Self::after_reading(*old(self), *final(self)), *final(self), read, r)]
                Self::read_handled(
                    Self::after_reading(*old(self), *final(self)),
                    *final(self),
                    read,
                    r,
                ),
    {
        let read = self.ipc_handler.read_line();
        let ghost asked = *self;
        let r = self.handle_read(read);
        proof {
            assert(asked == Self::after_reading(*old(self), *self));
            assert(Self::read_handled(Self::after_reading(*old(self), *self), *self, read, r));
        }
        r
    }

    /// A request whose method is empty never reaches a command: an
    /// invalid-request error is made for it, the orchestrator is left as it
    /// was, and the session goes on where the error could be written.
    pub proof fn lemma_empty_method_is_rejected(
        old_self: Self,
        new_self: Self,
        line: Seq<char>,
        r: Result<Action, IpcError>,
    )
        requires
            Self::handled(old_self, new_self, line, r),
            json_parse(line) matches Some(j) && request_from_json(j) matches Some(request)
                && request.method.len() == 0,
        ensures
            r matches Ok(action) ==> action is Continue,
            new_self.ai_core == old_self.ai_core,
            Self::failed(
                old_self.ipc_handler,
                new_self.ipc_handler,
                None,
                ErrorInfo::INVALID_REQUEST,
                outcome(r),
            ),
    {
    }

    /// A request whose method is none of the seven known ones is answered
    /// with a method-not-found error under its own id, the orchestrator is
    /// left as it was, and the session goes on where the error could be written.
    pub proof fn lemma_unknown_method_is_reported(
        old_self: Self,
        new_self: Self,
        request: RequestView,
        r: Result<Action, IpcError>,
    )
        requires
            Self::dispatched(old_self, new_self, request, r),
            request.method != "init"@,
            request.method != "inference"@,
            request.method != "load_model"@,
            request.method != "cache_clear"@,
            request.method != "get_stats"@,
            request.method != "ping"@,
            request.method != "shutdown"@,
        ensures
            r matches Ok(action) ==> action is Continue,
            new_self.ai_core == old_self.ai_core,
            IpcHandler::<R, W>::tried(
                old_self.ipc_handler,
                new_self.ipc_handler,
                request.id,
                ResponseStatus::Error,
                None,
                Some(plain_error(ErrorInfo::METHOD_NOT_FOUND, "Unknown method: "@ + request.method)),
                outcome(r),
            ),
            r is Ok ==> IpcHandler::<R, W>::answered(
                old_self.ipc_handler,
                new_self.ipc_handler,
                request.id,
                ResponseStatus::Error,
                None,
                Some(plain_error(ErrorInfo::METHOD_NOT_FOUND, "Unknown method: "@ + request.method)),
            ),
    {
        assert(plain_error(
            ErrorInfo::METHOD_NOT_FOUND,
            fault_message(CommandFault::UnknownMethod, request.method),
        ) == plain_error(ErrorInfo::METHOD_NOT_FOUND, "Unknown method: "@ + request.method));
        IpcHandler::<R, W>::lemma_tried(
            old_self.ipc_handler,
            new_self.ipc_handler,
            request.id,
            ResponseStatus::Error,
            None,
            Some(plain_error(ErrorInfo::METHOD_NOT_FOUND, "Unknown method: "@ + request.method)),
            outcome(r),
        );
    }
}

/// The code that an error is reported under.
pub fn code_of_error(e: &IpcError) -> (code: i32)
    ensures
        code == error_code(*e),
{
    match e {
        IpcError::Json(_) => ErrorInfo::PARSE_ERROR,
        IpcError::InvalidRequest { .. } => ErrorInfo::INVALID_REQUEST,
        IpcError::InvalidResponse { .. } => ErrorInfo::INVALID_PARAMS,
        IpcError::Timeout { .. } => ErrorInfo::TIMEOUT_ERROR,
        IpcError::ProcessCommunication { .. } => ErrorInfo::PROCESS_ERROR,
        _ => ErrorInfo::INTERNAL_ERROR,
    }
}

/// The result that reports a loaded model.
pub fn load_report(model_path: &str, info: &ModelInfo, init: bool) -> (result: CommandResult)
    ensures
        if init {
            is_initialized(result, model_path@)
        } else {
            result matches CommandResult::ModelLoaded { model_path: p, model_info } && p@
                == model_path@ && info_members(
                members_view(model_info@),
                info.format@,
                info.size_bytes,
            )
        },
{
    if init {
        CommandResult::Initialized { model: model_path.to_owned(), status: "ready".to_owned() }
    } else {
        let mut model_info: Vec<(String, Json)> = Vec::new();
        model_info.push(member("format", Json::string(info.format.as_str())));
        model_info.push(member("size_bytes", Json::uint(info.size_bytes)));
        model_info.push(member("loaded_at", Json::string(info.loaded_at.as_str())));
        CommandResult::ModelLoaded { model_path: model_path.to_owned(), model_info }
    }
}

} // verus!
