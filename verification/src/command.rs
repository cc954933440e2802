//! The commands a session understands, how a request names one, and the
//! JSON form of their results.

use vstd::prelude::*;
use vstd::string::*;
use crate::errors::{prefixed, ProtocolError};
use crate::json::{json_view, members_view, Json, JsonNumber, JsonView, NumberView};
use crate::protocol::{Request, RequestView};
use crate::text::{decimal, digit_char, push_decimal, str_eq};

verus! {

/// One operation of the worker, with its parameters.
#[derive(Debug)]
pub enum Command {
    /// Prepare the service, loading `model` where one is named.
    Init { model: Option<String>, params: Option<Vec<(String, Json)>> },
    /// Complete `prompt`, at once or as a stream of tokens.
    Inference {
        prompt: String,
        max_tokens: Option<usize>,
        temperature: Option<JsonNumber>,
        stream: Option<bool>,
    },
    /// Load the model at `model_path`.
    LoadModel { model_path: String },
    /// Empty the cache of inference results.
    CacheClear,
    /// Report the counters.
    GetStats,
    /// Answer with a sign of life.
    Ping,
    /// End the session.
    Shutdown,
}

/// The mathematical value of a `Command`.
pub enum CommandView {
    Init { model: Option<Seq<char>>, params: Option<Seq<(Seq<char>, JsonView)>> },
    Inference {
        prompt: Seq<char>,
        max_tokens: Option<usize>,
        temperature: Option<NumberView>,
        stream: Option<bool>,
    },
    LoadModel { model_path: Seq<char> },
    CacheClear,
    GetStats,
    Ping,
    Shutdown,
}

impl View for Command {
    type V = CommandView;

    open spec fn view(&self) -> CommandView {
        match self {
            Command::Init { model, params } => CommandView::Init {
                model: crate::text::opt_text(*model),
                params: match params {
                    Some(p) => Some(members_view(p@)),
                    None => None,
                },
            },
            Command::Inference { prompt, max_tokens, temperature, stream } => CommandView::Inference {
                prompt: prompt@,
                max_tokens: *max_tokens,
                temperature: match temperature {
                    Some(t) => Some(t@),
                    None => None,
                },
                stream: *stream,
            },
            Command::LoadModel { model_path } => CommandView::LoadModel { model_path: model_path@ },
            Command::CacheClear => CommandView::CacheClear,
            Command::GetStats => CommandView::GetStats,
            Command::Ping => CommandView::Ping,
            Command::Shutdown => CommandView::Shutdown,
        }
    }
}

/// Why a request names no command.
pub enum CommandFault {
    /// The method is not one of the known ones.
    UnknownMethod,
    /// A required parameter, or the parameters as a whole, are absent.
    Missing(Seq<char>),
    /// A required parameter has the wrong type.
    WrongType(Seq<char>),
}

/// The parameter `key` of a request, if the request has it.
pub open spec fn param(r: RequestView, key: Seq<char>) -> Option<JsonView> {
    match r.params {
        Some(p) => p.member(key),
        None => None,
    }
}

/// The required text parameter `key` of a request.
pub open spec fn required_text(r: RequestView, key: Seq<char>) -> Result<Seq<char>, CommandFault> {
    match param(r, key) {
        Some(JsonView::Str(s)) => Ok(s),
        Some(_) => Err(CommandFault::WrongType(key)),
        None => Err(CommandFault::Missing(key)),
    }
}

/// The optional unsigned parameter `key`: absent unless it is a
/// non-negative integer that fits `usize`.
pub open spec fn optional_usize(r: RequestView, key: Seq<char>) -> Option<usize> {
    match param(r, key) {
        Some(JsonView::Number(NumberView::PosInt(n))) => if n <= usize::MAX {
            Some(n as usize)
        } else {
            None
        },
        _ => None,
    }
}

/// The command that a request names: by its method, with the parameters
/// that the method takes. Optional parameters of the wrong type count as absent.
pub open spec fn command_of(r: RequestView) -> Result<CommandView, CommandFault> {
    if r.method == "init"@ {
        Ok(
            CommandView::Init {
                model: match param(r, "model"@) {
                    Some(JsonView::Str(s)) => Some(s),
                    _ => None,
                },
                params: match param(r, "params"@) {
                    Some(JsonView::Object(members)) => Some(members),
                    _ => None,
                },
            },
        )
    } else if r.method == "inference"@ {
        match required_text(r, "prompt"@) {
            Ok(prompt) => Ok(
                CommandView::Inference {
                    prompt,
                    max_tokens: optional_usize(r, "max_tokens"@),
                    temperature: match param(r, "temperature"@) {
                        Some(JsonView::Number(n)) => Some(n),
                        _ => None,
                    },
                    stream: match param(r, "stream"@) {
                        Some(JsonView::Bool(b)) => Some(b),
                        _ => None,
                    },
                },
            ),
            Err(fault) => Err(fault),
        }
    } else if r.method == "load_model"@ {
        match required_text(r, "model_path"@) {
            Ok(model_path) => Ok(CommandView::LoadModel { model_path }),
            Err(fault) => Err(fault),
        }
    } else if r.method == "cache_clear"@ {
        Ok(CommandView::CacheClear)
    } else if r.method == "get_stats"@ {
        Ok(CommandView::GetStats)
    } else if r.method == "ping"@ {
        Ok(CommandView::Ping)
    } else if r.method == "shutdown"@ {
        Ok(CommandView::Shutdown)
    } else {
        Err(CommandFault::UnknownMethod)
    }
}

/// The error tells of the fault.
pub open spec fn error_tells(e: ProtocolError, fault: CommandFault, method: Seq<char>) -> bool {
    match fault {
        CommandFault::UnknownMethod => e matches ProtocolError::InvalidCommand(text) && text@
            == "Unknown method: "@ + method,
        CommandFault::Missing(key) => e matches ProtocolError::MissingParameter(name) && name@
            == key,
        CommandFault::WrongType(key) => e matches ProtocolError::InvalidParameterType(name)
            && name@ == key,
    }
}

fn request_param<'a>(request: &'a Request, key: &str) -> (r: Option<&'a Json>)
    ensures
        match r {
            Some(v) => param(request@, key@) == Some(v@),
            None => param(request@, key@) is None,
        },
{
    match &request.params {
        Some(p) => p.get(key),
        None => None,
    }
}

fn required_param(request: &Request, key: &str) -> (r: Result<String, ProtocolError>)
    ensures
        match r {
            Ok(s) => required_text(request@, key@) == Ok::<Seq<char>, CommandFault>(s@),
            Err(e) => required_text(request@, key@) is Err && error_tells(
                e,
                required_text(request@, key@)->Err_0,
                request@.method,
            ),
        },
{
    match request_param(request, key) {
        Some(Json::Str(s)) => Ok(s.clone()),
        Some(_) => Err(ProtocolError::InvalidParameterType(key.to_owned())),
        None => Err(ProtocolError::MissingParameter(key.to_owned())),
    }
}

/// A copy of a JSON number.
pub fn clone_number(n: &JsonNumber) -> (copy: JsonNumber)
    ensures
        copy@ == n@,
{
    match n {
        JsonNumber::PosInt(u) => JsonNumber::PosInt(*u),
        JsonNumber::NegInt(i) => JsonNumber::NegInt(*i),
        JsonNumber::Float(text) => JsonNumber::Float(text.clone()),
    }
}

fn clone_members(members: &Vec<(String, Json)>) -> (copy: Vec<(String, Json)>)
    ensures
        members_view(copy@) == members_view(members@),
{
    let mut copy: Vec<(String, Json)> = Vec::new();
    let mut i: usize = 0;
    while i < members.len()
        invariant
            i <= members.len(),
            copy@.len() == i,
            forall|k: int|
                0 <= k < i ==> (#[trigger] copy@[k]).0@ == members@[k].0@ && copy@[k].1@
                    == members@[k].1@,
        decreases members.len() - i,
    {
        copy.push((members[i].0.clone(), members[i].1.duplicate()));
        i += 1;
    }
    assert(members_view(copy@) =~= members_view(members@));
    copy
}

/// Turns a request into the command it names.
pub fn parse_command(request: &Request) -> (r: Result<Command, ProtocolError>)
    ensures
        match r {
            Ok(command) => command_of(request@) == Ok::<CommandView, CommandFault>(command@),
            Err(e) => command_of(request@) is Err && error_tells(
                e,
                command_of(request@)->Err_0,
                request@.method,
            ),
        },
{
    let method = request.method.as_str();
    if str_eq(method, "init") {
        let model: Option<String> = match request_param(request, "model") {
            Some(Json::Str(s)) => Some(s.clone()),
            _ => None,
        };
        let params: Option<Vec<(String, Json)>> = match request_param(request, "params") {
            Some(Json::Object(members)) => {
                let copy = clone_members(members);
                assert(json_view(Json::Object(*members))->Object_0 =~= members_view(members@));
                Some(copy)
            },
            _ => None,
        };
        Ok(Command::Init { model, params })
    } else if str_eq(method, "inference") {
        let prompt = match required_param(request, "prompt") {
            Ok(prompt) => prompt,
            Err(e) => {
                return Err(e);
            },
        };
        let max_tokens: Option<usize> = match request_param(request, "max_tokens") {
            Some(Json::Number(JsonNumber::PosInt(n))) => if *n <= usize::MAX as u64 {
                Some(*n as usize)
            } else {
                None
            },
            _ => None,
        };
        let temperature: Option<JsonNumber> = match request_param(request, "temperature") {
            Some(Json::Number(n)) => Some(clone_number(n)),
            _ => None,
        };
        let stream: Option<bool> = match request_param(request, "stream") {
            Some(Json::Bool(b)) => Some(*b),
            _ => None,
        };
        Ok(Command::Inference { prompt, max_tokens, temperature, stream })
    } else if str_eq(method, "load_model") {
        match required_param(request, "model_path") {
            Ok(model_path) => Ok(Command::LoadModel { model_path }),
            Err(e) => Err(e),
        }
    } else if str_eq(method, "cache_clear") {
        Ok(Command::CacheClear)
    } else if str_eq(method, "get_stats") {
        Ok(Command::GetStats)
    } else if str_eq(method, "ping") {
        Ok(Command::Ping)
    } else if str_eq(method, "shutdown") {
        Ok(Command::Shutdown)
    } else {
        Err(ProtocolError::InvalidCommand(prefixed("Unknown method: ", method)))
    }
}

/// What a command came to.
#[derive(Debug)]
pub enum CommandResult {
    Initialized { model: String, status: String },
    InferenceComplete {
        output: String,
        tokens_generated: usize,
        inference_time_ms: u64,
        model_used: String,
    },
    /// One token of a stream, with its confidence in hundredths.
    StreamToken { token: String, confidence: Option<u32> },
    ModelLoaded { model_path: String, model_info: Vec<(String, Json)> },
    CacheCleared { entries_removed: usize },
    Stats { ipc: Vec<(String, Json)>, ai_core: Vec<(String, Json)>, uptime_seconds: u64 },
    Pong { message: String, timestamp: String },
    ShutdownComplete,
}

/// A whole number as a JSON value.
pub open spec fn json_uint(n: nat) -> JsonView {
    JsonView::Number(NumberView::PosInt(n as u64))
}

/// A number of hundredths as decimal text, such as `0.95`.
pub open spec fn hundredths_text(c: nat) -> Seq<char> {
    decimal(c / 100) + "."@ + seq![digit_char((c / 10) % 10), digit_char(c % 10)]
}

/// A confidence as a JSON value: its decimal text as a number, or `null`.
pub open spec fn confidence_json(confidence: Option<u32>) -> JsonView {
    match confidence {
        Some(c) => JsonView::Number(NumberView::Float(hundredths_text(c as nat))),
        None => JsonView::Null,
    }
}

/// An object with the single member `name`.
pub open spec fn tagged(name: Seq<char>, body: Seq<(Seq<char>, JsonView)>) -> JsonView {
    JsonView::Object(seq![(name, JsonView::Object(body))])
}

/// The JSON form of a result: an object named after the variant that holds
/// the variant's fields; the end of the session is a status instead.
pub open spec fn result_json(r: CommandResult) -> JsonView {
    match r {
        CommandResult::Initialized { model, status } => tagged(
            "Initialized"@,
            seq![("model"@, JsonView::Str(model@)), ("status"@, JsonView::Str(status@))],
        ),
        CommandResult::InferenceComplete {
            output,
            tokens_generated,
            inference_time_ms,
            model_used,
        } => tagged(
            "InferenceComplete"@,
            seq![
                ("output"@, JsonView::Str(output@)),
                ("tokens_generated"@, json_uint(tokens_generated as nat)),
                ("inference_time_ms"@, json_uint(inference_time_ms as nat)),
                ("model_used"@, JsonView::Str(model_used@)),
            ],
        ),
        CommandResult::StreamToken { token, confidence } => tagged(
            "StreamToken"@,
            seq![("token"@, JsonView::Str(token@)), ("confidence"@, confidence_json(confidence))],
        ),
        CommandResult::ModelLoaded { model_path, model_info } => tagged(
            "ModelLoaded"@,
            seq![
                ("model_path"@, JsonView::Str(model_path@)),
                ("model_info"@, JsonView::Object(members_view(model_info@))),
            ],
        ),
        CommandResult::CacheCleared { entries_removed } => tagged(
            "CacheCleared"@,
            seq![("entries_removed"@, json_uint(entries_removed as nat))],
        ),
        CommandResult::Stats { ipc, ai_core, uptime_seconds } => tagged(
            "Stats"@,
            seq![
                ("ipc"@, JsonView::Object(members_view(ipc@))),
                ("ai_core"@, JsonView::Object(members_view(ai_core@))),
                ("uptime_seconds"@, json_uint(uptime_seconds as nat)),
            ],
        ),
        CommandResult::Pong { message, timestamp } => tagged(
            "Pong"@,
            seq![("message"@, JsonView::Str(message@)), ("timestamp"@, JsonView::Str(timestamp@))],
        ),
        CommandResult::ShutdownComplete => JsonView::Object(
            seq![("status"@, JsonView::Str("shutdown_complete"@))],
        ),
    }
}

fn field(name: &str, value: Json) -> (m: (String, Json))
    ensures
        m.0@ == name@,
        m.1 == value,
{
    (name.to_owned(), value)
}

fn tag(name: &str, body: Vec<(String, Json)>) -> (j: Json)
    ensures
        j@ == tagged(name@, members_view(body@)),
{
    let mut outer: Vec<(String, Json)> = Vec::new();
    outer.push(field(name, Json::object(body)));
    let j = Json::object(outer);
    assert(j@->Object_0 =~= seq![(name@, JsonView::Object(members_view(body@)))]);
    j
}

/// A confidence as a JSON value.
pub fn confidence_to_json(confidence: Option<u32>) -> (j: Json)
    ensures
        j@ == confidence_json(confidence),
{
    match confidence {
        Some(c) => {
            let mut text = String::new();
            push_decimal(&mut text, (c / 100) as u64);
            text.append(".");
            let tens: u8 = ((c / 10) % 10) as u8;
            let ones: u8 = (c % 10) as u8;
            text.push((48u8 + tens) as char);
            text.push((48u8 + ones) as char);
            assert(text@ =~= hundredths_text(c as nat));
            Json::Number(JsonNumber::Float(text))
        },
        None => Json::Null,
    }
}

/// The JSON form of a result.
pub fn result_to_json(result: &CommandResult) -> (j: Json)
    ensures
        j@ == result_json(*result),
{
    let mut body: Vec<(String, Json)> = Vec::new();
    match result {
        CommandResult::Initialized { model, status } => {
            body.push(field("model", Json::string(model.as_str())));
            body.push(field("status", Json::string(status.as_str())));
            let j = tag("Initialized", body);
            assert(members_view(body@) =~= seq![
                ("model"@, JsonView::Str(model@)),
                ("status"@, JsonView::Str(status@)),
            ]);
            j
        },
        CommandResult::InferenceComplete {
            output,
            tokens_generated,
            inference_time_ms,
            model_used,
        } => {
            body.push(field("output", Json::string(output.as_str())));
            body.push(field("tokens_generated", Json::uint(*tokens_generated as u64)));
            body.push(field("inference_time_ms", Json::uint(*inference_time_ms)));
            body.push(field("model_used", Json::string(model_used.as_str())));
            let j = tag("InferenceComplete", body);
            assert(members_view(body@) =~= seq![
                ("output"@, JsonView::Str(output@)),
                ("tokens_generated"@, json_uint(*tokens_generated as nat)),
                ("inference_time_ms"@, json_uint(*inference_time_ms as nat)),
                ("model_used"@, JsonView::Str(model_used@)),
            ]);
            j
        },
        CommandResult::StreamToken { token, confidence } => {
            body.push(field("token", Json::string(token.as_str())));
            body.push(field("confidence", confidence_to_json(*confidence)));
            let j = tag("StreamToken", body);
            assert(members_view(body@) =~= seq![
                ("token"@, JsonView::Str(token@)),
                ("confidence"@, confidence_json(*confidence)),
            ]);
            j
        },
        CommandResult::ModelLoaded { model_path, model_info } => {
            body.push(field("model_path", Json::string(model_path.as_str())));
            body.push(field("model_info", Json::object(clone_members(model_info))));
            let j = tag("ModelLoaded", body);
            assert(members_view(body@) =~= seq![
                ("model_path"@, JsonView::Str(model_path@)),
                ("model_info"@, JsonView::Object(members_view(model_info@))),
            ]);
            j
        },
        CommandResult::CacheCleared { entries_removed } => {
            body.push(field("entries_removed", Json::uint(*entries_removed as u64)));
            let j = tag("CacheCleared", body);
            assert(members_view(body@) =~= seq![
                ("entries_removed"@, json_uint(*entries_removed as nat)),
            ]);
            j
        },
        CommandResult::Stats { ipc, ai_core, uptime_seconds } => {
            body.push(field("ipc", Json::object(clone_members(ipc))));
            body.push(field("ai_core", Json::object(clone_members(ai_core))));
            body.push(field("uptime_seconds", Json::uint(*uptime_seconds)));
            let j = tag("Stats", body);
            assert(members_view(body@) =~= seq![
                ("ipc"@, JsonView::Object(members_view(ipc@))),
                ("ai_core"@, JsonView::Object(members_view(ai_core@))),
                ("uptime_seconds"@, json_uint(*uptime_seconds as nat)),
            ]);
            j
        },
        CommandResult::Pong { message, timestamp } => {
            body.push(field("message", Json::string(message.as_str())));
            body.push(field("timestamp", Json::string(timestamp.as_str())));
            let j = tag("Pong", body);
            assert(members_view(body@) =~= seq![
                ("message"@, JsonView::Str(message@)),
                ("timestamp"@, JsonView::Str(timestamp@)),
            ]);
            j
        },
        CommandResult::ShutdownComplete => {
            body.push(field("status", Json::string("shutdown_complete")));
            let j = Json::object(body);
            assert(members_view(body@) =~= seq![
                ("status"@, JsonView::Str("shutdown_complete"@)),
            ]);
            j
        },
    }
}

} // verus!
