//! Error taxonomy of the worker: one enum for the model/inference core and one
//! for the line protocol.

use vstd::prelude::*;
use vstd::string::*;

verus! {

/// Failures of the model, cache, inference and streaming components.
#[derive(Debug)]
pub enum AiCoreError {
    /// A model could not be loaded or initialised.
    ModelLoad { message: String },
    /// The inference backend failed.
    Inference { message: String },
    /// A streaming session failed.
    Streaming { message: String },
    /// The cache layer failed; also raised when a content digest does not match.
    Cache { message: String },
    /// A configuration value or an argument was rejected.
    InvalidArgument { message: String },
    /// A model, file or key does not exist.
    NotFound { what: String },
    /// The operation or format is not supported.
    Unsupported { what: String },
    /// A deadline passed.
    Timeout,
    /// The operation was cancelled.
    Canceled,
    /// Inference was asked for before any model was loaded.
    ModelNotLoaded,
    /// An input/output failure, with the text of the underlying error.
    Io(String),
    /// A JSON (de)serialization failure, with the text of the underlying error.
    Json(String),
    /// A YAML (de)serialization failure, with the text of the underlying error.
    Yaml(String),
    /// Bytes that are not valid UTF-8.
    Utf8(String),
    /// The receiving side of a channel is gone.
    ChannelSend(String),
    /// The sending side of a channel is gone.
    ChannelRecv(String),
    /// A unit of concurrency could not be started.
    Spawn(String),
    /// A unit of concurrency could not be joined.
    Join(String),
    /// Anything else: a message and, where known, the text of the cause.
    Other { message: String, source: Option<String> },
}

/// The text that `AiCoreError::to_string` renders, over views.
pub open spec fn core_error_text(e: AiCoreError) -> Seq<char> {
    match e {
        AiCoreError::ModelLoad { message } => "model load error: "@ + message@,
        AiCoreError::Inference { message } => "inference error: "@ + message@,
        AiCoreError::Streaming { message } => "streaming error: "@ + message@,
        AiCoreError::Cache { message } => "cache error: "@ + message@,
        AiCoreError::InvalidArgument { message } => "invalid argument: "@ + message@,
        AiCoreError::NotFound { what } => "not found: "@ + what@,
        AiCoreError::Unsupported { what } => "unsupported operation: "@ + what@,
        AiCoreError::Timeout => "operation timed out"@,
        AiCoreError::Canceled => "operation cancelled"@,
        AiCoreError::ModelNotLoaded => "no model loaded"@,
        AiCoreError::Io(text) => "io error: "@ + text@,
        AiCoreError::Json(text) => "json error: "@ + text@,
        AiCoreError::Yaml(text) => "yaml error: "@ + text@,
        AiCoreError::Utf8(text) => "utf8 error: "@ + text@,
        AiCoreError::ChannelSend(text) => "channel send error: "@ + text@,
        AiCoreError::ChannelRecv(text) => "channel recv error: "@ + text@,
        AiCoreError::Spawn(text) => "spawn error: "@ + text@,
        AiCoreError::Join(text) => "join error: "@ + text@,
        AiCoreError::Other { message, source } => message@,
    }
}

/// Joins a fixed prefix and a detail into one owned text.
pub fn prefixed(prefix: &str, detail: &str) -> (text: String)
    ensures
        text@ == prefix@ + detail@,
{
    let mut text: String = prefix.to_owned();
    text.append(detail);
    text
}

/// Three texts joined into one owned text.
pub fn concat3_owned(a: &str, b: &str, c: &str) -> (text: String)
    ensures
        text@ == a@ + b@ + c@,
{
    let mut text: String = a.to_owned();
    text.append(b);
    text.append(c);
    text
}

impl AiCoreError {
    /// Whether a caller may treat the failure as transient.
    pub open spec fn retryable(self) -> bool {
        self is Timeout || self is Canceled || self is ChannelSend || self is ChannelRecv
    }

    /// A catch-all error that carries `message` and the text of its cause.
    pub fn with_context(message: &str, source: &str) -> (e: Self)
        ensures
            e matches AiCoreError::Other { message: m, source: Some(s) } && m@ == message@ && s@
                == source@,
    {
        AiCoreError::Other { message: message.to_owned(), source: Some(source.to_owned()) }
    }

    /// Whether a caller may treat the failure as transient.
    pub fn is_retryable(&self) -> (r: bool)
        ensures
            r == self.retryable(),
    {
        match self {
            AiCoreError::Timeout => true,
            AiCoreError::Canceled => true,
            AiCoreError::ChannelSend(_) => true,
            AiCoreError::ChannelRecv(_) => true,
            _ => false,
        }
    }

    pub fn model_load(msg: &str) -> (e: Self)
        ensures
            e matches AiCoreError::ModelLoad { message } && message@ == msg@,
    {
        AiCoreError::ModelLoad { message: msg.to_owned() }
    }

    pub fn inference(msg: &str) -> (e: Self)
        ensures
            e matches AiCoreError::Inference { message } && message@ == msg@,
    {
        AiCoreError::Inference { message: msg.to_owned() }
    }

    pub fn streaming(msg: &str) -> (e: Self)
        ensures
            e matches AiCoreError::Streaming { message } && message@ == msg@,
    {
        AiCoreError::Streaming { message: msg.to_owned() }
    }

    pub fn cache(msg: &str) -> (e: Self)
        ensures
            e matches AiCoreError::Cache { message } && message@ == msg@,
    {
        AiCoreError::Cache { message: msg.to_owned() }
    }

    pub fn invalid_arg(msg: &str) -> (e: Self)
        ensures
            e matches AiCoreError::InvalidArgument { message } && message@ == msg@,
    {
        AiCoreError::InvalidArgument { message: msg.to_owned() }
    }

    pub fn not_found(what: &str) -> (e: Self)
        ensures
            e matches AiCoreError::NotFound { what: w } && w@ == what@,
    {
        AiCoreError::NotFound { what: what.to_owned() }
    }

    pub fn unsupported(what: &str) -> (e: Self)
        ensures
            e matches AiCoreError::Unsupported { what: w } && w@ == what@,
    {
        AiCoreError::Unsupported { what: what.to_owned() }
    }

    pub fn timeout() -> (e: Self)
        ensures
            e is Timeout,
    {
        AiCoreError::Timeout
    }

    pub fn canceled() -> (e: Self)
        ensures
            e is Canceled,
    {
        AiCoreError::Canceled
    }

    /// The human-readable rendering of the error.
    pub fn to_string(&self) -> (text: String)
        ensures
            text@ == core_error_text(*self),
    {
        match self {
            AiCoreError::ModelLoad { message } => prefixed("model load error: ", message.as_str()),
            AiCoreError::Inference { message } => prefixed("inference error: ", message.as_str()),
            AiCoreError::Streaming { message } => prefixed("streaming error: ", message.as_str()),
            AiCoreError::Cache { message } => prefixed("cache error: ", message.as_str()),
            AiCoreError::InvalidArgument { message } => prefixed(
                "invalid argument: ",
                message.as_str(),
            ),
            AiCoreError::NotFound { what } => prefixed("not found: ", what.as_str()),
            AiCoreError::Unsupported { what } => prefixed("unsupported operation: ", what.as_str()),
            AiCoreError::Timeout => "operation timed out".to_owned(),
            AiCoreError::Canceled => "operation cancelled".to_owned(),
            AiCoreError::ModelNotLoaded => "no model loaded".to_owned(),
            AiCoreError::Io(text) => prefixed("io error: ", text.as_str()),
            AiCoreError::Json(text) => prefixed("json error: ", text.as_str()),
            AiCoreError::Yaml(text) => prefixed("yaml error: ", text.as_str()),
            AiCoreError::Utf8(text) => prefixed("utf8 error: ", text.as_str()),
            AiCoreError::ChannelSend(text) => prefixed("channel send error: ", text.as_str()),
            AiCoreError::ChannelRecv(text) => prefixed("channel recv error: ", text.as_str()),
            AiCoreError::Spawn(text) => prefixed("spawn error: ", text.as_str()),
            AiCoreError::Join(text) => prefixed("join error: ", text.as_str()),
            AiCoreError::Other { message, source } => message.clone(),
        }
    }
}

/// Attaches a message to the failure of a fallible step.
pub trait Context<T> {
    fn with_context(self, msg: &str) -> (r: Result<T, AiCoreError>);
}

impl<T> Context<T> for Result<T, String> {
    fn with_context(self, msg: &str) -> (r: Result<T, AiCoreError>)
        ensures
            match self {
                Ok(v) => r == Ok::<T, AiCoreError>(v),
                Err(cause) => r matches Err(AiCoreError::Other { message, source: Some(s) })
                    && message@ == msg@ && s@ == cause@,
            },
    {
        match self {
            Ok(v) => Ok(v),
            Err(cause) => Err(AiCoreError::with_context(msg, cause.as_str())),
        }
    }
}

/// Failures of the line protocol and of the session around it.
#[derive(Debug)]
pub enum IpcError {
    /// The transport failed, with the text of the underlying error.
    Io(String),
    /// A line was not valid JSON, or a value could not be rendered as JSON.
    Json(String),
    /// A request violates the protocol's rules.
    InvalidRequest { message: String },
    /// A response violates the protocol's rules.
    InvalidResponse { message: String },
    /// A line violates the framing rules.
    Protocol { message: String },
    /// A deadline passed.
    Timeout { message: String },
    /// The peer is gone or the stream ended.
    ProcessCommunication { message: String },
}

/// The text that `IpcError::to_string` renders, over views.
pub open spec fn ipc_error_text(e: IpcError) -> Seq<char> {
    match e {
        IpcError::Io(text) => "io error: "@ + text@,
        IpcError::Json(text) => "json error: "@ + text@,
        IpcError::InvalidRequest { message } => "invalid request: "@ + message@,
        IpcError::InvalidResponse { message } => "invalid response: "@ + message@,
        IpcError::Protocol { message } => "protocol error: "@ + message@,
        IpcError::Timeout { message } => "timeout: "@ + message@,
        IpcError::ProcessCommunication { message } => "process communication error: "@
            + message@,
    }
}

impl IpcError {
    pub fn invalid_request(msg: &str) -> (e: Self)
        ensures
            e matches IpcError::InvalidRequest { message } && message@ == msg@,
    {
        IpcError::InvalidRequest { message: msg.to_owned() }
    }

    pub fn invalid_response(msg: &str) -> (e: Self)
        ensures
            e matches IpcError::InvalidResponse { message } && message@ == msg@,
    {
        IpcError::InvalidResponse { message: msg.to_owned() }
    }

    pub fn protocol(msg: &str) -> (e: Self)
        ensures
            e matches IpcError::Protocol { message } && message@ == msg@,
    {
        IpcError::Protocol { message: msg.to_owned() }
    }

    pub fn timeout(msg: &str) -> (e: Self)
        ensures
            e matches IpcError::Timeout { message } && message@ == msg@,
    {
        IpcError::Timeout { message: msg.to_owned() }
    }

    pub fn process_communication(msg: &str) -> (e: Self)
        ensures
            e matches IpcError::ProcessCommunication { message } && message@ == msg@,
    {
        IpcError::ProcessCommunication { message: msg.to_owned() }
    }

    /// The human-readable rendering of the error.
    pub fn to_string(&self) -> (text: String)
        ensures
            text@ == ipc_error_text(*self),
    {
        match self {
            IpcError::Io(text) => prefixed("io error: ", text.as_str()),
            IpcError::Json(text) => prefixed("json error: ", text.as_str()),
            IpcError::InvalidRequest { message } => prefixed("invalid request: ", message.as_str()),
            IpcError::InvalidResponse { message } => prefixed(
                "invalid response: ",
                message.as_str(),
            ),
            IpcError::Protocol { message } => prefixed("protocol error: ", message.as_str()),
            IpcError::Timeout { message } => prefixed("timeout: ", message.as_str()),
            IpcError::ProcessCommunication { message } => prefixed(
                "process communication error: ",
                message.as_str(),
            ),
        }
    }
}

/// Failures while turning a request into a command.
#[derive(Debug)]
pub enum ProtocolError {
    InvalidCommand(String),
    MissingParameter(String),
    InvalidParameterType(String),
}

} // verus!
