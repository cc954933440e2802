//! The wire protocol: requests, responses, commands and their results, the
//! rules they must meet, and their JSON form.

use vstd::prelude::*;
use vstd::string::*;
use crate::clock::timestamp_now;
use crate::errors::{concat3_owned, IpcError};
use crate::json::{
    json_int, json_of_i64, json_of_opt, json_of_opt_pairs, json_of_opt_text,
    all_texts, json_opt, json_opt_pairs, json_opt_text, json_pairs, opt_ref_view, pairs_field, read_pairs_field,
    read_text_field, read_value_field, text_field, value_field, Json, JsonNumber, JsonView,
    NumberView,
};
use crate::text::{alphanumeric, first_value, lemma_first_value_at, opt_pairs, opt_text, str_eq};

verus! {

/// A message from the host to the worker.
#[derive(Debug)]
pub struct Request {
    /// The correlation id that the response carries back.
    pub id: Option<String>,
    /// The name of the operation.
    pub method: String,
    /// The operation's parameters.
    pub params: Option<Json>,
    /// When the request was made, as RFC 3339 text.
    pub timestamp: Option<String>,
    pub metadata: Option<Vec<(String, String)>>,
}

/// What a response reports.
#[derive(Clone, Copy, Debug, PartialEq, Eq, Structural)]
pub enum ResponseStatus {
    Success,
    Error,
    Ready,
    Processing,
}

/// The details of a failure.
#[derive(Debug)]
pub struct ErrorInfo {
    /// A code from the registry of error codes.
    pub code: i32,
    pub message: String,
    pub data: Option<Json>,
}

/// A message from the worker to the host.
#[derive(Debug)]
pub struct Response {
    /// The correlation id of the request this answers.
    pub id: Option<String>,
    pub status: ResponseStatus,
    /// The outcome of a success.
    pub result: Option<Json>,
    /// The details of an error.
    pub error: Option<ErrorInfo>,
    /// When the response was made, as RFC 3339 text.
    pub timestamp: Option<String>,
    pub metadata: Option<Vec<(String, String)>>,
}

/// The mathematical value of a `Request`.
pub struct RequestView {
    pub id: Option<Seq<char>>,
    pub method: Seq<char>,
    pub params: Option<JsonView>,
    pub timestamp: Option<Seq<char>>,
    pub metadata: Option<Seq<(Seq<char>, Seq<char>)>>,
}

/// The mathematical value of an `ErrorInfo`.
pub struct ErrorInfoView {
    pub code: i32,
    pub message: Seq<char>,
    pub data: Option<JsonView>,
}

/// The mathematical value of a `Response`.
pub struct ResponseView {
    pub id: Option<Seq<char>>,
    pub status: ResponseStatus,
    pub result: Option<JsonView>,
    pub error: Option<ErrorInfoView>,
    pub timestamp: Option<Seq<char>>,
    pub metadata: Option<Seq<(Seq<char>, Seq<char>)>>,
}

/// The value of an optional JSON value.
pub open spec fn opt_json(o: Option<Json>) -> Option<JsonView> {
    match o {
        Some(j) => Some(j@),
        None => None,
    }
}

impl View for Request {
    type V = RequestView;

    open spec fn view(&self) -> RequestView {
        RequestView {
            id: opt_text(self.id),
            method: self.method@,
            params: opt_json(self.params),
            timestamp: opt_text(self.timestamp),
            metadata: opt_pairs(self.metadata),
        }
    }
}

impl View for ErrorInfo {
    type V = ErrorInfoView;

    open spec fn view(&self) -> ErrorInfoView {
        ErrorInfoView { code: self.code, message: self.message@, data: opt_json(self.data) }
    }
}

impl View for Response {
    type V = ResponseView;

    open spec fn view(&self) -> ResponseView {
        ResponseView {
            id: opt_text(self.id),
            status: self.status,
            result: opt_json(self.result),
            error: match self.error {
                Some(e) => Some(e@),
                None => None,
            },
            timestamp: opt_text(self.timestamp),
            metadata: opt_pairs(self.metadata),
        }
    }
}

/// A method name may hold letters, numbers and underscores.
pub open spec fn method_char(c: char) -> bool {
    alphanumeric(c) || c == '_'
}

/// Every character of the name is allowed in a method name.
pub open spec fn method_chars(method: Seq<char>) -> bool {
    forall|i: int| 0 <= i < method.len() ==> method_char(#[trigger] method[i])
}

/// A request is valid when its method is not empty and holds only the
/// allowed characters.
pub open spec fn valid_method(method: Seq<char>) -> bool {
    method.len() > 0 && method_chars(method)
}

/// A response is valid when its payload fits its status: a success has no
/// error; an error has its details and no result; the signals that the
/// worker is ready and that work has begun carry neither.
pub open spec fn valid_response(r: ResponseView) -> bool {
    match r.status {
        ResponseStatus::Success => r.error is None,
        ResponseStatus::Error => r.error is Some && r.result is None,
        ResponseStatus::Ready => r.result is None && r.error is None,
        ResponseStatus::Processing => r.result is None && r.error is None,
    }
}

/// What is said of a response that breaks the rules: the first rule it
/// breaks, by its status.
pub open spec fn invalid_response_text(r: ResponseView) -> Seq<char> {
    match r.status {
        ResponseStatus::Success => "success response cannot have error"@,
        ResponseStatus::Error => if r.error is None {
            "error response must have error info"@
        } else {
            "error response cannot have result"@
        },
        ResponseStatus::Ready => if r.result is Some {
            "ready response cannot have result"@
        } else {
            "ready response cannot have error"@
        },
        ResponseStatus::Processing => if r.result is Some {
            "processing response cannot have result"@
        } else {
            "processing response cannot have error"@
        },
    }
}

proof fn lemma_method_chars_push(s: Seq<char>, c: char)
    ensures
        method_chars(s.push(c)) == (method_chars(s) && method_char(c)),
{
    let t = s.push(c);
    if method_chars(t) {
        assert(t[s.len() as int] == c);
        assert forall|i: int| 0 <= i < s.len() implies method_char(#[trigger] s[i]) by {
            assert(t[i] == s[i]);
        }
    }
    if method_chars(s) && method_char(c) {
        assert forall|i: int| 0 <= i < t.len() implies method_char(#[trigger] t[i]) by {
            if i < s.len() {
                assert(t[i] == s[i]);
            }
        }
    }
}

impl Request {
    /// A request made now, without metadata.
    pub fn new(id: Option<String>, method: String, params: Option<Json>) -> (r: Self)
        ensures
            r.id == id,
            r.method == method,
            r.params == params,
            r.timestamp is Some,
            r.metadata is None,
    {
        Request { id, method, params, timestamp: Some(timestamp_now()), metadata: None }
    }

    /// Checks the method name: it must not be empty and may hold only
    /// letters, numbers and underscores.
    #[verifier::loop_isolation(false)]
    pub fn validate(&self) -> (r: Result<(), IpcError>)
        ensures
            match r {
                Ok(_) => valid_method(self.method@),
                Err(e) => e matches IpcError::InvalidRequest { message } && !valid_method(
                    self.method@,
                ) && message@ == (if self.method@.len() == 0 {
                    "method cannot be empty"@
                } else {
                    "invalid method name format"@
                }),
            },
    {
        broadcast use vstd::string::group_string_axioms;

        let method = self.method.as_str();
        let mut seen: bool = false;
        let mut clean: bool = true;
        for c in it: method.chars()
            invariant
                it.seq() == method@,
                seen == (it.index() > 0),
                clean == method_chars(method@.take(it.index())),
        {
            proof {
                assert(method@.take(it.index() + 1) == method@.take(it.index()).push(c));
                lemma_method_chars_push(method@.take(it.index()), c);
            }
            seen = true;
            clean = clean && (c.is_alphanumeric() || c == '_');
        }
        proof {
            assert(method@.take(method@.len() as int) == method@);
        }
        if !seen {
            return Err(IpcError::invalid_request("method cannot be empty"));
        }
        if !clean {
            return Err(IpcError::invalid_request("invalid method name format"));
        }
        Ok(())
    }

    /// The parameter named `key`.
    pub fn get_param(&self, key: &str) -> (r: Result<&Json, IpcError>)
        ensures
            match r {
                Ok(v) => self@.params matches Some(p) && p.member(key@) == Some(v@),
                Err(e) => e matches IpcError::InvalidRequest { message } && (match self@.params {
                    None => message@ == "no parameters provided"@,
                    Some(p) => p.member(key@) is None && message@ == "parameter '"@ + key@
                        + "' not found"@,
                }),
            },
    {
        match &self.params {
            None => Err(IpcError::invalid_request("no parameters provided")),
            Some(p) => match p.get(key) {
                Some(v) => Ok(v),
                None => Err(
                    IpcError::InvalidRequest {
                        message: concat3_owned("parameter '", key, "' not found"),
                    },
                ),
            },
        }
    }

    /// The text parameter named `key`.
    pub fn get_param_string(&self, key: &str) -> (r: Result<String, IpcError>)
        ensures
            match r {
                Ok(s) => self@.params matches Some(p) && p.member(key@) == Some(JsonView::Str(s@)),
                Err(e) => e is InvalidRequest && !(self@.params matches Some(p) && p.member(key@) matches Some(
                    JsonView::Str(_),
                )),
            },
    {
        match self.get_param(key) {
            Ok(v) => match v.as_str() {
                Some(s) => Ok(s.to_owned()),
                None => Err(
                    IpcError::InvalidRequest {
                        message: concat3_owned("invalid parameter '", key, "': expected a string"),
                    },
                ),
            },
            Err(e) => Err(e),
        }
    }
}

impl ErrorInfo {
    /// The line was not valid JSON.
    pub const PARSE_ERROR: i32 = -32700;

    /// The request failed validation.
    pub const INVALID_REQUEST: i32 = -32600;

    /// The method is not known.
    pub const METHOD_NOT_FOUND: i32 = -32601;

    /// The parameters are missing or of the wrong type.
    pub const INVALID_PARAMS: i32 = -32602;

    /// Any other failure inside the worker.
    pub const INTERNAL_ERROR: i32 = -32603;

    /// A deadline passed.
    pub const TIMEOUT_ERROR: i32 = -32001;

    /// The peer is gone or the stream broke.
    pub const PROCESS_ERROR: i32 = -32002;

    pub fn new(code: i32, message: String) -> (e: Self)
        ensures
            e.code == code,
            e.message == message,
            e.data is None,
    {
        ErrorInfo { code, message, data: None }
    }

    pub fn with_data(code: i32, message: String, data: Json) -> (e: Self)
        ensures
            e.code == code,
            e.message == message,
            e.data == Some(data),
    {
        ErrorInfo { code, message, data: Some(data) }
    }
}

impl Response {
    /// A success made now, with its result.
    pub fn success(id: Option<String>, result: Option<Json>) -> (r: Self)
        ensures
            r.id == id,
            r.status == ResponseStatus::Success,
            r.result == result,
            r.error is None,
            r.timestamp is Some,
            r.metadata is None,
            valid_response(r@),
    {
        Response {
            id,
            status: ResponseStatus::Success,
            result,
            error: None,
            timestamp: Some(timestamp_now()),
            metadata: None,
        }
    }

    /// An error made now, with its code and message.
    pub fn error(id: Option<String>, code: i32, message: String) -> (r: Self)
        ensures
            r.id == id,
            r.status == ResponseStatus::Error,
            r.result is None,
            r.error matches Some(e) && e.code == code && e.message == message && e.data is None,
            r.timestamp is Some,
            r.metadata is None,
            valid_response(r@),
    {
        Response {
            id,
            status: ResponseStatus::Error,
            result: None,
            error: Some(ErrorInfo { code, message, data: None }),
            timestamp: Some(timestamp_now()),
            metadata: None,
        }
    }

    /// The signal that the worker is ready, made now.
    pub fn ready() -> (r: Self)
        ensures
            r.id is None,
            r.status == ResponseStatus::Ready,
            r.result is None,
            r.error is None,
            r.timestamp is Some,
            r.metadata is None,
            valid_response(r@),
    {
        Response {
            id: None,
            status: ResponseStatus::Ready,
            result: None,
            error: None,
            timestamp: Some(timestamp_now()),
            metadata: None,
        }
    }

    /// The signal that work on a request has begun, made now.
    pub fn processing(id: Option<String>) -> (r: Self)
        ensures
            r.id == id,
            r.status == ResponseStatus::Processing,
            r.result is None,
            r.error is None,
            r.timestamp is Some,
            r.metadata is None,
            valid_response(r@),
    {
        Response {
            id,
            status: ResponseStatus::Processing,
            result: None,
            error: None,
            timestamp: Some(timestamp_now()),
            metadata: None,
        }
    }

    /// Checks that the payload fits the status, and says which rule is
    /// broken where it does not.
    pub fn validate(&self) -> (r: Result<(), IpcError>)
        ensures
            match r {
                Ok(_) => valid_response(self@),
                Err(e) => e matches IpcError::InvalidResponse { message } && !valid_response(self@)
                    && message@ == invalid_response_text(self@),
            },
    {
        match self.status {
            ResponseStatus::Success => {
                if self.error.is_some() {
                    return Err(IpcError::invalid_response("success response cannot have error"));
                }
            },
            ResponseStatus::Error => {
                if self.error.is_none() {
                    return Err(IpcError::invalid_response("error response must have error info"));
                }
                if self.result.is_some() {
                    return Err(IpcError::invalid_response("error response cannot have result"));
                }
            },
            ResponseStatus::Ready => {
                if self.result.is_some() {
                    return Err(IpcError::invalid_response("ready response cannot have result"));
                }
                if self.error.is_some() {
                    return Err(IpcError::invalid_response("ready response cannot have error"));
                }
            },
            ResponseStatus::Processing => {
                if self.result.is_some() {
                    return Err(
                        IpcError::invalid_response("processing response cannot have result"),
                    );
                }
                if self.error.is_some() {
                    return Err(IpcError::invalid_response("processing response cannot have error"));
                }
            },
        }
        Ok(())
    }
}

/// The JSON form of a request: an object of its five fields, absent ones `null`.
pub open spec fn request_to_json(r: RequestView) -> JsonView {
    JsonView::Object(
        seq![
            ("id"@, json_opt_text(r.id)),
            ("method"@, JsonView::Str(r.method)),
            ("params"@, json_opt(r.params)),
            ("timestamp"@, json_opt_text(r.timestamp)),
            ("metadata"@, json_opt_pairs(r.metadata)),
        ],
    )
}

/// The request that a JSON value stands for: an object with a text
/// `method` and, where present and not `null`, a text `id`, a text
/// `timestamp`, an object of texts `metadata` and any `params`. Other
/// members are ignored. Anything else stands for no request.
pub open spec fn request_from_json(j: JsonView) -> Option<RequestView> {
    match (
        j,
        text_field(j.member("id"@)),
        j.member("method"@),
        text_field(j.member("timestamp"@)),
        pairs_field(j.member("metadata"@)),
    ) {
        (
            JsonView::Object(_),
            Some(id),
            Some(JsonView::Str(method)),
            Some(timestamp),
            Some(metadata),
        ) => Some(
            RequestView { id, method, params: value_field(j.member("params"@)), timestamp, metadata },
        ),
        _ => None,
    }
}

/// The wire name of a status.
pub open spec fn status_text(status: ResponseStatus) -> Seq<char> {
    match status {
        ResponseStatus::Success => "success"@,
        ResponseStatus::Error => "error"@,
        ResponseStatus::Ready => "ready"@,
        ResponseStatus::Processing => "processing"@,
    }
}

/// The status that a wire name stands for.
pub open spec fn status_from_text(text: Seq<char>) -> Option<ResponseStatus> {
    if text == "success"@ {
        Some(ResponseStatus::Success)
    } else if text == "error"@ {
        Some(ResponseStatus::Error)
    } else if text == "ready"@ {
        Some(ResponseStatus::Ready)
    } else if text == "processing"@ {
        Some(ResponseStatus::Processing)
    } else {
        None
    }
}

/// The JSON form of an error's details.
pub open spec fn error_to_json(e: ErrorInfoView) -> JsonView {
    JsonView::Object(
        seq![
            ("code"@, json_int(e.code as int)),
            ("message"@, JsonView::Str(e.message)),
            ("data"@, json_opt(e.data)),
        ],
    )
}

/// The code that a JSON number stands for, where it fits 32 bits.
pub open spec fn code_from_json(v: Option<JsonView>) -> Option<i32> {
    match v {
        Some(JsonView::Number(NumberView::PosInt(n))) => if n <= i32::MAX {
            Some(n as i32)
        } else {
            None
        },
        Some(JsonView::Number(NumberView::NegInt(n))) => if i32::MIN <= n < 0 {
            Some(n as i32)
        } else {
            None
        },
        _ => None,
    }
}

/// The error details that an optional field holds: nothing where the field
/// is absent or `null`; details where it is an object with a `code` and a
/// text `message`; anything else is a fault.
pub open spec fn error_field(v: Option<JsonView>) -> Option<Option<ErrorInfoView>> {
    match v {
        None => Some(None),
        Some(JsonView::Null) => Some(None),
        Some(JsonView::Object(members)) => match (
            code_from_json(first_value(members, "code"@)),
            first_value(members, "message"@),
        ) {
            (Some(code), Some(JsonView::Str(message))) => Some(
                Some(
                    ErrorInfoView {
                        code,
                        message,
                        data: value_field(first_value(members, "data"@)),
                    },
                ),
            ),
            _ => None,
        },
        Some(_) => None,
    }
}

/// The JSON form of a response: an object of its six fields, absent ones `null`.
pub open spec fn response_to_json(r: ResponseView) -> JsonView {
    JsonView::Object(
        seq![
            ("id"@, json_opt_text(r.id)),
            ("status"@, JsonView::Str(status_text(r.status))),
            ("result"@, json_opt(r.result)),
            (
                "error"@,
                match r.error {
                    Some(e) => error_to_json(e),
                    None => JsonView::Null,
                },
            ),
            ("timestamp"@, json_opt_text(r.timestamp)),
            ("metadata"@, json_opt_pairs(r.metadata)),
        ],
    )
}

/// The status that a field holds.
pub open spec fn status_field(v: Option<JsonView>) -> Option<ResponseStatus> {
    match v {
        Some(JsonView::Str(text)) => status_from_text(text),
        _ => None,
    }
}

/// The response that a JSON value stands for, or none.
pub open spec fn response_from_json(j: JsonView) -> Option<ResponseView> {
    match (
        j,
        text_field(j.member("id"@)),
        status_field(j.member("status"@)),
        error_field(j.member("error"@)),
        text_field(j.member("timestamp"@)),
        pairs_field(j.member("metadata"@)),
    ) {
        (
            JsonView::Object(_),
            Some(id),
            Some(status),
            Some(error),
            Some(timestamp),
            Some(metadata),
        ) => Some(
            ResponseView {
                id,
                status,
                result: value_field(j.member("result"@)),
                error,
                timestamp,
                metadata,
            },
        ),
        _ => None,
    }
}

fn member(name: &str, value: Json) -> (m: (String, Json))
    ensures
        m.0@ == name@,
        m.1 == value,
{
    (name.to_owned(), value)
}

/// The wire name of a status.
pub fn status_name(status: ResponseStatus) -> (name: &'static str)
    ensures
        name@ == status_text(status),
{
    match status {
        ResponseStatus::Success => "success",
        ResponseStatus::Error => "error",
        ResponseStatus::Ready => "ready",
        ResponseStatus::Processing => "processing",
    }
}

/// The status that a wire name stands for.
pub fn status_from_name(name: &str) -> (r: Option<ResponseStatus>)
    ensures
        r == status_from_text(name@),
{
    if str_eq(name, "success") {
        Some(ResponseStatus::Success)
    } else if str_eq(name, "error") {
        Some(ResponseStatus::Error)
    } else if str_eq(name, "ready") {
        Some(ResponseStatus::Ready)
    } else if str_eq(name, "processing") {
        Some(ResponseStatus::Processing)
    } else {
        None
    }
}

impl ErrorInfo {
    /// The JSON form of the details.
    pub fn to_json(&self) -> (j: Json)
        ensures
            j@ == error_to_json(self@),
    {
        let mut members: Vec<(String, Json)> = Vec::new();
        members.push(member("code", json_of_i64(self.code as i64)));
        members.push(member("message", Json::Str(self.message.clone())));
        members.push(member("data", json_of_opt(&self.data)));
        let j = Json::object(members);
        assert(j@->Object_0 =~= error_to_json(self@)->Object_0);
        j
    }

    /// Reads the details from an optional field.
    pub fn from_field(v: Option<&Json>) -> (r: Option<Option<ErrorInfo>>)
        ensures
            match r {
                Some(Some(e)) => error_field(opt_ref_view(v)) == Some(Some(e@)),
                Some(None) => error_field(opt_ref_view(v)) == Some(None::<ErrorInfoView>),
                None => error_field(opt_ref_view(v)) is None,
            },
    {
        match v {
            None => Some(None),
            Some(Json::Null) => Some(None),
            Some(Json::Object(_)) => {
                let j: &Json = v.unwrap();
                let code: i32 = match j.get("code") {
                    Some(Json::Number(JsonNumber::PosInt(n))) => if *n <= i32::MAX as u64 {
                        *n as i32
                    } else {
                        return None;
                    },
                    Some(Json::Number(JsonNumber::NegInt(n))) => if i32::MIN as i64 <= *n && *n < 0 {
                        *n as i32
                    } else {
                        return None;
                    },
                    _ => {
                        return None;
                    },
                };
                let message: String = match j.get("message") {
                    Some(Json::Str(s)) => s.clone(),
                    _ => {
                        return None;
                    },
                };
                let data = read_value_field(j.get("data"));
                Some(Some(ErrorInfo { code, message, data }))
            },
            Some(_) => None,
        }
    }
}

impl Request {
    /// The JSON form of the request.
    pub fn to_json(&self) -> (j: Json)
        ensures
            j@ == request_to_json(self@),
    {
        let mut members: Vec<(String, Json)> = Vec::new();
        members.push(member("id", json_of_opt_text(&self.id)));
        members.push(member("method", Json::Str(self.method.clone())));
        members.push(member("params", json_of_opt(&self.params)));
        members.push(member("timestamp", json_of_opt_text(&self.timestamp)));
        members.push(member("metadata", json_of_opt_pairs(&self.metadata)));
        let j = Json::object(members);
        assert(j@->Object_0 =~= request_to_json(self@)->Object_0);
        j
    }

    /// Reads a request from its JSON form; fails with `IpcError::Json`
    /// where the value stands for no request.
    pub fn from_json(j: &Json) -> (r: Result<Request, IpcError>)
        ensures
            match r {
                Ok(request) => request_from_json(j@) == Some(request@),
                Err(e) => e is Json && request_from_json(j@) is None,
            },
    {
        match j {
            Json::Object(_) => {},
            _ => {
                return Err(IpcError::Json("invalid type: expected a request object".to_owned()));
            },
        }
        let id = match read_text_field(j.get("id")) {
            Some(id) => id,
            None => {
                return Err(IpcError::Json("invalid type for field `id`".to_owned()));
            },
        };
        let method: String = match j.get("method") {
            Some(Json::Str(s)) => s.clone(),
            Some(_) => {
                return Err(IpcError::Json("invalid type for field `method`".to_owned()));
            },
            None => {
                return Err(IpcError::Json("missing field `method`".to_owned()));
            },
        };
        let timestamp = match read_text_field(j.get("timestamp")) {
            Some(t) => t,
            None => {
                return Err(IpcError::Json("invalid type for field `timestamp`".to_owned()));
            },
        };
        let metadata = match read_pairs_field(j.get("metadata")) {
            Some(m) => m,
            None => {
                return Err(IpcError::Json("invalid type for field `metadata`".to_owned()));
            },
        };
        let params = read_value_field(j.get("params"));
        Ok(Request { id, method, params, timestamp, metadata })
    }
}

impl Response {
    /// The JSON form of the response.
    pub fn to_json(&self) -> (j: Json)
        ensures
            j@ == response_to_json(self@),
    {
        let mut members: Vec<(String, Json)> = Vec::new();
        members.push(member("id", json_of_opt_text(&self.id)));
        members.push(member("status", Json::string(status_name(self.status))));
        members.push(member("result", json_of_opt(&self.result)));
        members.push(
            member(
                "error",
                match &self.error {
                    Some(e) => e.to_json(),
                    None => Json::Null,
                },
            ),
        );
        members.push(member("timestamp", json_of_opt_text(&self.timestamp)));
        members.push(member("metadata", json_of_opt_pairs(&self.metadata)));
        let j = Json::object(members);
        assert(j@->Object_0 =~= response_to_json(self@)->Object_0);
        j
    }

    /// Reads a response from its JSON form; fails with `IpcError::Json`
    /// where the value stands for no response.
    pub fn from_json(j: &Json) -> (r: Result<Response, IpcError>)
        ensures
            match r {
                Ok(response) => response_from_json(j@) == Some(response@),
                Err(e) => e is Json && response_from_json(j@) is None,
            },
    {
        match j {
            Json::Object(_) => {},
            _ => {
                return Err(IpcError::Json("invalid type: expected a response object".to_owned()));
            },
        }
        let id = match read_text_field(j.get("id")) {
            Some(id) => id,
            None => {
                return Err(IpcError::Json("invalid type for field `id`".to_owned()));
            },
        };
        let status: ResponseStatus = match j.get("status") {
            Some(Json::Str(s)) => match status_from_name(s.as_str()) {
                Some(status) => status,
                None => {
                    return Err(IpcError::Json("unknown variant of field `status`".to_owned()));
                },
            },
            Some(_) => {
                return Err(IpcError::Json("invalid type for field `status`".to_owned()));
            },
            None => {
                return Err(IpcError::Json("missing field `status`".to_owned()));
            },
        };
        let error = match ErrorInfo::from_field(j.get("error")) {
            Some(e) => e,
            None => {
                return Err(IpcError::Json("invalid type for field `error`".to_owned()));
            },
        };
        let timestamp = match read_text_field(j.get("timestamp")) {
            Some(t) => t,
            None => {
                return Err(IpcError::Json("invalid type for field `timestamp`".to_owned()));
            },
        };
        let metadata = match read_pairs_field(j.get("metadata")) {
            Some(m) => m,
            None => {
                return Err(IpcError::Json("invalid type for field `metadata`".to_owned()));
            },
        };
        let result = read_value_field(j.get("result"));
        Ok(Response { id, status, result, error, timestamp, metadata })
    }
}

proof fn lemma_request_keys()
    ensures
        "id"@ != "method"@,
        "id"@ != "params"@,
        "id"@ != "timestamp"@,
        "id"@ != "metadata"@,
        "method"@ != "params"@,
        "method"@ != "timestamp"@,
        "method"@ != "metadata"@,
        "params"@ != "timestamp"@,
        "params"@ != "metadata"@,
        "timestamp"@ != "metadata"@,
{
    reveal_strlit("id");
    reveal_strlit("method");
    reveal_strlit("params");
    reveal_strlit("timestamp");
    reveal_strlit("metadata");
    assert("id"@.len() != "method"@.len());
    assert("id"@.len() != "params"@.len());
    assert("id"@.len() != "timestamp"@.len());
    assert("id"@.len() != "metadata"@.len());
    assert("method"@[0] != "params"@[0]);
    assert("method"@.len() != "timestamp"@.len());
    assert("method"@.len() != "metadata"@.len());
    assert("params"@.len() != "timestamp"@.len());
    assert("params"@.len() != "metadata"@.len());
    assert("timestamp"@.len() != "metadata"@.len());
}

proof fn lemma_response_keys()
    ensures
        "id"@ != "status"@,
        "id"@ != "result"@,
        "id"@ != "error"@,
        "id"@ != "timestamp"@,
        "id"@ != "metadata"@,
        "status"@ != "result"@,
        "status"@ != "error"@,
        "status"@ != "timestamp"@,
        "status"@ != "metadata"@,
        "result"@ != "error"@,
        "result"@ != "timestamp"@,
        "result"@ != "metadata"@,
        "error"@ != "timestamp"@,
        "error"@ != "metadata"@,
        "timestamp"@ != "metadata"@,
        "code"@ != "message"@,
        "code"@ != "data"@,
        "message"@ != "data"@,
{
    reveal_strlit("id");
    reveal_strlit("status");
    reveal_strlit("result");
    reveal_strlit("error");
    reveal_strlit("timestamp");
    reveal_strlit("metadata");
    reveal_strlit("code");
    reveal_strlit("message");
    reveal_strlit("data");
    assert("id"@.len() != "status"@.len());
    assert("id"@.len() != "result"@.len());
    assert("id"@.len() != "error"@.len());
    assert("id"@.len() != "timestamp"@.len());
    assert("id"@.len() != "metadata"@.len());
    assert("status"@[0] != "result"@[0]);
    assert("status"@.len() != "error"@.len());
    assert("status"@.len() != "timestamp"@.len());
    assert("status"@.len() != "metadata"@.len());
    assert("result"@.len() != "error"@.len());
    assert("result"@.len() != "timestamp"@.len());
    assert("result"@.len() != "metadata"@.len());
    assert("error"@.len() != "timestamp"@.len());
    assert("error"@.len() != "metadata"@.len());
    assert("timestamp"@.len() != "metadata"@.len());
    assert("code"@.len() != "message"@.len());
    assert("code"@[0] != "data"@[0]);
    assert("message"@.len() != "data"@.len());
}

proof fn lemma_status_keys()
    ensures
        "success"@ != "error"@,
        "success"@ != "ready"@,
        "success"@ != "processing"@,
        "error"@ != "ready"@,
        "error"@ != "processing"@,
        "ready"@ != "processing"@,
{
    reveal_strlit("success");
    reveal_strlit("error");
    reveal_strlit("ready");
    reveal_strlit("processing");
    assert("success"@.len() != "error"@.len());
    assert("success"@.len() != "ready"@.len());
    assert("success"@.len() != "processing"@.len());
    assert("error"@[0] != "ready"@[0]);
    assert("error"@.len() != "processing"@.len());
    assert("ready"@.len() != "processing"@.len());
}

proof fn lemma_status_names(status: ResponseStatus)
    ensures
        status_from_text(status_text(status)) == Some(status),
{
    lemma_status_keys();
}

proof fn lemma_pairs_round_trip(o: Option<Seq<(Seq<char>, Seq<char>)>>)
    ensures
        pairs_field(Some(json_opt_pairs(o))) == Some(o),
{
    match o {
        Some(pairs) => {
            let members = json_pairs(pairs)->Object_0;
            assert(all_texts(members));
            assert(Seq::new(members.len(), |i: int| (members[i].0, members[i].1->Str_0))
                =~= pairs);
        },
        None => {},
    }
}

/// Reading the JSON form of a request gives the request back, unless its
/// parameters are the JSON `null`, which reads as no parameters.
pub proof fn lemma_request_round_trip(r: RequestView)
    requires
        r.params != Some(JsonView::Null),
    ensures
        request_from_json(request_to_json(r)) == Some(r),
{
    lemma_request_keys();
    lemma_pairs_round_trip(r.metadata);
    let j = request_to_json(r);
    let members = j->Object_0;
    lemma_first_value_at(members, "id"@, 0);
    lemma_first_value_at(members, "method"@, 1);
    lemma_first_value_at(members, "params"@, 2);
    lemma_first_value_at(members, "timestamp"@, 3);
    lemma_first_value_at(members, "metadata"@, 4);
}

/// Writing a request that was read and reading it again changes nothing.
pub proof fn lemma_request_reading_is_stable(j: JsonView)
    requires
        request_from_json(j) is Some,
    ensures
        request_from_json(request_to_json(request_from_json(j)->0)) == request_from_json(j),
{
    lemma_request_round_trip(request_from_json(j)->0);
}

proof fn lemma_error_round_trip(e: ErrorInfoView)
    requires
        e.data != Some(JsonView::Null),
    ensures
        error_field(Some(error_to_json(e))) == Some(Some(e)),
{
    lemma_response_keys();
    let members = error_to_json(e)->Object_0;
    lemma_first_value_at(members, "code"@, 0);
    lemma_first_value_at(members, "message"@, 1);
    lemma_first_value_at(members, "data"@, 2);
}

/// Reading the JSON form of a response gives the response back, unless its
/// result or the data of its error is the JSON `null`, which reads as absent.
pub proof fn lemma_response_round_trip(r: ResponseView)
    requires
        r.result != Some(JsonView::Null),
        r.error matches Some(e) ==> e.data != Some(JsonView::Null),
    ensures
        response_from_json(response_to_json(r)) == Some(r),
{
    lemma_response_keys();
    lemma_status_names(r.status);
    lemma_pairs_round_trip(r.metadata);
    match r.error {
        Some(e) => {
            lemma_error_round_trip(e);
        },
        None => {},
    }
    let j = response_to_json(r);
    let members = j->Object_0;
    lemma_first_value_at(members, "id"@, 0);
    lemma_first_value_at(members, "status"@, 1);
    lemma_first_value_at(members, "result"@, 2);
    lemma_first_value_at(members, "error"@, 3);
    lemma_first_value_at(members, "timestamp"@, 4);
    lemma_first_value_at(members, "metadata"@, 5);
}

/// Writing a response that was read and reading it again changes nothing.
pub proof fn lemma_response_reading_is_stable(j: JsonView)
    requires
        response_from_json(j) is Some,
    ensures
        response_from_json(response_to_json(response_from_json(j)->0)) == response_from_json(j),
{
    let r = response_from_json(j)->0;
    match r.error {
        Some(e) => {
            assert(error_field(j.member("error"@)) == Some(Some(e)));
        },
        None => {},
    }
    lemma_response_round_trip(r);
}

/// An error without its details breaks the rules, and so does a success
/// that carries an error, and a ready or processing signal that carries
/// anything; a response that breaks the rules fails `validate`.
pub proof fn lemma_mismatched_payload_is_invalid(r: ResponseView)
    ensures
        r.status == ResponseStatus::Error && r.error is None ==> !valid_response(r),
        r.status == ResponseStatus::Error && r.result is Some ==> !valid_response(r),
        r.status == ResponseStatus::Success && r.error is Some ==> !valid_response(r),
        (r.status == ResponseStatus::Ready || r.status == ResponseStatus::Processing) && (
        r.result is Some || r.error is Some) ==> !valid_response(r),
{
}

} // verus!
