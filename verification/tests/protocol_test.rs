use ai_worker::command::{parse_command, result_to_json, Command, CommandResult};
use ai_worker::errors::{IpcError, ProtocolError};
use ai_worker::json::{Json, JsonNumber};
use ai_worker::protocol::{ErrorInfo, Request, Response, ResponseStatus};

fn request(text: &str) -> Request {
    Request::from_json(&Json::parse(text).unwrap()).unwrap()
}

#[test]
fn test_request_validation() {
    let valid_request = Request::new(Some("test-id".to_string()), "test_method".to_string(), None);
    assert!(valid_request.validate().is_ok());

    let invalid_request = Request::new(Some("test-id".to_string()), "".to_string(), None);
    assert!(invalid_request.validate().is_err());
}

#[test]
fn test_response_validation() {
    let success_response = Response::success(
        Some("test-id".to_string()),
        Some(Json::parse("{\"result\": \"test\"}").unwrap()),
    );
    assert!(success_response.validate().is_ok());

    let error_response = Response::error(
        Some("test-id".to_string()),
        ErrorInfo::INTERNAL_ERROR,
        "Test error".to_string(),
    );
    assert!(error_response.validate().is_ok());
}

#[test]
fn method_names_are_checked() {
    let check = |method: &str| Request::new(None, method.to_string(), None).validate();
    assert!(check("ping").is_ok());
    assert!(check("load_model2").is_ok());
    assert!(check("été").is_ok());
    match check("") {
        Err(IpcError::InvalidRequest { message }) => assert_eq!(message, "method cannot be empty"),
        other => panic!("unexpected: {:?}", other),
    }
    match check("get-stats") {
        Err(IpcError::InvalidRequest { message }) => {
            assert_eq!(message, "invalid method name format")
        }
        other => panic!("unexpected: {:?}", other),
    }
    assert!(check("a b").is_err());
    assert!(check("ping!").is_err());
}

#[test]
fn responses_must_fit_their_status() {
    let mut success = Response::success(None, None);
    success.error = Some(ErrorInfo::new(1, "x".to_string()));
    match success.validate() {
        Err(IpcError::InvalidResponse { message }) => {
            assert_eq!(message, "success response cannot have error")
        }
        other => panic!("unexpected: {:?}", other),
    }
    let mut error = Response::error(None, 1, "x".to_string());
    error.error = None;
    match error.validate() {
        Err(IpcError::InvalidResponse { message }) => {
            assert_eq!(message, "error response must have error info")
        }
        other => panic!("unexpected: {:?}", other),
    }
    let mut error = Response::error(None, 1, "x".to_string());
    error.result = Some(Json::Bool(true));
    match error.validate() {
        Err(IpcError::InvalidResponse { message }) => {
            assert_eq!(message, "error response cannot have result")
        }
        other => panic!("unexpected: {:?}", other),
    }
    assert!(Response::ready().validate().is_ok());
    assert!(Response::processing(Some("1".to_string())).validate().is_ok());
}

#[test]
fn error_codes_are_fixed() {
    assert_eq!(ErrorInfo::PARSE_ERROR, -32700);
    assert_eq!(ErrorInfo::INVALID_REQUEST, -32600);
    assert_eq!(ErrorInfo::METHOD_NOT_FOUND, -32601);
    assert_eq!(ErrorInfo::INVALID_PARAMS, -32602);
    assert_eq!(ErrorInfo::INTERNAL_ERROR, -32603);
    assert_eq!(ErrorInfo::TIMEOUT_ERROR, -32001);
    assert_eq!(ErrorInfo::PROCESS_ERROR, -32002);
    let info = ErrorInfo::with_data(5, "m".to_string(), Json::Bool(true));
    assert_eq!(info.data, Some(Json::Bool(true)));
    assert_eq!(ErrorInfo::new(5, "m".to_string()).data, None);
}

#[test]
fn request_is_read_from_a_line() {
    let r = request(
        "{\"jsonrpc\":\"2.0\",\"id\":\"7\",\"method\":\"inference\",\
         \"params\":{\"prompt\":\"hi\",\"max_tokens\":3},\"metadata\":{\"k\":\"v\"}}",
    );
    assert_eq!(r.id, Some("7".to_string()));
    assert_eq!(r.method, "inference");
    assert_eq!(r.timestamp, None);
    assert_eq!(r.metadata, Some(vec![("k".to_string(), "v".to_string())]));
    assert_eq!(r.get_param("prompt").unwrap(), &Json::Str("hi".to_string()));
    assert_eq!(r.get_param_string("prompt").unwrap(), "hi");
    assert!(matches!(r.get_param("absent"), Err(IpcError::InvalidRequest { .. })));
    assert!(matches!(r.get_param_string("max_tokens"), Err(IpcError::InvalidRequest { .. })));

    let bare = request("{\"method\":\"ping\",\"id\":null,\"params\":null}");
    assert_eq!(bare.id, None);
    assert_eq!(bare.params, None);
    match bare.get_param("x") {
        Err(IpcError::InvalidRequest { message }) => assert_eq!(message, "no parameters provided"),
        other => panic!("unexpected: {:?}", other),
    }
}

#[test]
fn malformed_requests_are_rejected() {
    let read = |text: &str| Request::from_json(&Json::parse(text).unwrap());
    assert!(matches!(read("{\"id\":\"1\"}"), Err(IpcError::Json(_))));
    assert!(matches!(read("{\"method\":5}"), Err(IpcError::Json(_))));
    assert!(matches!(read("{\"method\":\"m\",\"id\":5}"), Err(IpcError::Json(_))));
    assert!(matches!(read("{\"method\":\"m\",\"metadata\":{\"a\":1}}"), Err(IpcError::Json(_))));
    assert!(matches!(read("[\"ping\"]"), Err(IpcError::Json(_))));
    assert!(matches!(Json::parse("{not json"), Err(IpcError::Json(_))));
    assert!(matches!(Json::parse(""), Err(IpcError::Json(_))));
}

#[test]
fn request_survives_its_json_form() {
    let sent = Request {
        id: Some("abc".to_string()),
        method: "load_model".to_string(),
        params: Some(Json::parse("{\"model_path\":\"m.gguf\",\"n\":[1,-2,0.5,true,null]}").unwrap()),
        timestamp: Some("2024-01-01T00:00:00+00:00".to_string()),
        metadata: Some(vec![("a".to_string(), "b".to_string())]),
    };
    let line = sent.to_json().render().unwrap();
    assert!(!line.contains('\n'));
    let back = Request::from_json(&Json::parse(&line).unwrap()).unwrap();
    assert_eq!(back.id, sent.id);
    assert_eq!(back.method, sent.method);
    assert_eq!(back.params, sent.params);
    assert_eq!(back.timestamp, sent.timestamp);
    assert_eq!(back.metadata, sent.metadata);
    let again = back.to_json().render().unwrap();
    assert_eq!(again, line);
}

#[test]
fn response_survives_its_json_form() {
    let mut sent = Response::error(Some("9".to_string()), -32601, "Unknown method: x".to_string());
    sent.error.as_mut().unwrap().data = Some(Json::parse("{\"hint\":\"ping\"}").unwrap());
    let line = sent.to_json().render().unwrap();
    let back = Response::from_json(&Json::parse(&line).unwrap()).unwrap();
    assert_eq!(back.id, sent.id);
    assert_eq!(back.status, ResponseStatus::Error);
    assert_eq!(back.result, None);
    let error = back.error.as_ref().unwrap();
    assert_eq!(error.code, -32601);
    assert_eq!(error.message, "Unknown method: x");
    assert_eq!(error.data, sent.error.as_ref().unwrap().data);
    assert_eq!(back.timestamp, sent.timestamp);
    assert_eq!(back.to_json().render().unwrap(), line);

    let ok = Response::success(None, Some(Json::uint(5)));
    let line = ok.to_json().render().unwrap();
    let back = Response::from_json(&Json::parse(&line).unwrap()).unwrap();
    assert_eq!(back.status, ResponseStatus::Success);
    assert_eq!(back.result, Some(Json::uint(5)));
    assert!(back.error.is_none());
}

#[test]
fn response_line_has_the_wire_shape() {
    let mut response = Response::ready();
    response.timestamp = None;
    assert_eq!(
        response.to_json().render().unwrap(),
        "{\"error\":null,\"id\":null,\"metadata\":null,\"result\":null,\"status\":\"ready\",\"timestamp\":null}"
    );
}

#[test]
fn commands_are_named_by_methods() {
    assert!(matches!(parse_command(&request("{\"method\":\"ping\"}")), Ok(Command::Ping)));
    assert!(matches!(parse_command(&request("{\"method\":\"shutdown\"}")), Ok(Command::Shutdown)));
    assert!(matches!(parse_command(&request("{\"method\":\"get_stats\"}")), Ok(Command::GetStats)));
    assert!(matches!(
        parse_command(&request("{\"method\":\"cache_clear\"}")),
        Ok(Command::CacheClear)
    ));
    match parse_command(&request("{\"method\":\"frobnicate\"}")) {
        Err(ProtocolError::InvalidCommand(text)) => assert_eq!(text, "Unknown method: frobnicate"),
        other => panic!("unexpected: {:?}", other),
    }
}

#[test]
fn command_parameters_are_read() {
    match parse_command(&request(
        "{\"method\":\"inference\",\"params\":{\"prompt\":\"hi\",\"max_tokens\":7,\
         \"temperature\":0.5,\"stream\":true}}",
    ))
    .unwrap()
    {
        Command::Inference { prompt, max_tokens, temperature, stream } => {
            assert_eq!(prompt, "hi");
            assert_eq!(max_tokens, Some(7));
            assert_eq!(temperature, Some(JsonNumber::Float("0.5".to_string())));
            assert_eq!(stream, Some(true));
        }
        other => panic!("unexpected: {:?}", other),
    }
    match parse_command(&request(
        "{\"method\":\"inference\",\"params\":{\"prompt\":\"hi\",\"max_tokens\":-1,\"stream\":\"yes\"}}",
    ))
    .unwrap()
    {
        Command::Inference { max_tokens, temperature, stream, .. } => {
            assert_eq!(max_tokens, None);
            assert_eq!(temperature, None);
            assert_eq!(stream, None);
        }
        other => panic!("unexpected: {:?}", other),
    }
    match parse_command(&request("{\"method\":\"inference\"}")) {
        Err(ProtocolError::MissingParameter(name)) => assert_eq!(name, "prompt"),
        other => panic!("unexpected: {:?}", other),
    }
    match parse_command(&request("{\"method\":\"load_model\",\"params\":{\"model_path\":3}}")) {
        Err(ProtocolError::InvalidParameterType(name)) => assert_eq!(name, "model_path"),
        other => panic!("unexpected: {:?}", other),
    }
    match parse_command(&request("{\"method\":\"load_model\",\"params\":{\"model_path\":\"m\"}}"))
        .unwrap()
    {
        Command::LoadModel { model_path } => assert_eq!(model_path, "m"),
        other => panic!("unexpected: {:?}", other),
    }
    match parse_command(&request(
        "{\"method\":\"init\",\"params\":{\"model\":\"m.gguf\",\"params\":{\"a\":1}}}",
    ))
    .unwrap()
    {
        Command::Init { model, params } => {
            assert_eq!(model, Some("m.gguf".to_string()));
            assert_eq!(params, Some(vec![("a".to_string(), Json::uint(1))]));
        }
        other => panic!("unexpected: {:?}", other),
    }
    assert!(matches!(
        parse_command(&request("{\"method\":\"init\"}")).unwrap(),
        Command::Init { model: None, params: None }
    ));
}

#[test]
fn results_have_their_json_form() {
    let pong = CommandResult::Pong { message: "pong".to_string(), timestamp: "t".to_string() };
    assert_eq!(
        result_to_json(&pong).render().unwrap(),
        "{\"Pong\":{\"message\":\"pong\",\"timestamp\":\"t\"}}"
    );
    let done = CommandResult::InferenceComplete {
        output: "o".to_string(),
        tokens_generated: 3,
        inference_time_ms: 12,
        model_used: "m".to_string(),
    };
    assert_eq!(
        result_to_json(&done).render().unwrap(),
        "{\"InferenceComplete\":{\"inference_time_ms\":12,\"model_used\":\"m\",\"output\":\"o\",\"tokens_generated\":3}}"
    );
    let token = CommandResult::StreamToken { token: " on".to_string(), confidence: Some(94) };
    assert_eq!(
        result_to_json(&token).render().unwrap(),
        "{\"StreamToken\":{\"confidence\":0.94,\"token\":\" on\"}}"
    );
    let token = CommandResult::StreamToken { token: "x".to_string(), confidence: None };
    assert_eq!(
        result_to_json(&token).render().unwrap(),
        "{\"StreamToken\":{\"confidence\":null,\"token\":\"x\"}}"
    );
    assert_eq!(
        result_to_json(&CommandResult::CacheCleared { entries_removed: 2 }).render().unwrap(),
        "{\"CacheCleared\":{\"entries_removed\":2}}"
    );
    assert_eq!(
        result_to_json(&CommandResult::ShutdownComplete).render().unwrap(),
        "{\"status\":\"shutdown_complete\"}"
    );
    let init = CommandResult::Initialized { model: "default".to_string(), status: "ready".to_string() };
    assert_eq!(
        result_to_json(&init).render().unwrap(),
        "{\"Initialized\":{\"model\":\"default\",\"status\":\"ready\"}}"
    );
}

#[test]
fn signals_carry_neither_result_nor_error() {
    let mut ready = Response::ready();
    ready.result = Some(Json::uint(1));
    match ready.validate() {
        Err(IpcError::InvalidResponse { message }) => {
            assert_eq!(message, "ready response cannot have result")
        }
        other => panic!("unexpected: {:?}", other),
    }
    let mut ready = Response::ready();
    ready.error = Some(ErrorInfo::new(1, "x".to_string()));
    match ready.validate() {
        Err(IpcError::InvalidResponse { message }) => {
            assert_eq!(message, "ready response cannot have error")
        }
        other => panic!("unexpected: {:?}", other),
    }
    let mut processing = Response::processing(Some("1".to_string()));
    processing.result = Some(Json::Null);
    match processing.validate() {
        Err(IpcError::InvalidResponse { message }) => {
            assert_eq!(message, "processing response cannot have result")
        }
        other => panic!("unexpected: {:?}", other),
    }
    let mut processing = Response::processing(None);
    processing.error = Some(ErrorInfo::new(1, "x".to_string()));
    match processing.validate() {
        Err(IpcError::InvalidResponse { message }) => {
            assert_eq!(message, "processing response cannot have error")
        }
        other => panic!("unexpected: {:?}", other),
    }
    let bare = Response {
        id: None,
        status: ResponseStatus::Ready,
        result: None,
        error: None,
        timestamp: None,
        metadata: None,
    };
    assert!(bare.validate().is_ok());
}
