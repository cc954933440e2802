use ai_worker::config::Config;
use ai_worker::errors::IpcError;
use ai_worker::handler::IpcHandler;
use ai_worker::io::{MockReader, MockWriter};
use ai_worker::json::Json;
use ai_worker::model_loader::FileProbe;
use ai_worker::protocol::{Response, ResponseStatus};
use ai_worker::service::{code_of_error, is_session_end, Action, AiService};
use ai_worker::streaming::TokenStream;

fn service(lines: Vec<&str>) -> AiService<MockReader, MockWriter> {
    let mut config = Config::new();
    config.set("ai.model_path", "/tmp/test").unwrap();
    let reader = MockReader::new(lines.into_iter().map(|l| l.to_string()).collect());
    AiService::new(config, reader, MockWriter::new()).unwrap()
}

fn written(service: &AiService<MockReader, MockWriter>) -> Vec<Response> {
    service
        .ipc_handler
        .writer
        .lines()
        .iter()
        .map(|line| Response::from_json(&Json::parse(line).unwrap()).unwrap())
        .collect()
}

fn error_code(response: &Response) -> i32 {
    assert_eq!(response.status, ResponseStatus::Error);
    assert!(response.result.is_none());
    response.error.as_ref().unwrap().code
}

fn run_stream(service: &mut AiService<MockReader, MockWriter>, mut stream: TokenStream) -> Action {
    loop {
        let event = stream.next();
        let ended = event.is_none();
        match service.on_stream_event(event).unwrap() {
            Action::NextEvent => assert!(!ended),
            other => return other,
        }
    }
}

#[test]
fn test_ping_handling() {
    let mut service =
        service(vec![r#"{"jsonrpc":"2.0","method":"ping","id":"test-1"}"#]);

    let result = service.process_request();
    assert!(result.is_ok());

    let stats = service.ipc_handler.stats();
    assert_eq!(stats.responses_sent, 1);
}

#[test]
fn test_unknown_method_handling() {
    let mut service =
        service(vec![r#"{"jsonrpc":"2.0","method":"unknown_method","id":"test-1"}"#]);

    let result = service.process_request();
    assert!(result.is_ok());

    let stats = service.ipc_handler.stats();
    assert_eq!(stats.responses_sent, 1);
}

#[test]
fn ping_is_answered_with_pong() {
    let mut service = service(vec![r#"{"method":"ping","id":"ping-1"}"#]);
    assert!(matches!(service.process_request(), Ok(Action::Continue)));
    let responses = written(&service);
    assert_eq!(responses.len(), 1);
    assert_eq!(responses[0].id, Some("ping-1".to_string()));
    assert_eq!(responses[0].status, ResponseStatus::Success);
    assert!(responses[0].error.is_none());
    let pong = responses[0].result.as_ref().unwrap().get("Pong").unwrap();
    assert_eq!(pong.get("message"), Some(&Json::Str("pong".to_string())));
    assert!(pong.get("timestamp").unwrap().as_str().is_some());
    assert_eq!(service.ipc_handler.stats().requests_processed, 1);
}

#[test]
fn unknown_method_gets_32601_and_the_session_goes_on() {
    let mut service = service(vec![
        r#"{"method":"frobnicate","id":"a"}"#,
        r#"{"method":"ping","id":"b"}"#,
    ]);
    assert!(matches!(service.process_request(), Ok(Action::Continue)));
    assert!(matches!(service.process_request(), Ok(Action::Continue)));
    let responses = written(&service);
    assert_eq!(responses.len(), 2);
    assert_eq!(responses[0].id, Some("a".to_string()));
    assert_eq!(error_code(&responses[0]), -32601);
    assert_eq!(responses[0].error.as_ref().unwrap().message, "Unknown method: frobnicate");
    assert_eq!(responses[1].id, Some("b".to_string()));
    assert_eq!(responses[1].status, ResponseStatus::Success);
}

#[test]
fn bad_lines_are_answered_before_dispatch() {
    let mut service = service(vec![
        "{not json",
        r#"{"id":"1"}"#,
        r#"{"method":"","id":"2"}"#,
        r#"{"method":"get-stats","id":"3"}"#,
        r#"{"method":"inference","id":"4"}"#,
        r#"{"method":"load_model","id":"5","params":{"model_path":7}}"#,
    ]);
    for _ in 0..6 {
        assert!(matches!(service.process_request(), Ok(Action::Continue)));
    }
    let codes: Vec<i32> = written(&service).iter().map(error_code).collect();
    assert_eq!(codes, vec![-32700, -32700, -32600, -32600, -32602, -32602]);
    let stats = service.ipc_handler.stats();
    assert_eq!(stats.requests_processed, 2);
    assert_eq!(stats.responses_sent, 6);
    assert!(!service.ai_core.is_model_loaded());
}

#[test]
fn end_of_input_ends_the_session() {
    let mut service = service(vec![]);
    assert!(matches!(service.process_request(), Err(IpcError::ProcessCommunication { .. })));
    assert!(service.ipc_handler.writer.lines().is_empty());
}

#[test]
fn shutdown_confirms_and_stops() {
    let mut service = service(vec![r#"{"method":"shutdown","id":"s"}"#]);
    assert!(service.start().is_ok());
    assert!(matches!(service.process_request(), Ok(Action::Stop)));
    let responses = written(&service);
    assert_eq!(responses.len(), 2);
    assert_eq!(responses[0].status, ResponseStatus::Ready);
    assert_eq!(responses[0].id, None);
    assert_eq!(responses[1].id, Some("s".to_string()));
    assert_eq!(
        responses[1].result,
        Some(Json::Object(vec![("status".to_string(), Json::Str("shutdown_complete".to_string()))]))
    );
}

#[test]
fn inference_without_a_model_gets_32003() {
    let mut service = service(vec![r#"{"method":"inference","id":"i","params":{"prompt":"hi"}}"#]);
    assert!(matches!(service.process_request(), Ok(Action::Continue)));
    let responses = written(&service);
    assert_eq!(responses.len(), 2);
    assert_eq!(responses[0].status, ResponseStatus::Processing);
    assert_eq!(responses[0].id, Some("i".to_string()));
    assert_eq!(error_code(&responses[1]), -32003);
    assert_eq!(responses[1].id, Some("i".to_string()));
}

#[test]
fn load_then_inference_then_stats() {
    let mut service = service(vec![
        r#"{"method":"load_model","id":"l","params":{"model_path":"m.gguf"}}"#,
        r#"{"method":"inference","params":{"prompt":"abcdefgh","max_tokens":1}}"#,
        r#"{"method":"inference","id":"again","params":{"prompt":"abcdefgh","max_tokens":1}}"#,
        r#"{"method":"get_stats","id":"st"}"#,
        r#"{"method":"cache_clear","id":"cc"}"#,
        r#"{"method":"load_model","id":"l2","params":{"model_path":"m.gguf"}}"#,
    ]);
    match service.process_request().unwrap() {
        Action::Read { path } => assert_eq!(path, "/tmp/test/m.gguf"),
        _ => panic!("expected a read"),
    }
    assert!(matches!(
        service.finish_load(FileProbe::Content(vec![1, 2, 3, 4])),
        Ok(Action::Continue)
    ));
    for _ in 0..5 {
        assert!(matches!(service.process_request(), Ok(Action::Continue)));
    }
    let responses = written(&service);
    assert_eq!(responses.len(), 9);

    assert_eq!(responses[0].status, ResponseStatus::Processing);
    let loaded = responses[1].result.as_ref().unwrap().get("ModelLoaded").unwrap();
    assert_eq!(loaded.get("model_path"), Some(&Json::Str("m.gguf".to_string())));
    let info = loaded.get("model_info").unwrap();
    assert_eq!(info.get("format"), Some(&Json::Str("Gguf".to_string())));
    assert_eq!(info.get("size_bytes"), Some(&Json::uint(4)));

    assert_eq!(responses[2].status, ResponseStatus::Success);
    assert_eq!(responses[2].id, None);
    let done = responses[2].result.as_ref().unwrap().get("InferenceComplete").unwrap();
    assert_eq!(
        done.get("output"),
        Some(&Json::Str("Response to 'abcdefgh' (max_tokens: 1)".to_string()))
    );
    assert_eq!(done.get("tokens_generated"), Some(&Json::uint(1)));
    assert_eq!(done.get("model_used"), Some(&Json::Str("m.gguf".to_string())));

    assert_eq!(responses[3].status, ResponseStatus::Processing);
    assert_eq!(responses[4].result, responses[2].result);

    let stats = responses[5].result.as_ref().unwrap().get("Stats").unwrap();
    let core = stats.get("ai_core").unwrap();
    assert_eq!(core.get("models_loaded"), Some(&Json::uint(1)));
    assert_eq!(core.get("inferences_performed"), Some(&Json::uint(1)));
    assert_eq!(core.get("cache_hits"), Some(&Json::uint(1)));
    assert_eq!(core.get("cache_misses"), Some(&Json::uint(1)));
    let ipc = stats.get("ipc").unwrap();
    assert_eq!(ipc.get("requests_processed"), Some(&Json::uint(4)));
    assert_eq!(ipc.get("responses_sent"), Some(&Json::uint(5)));

    let cleared = responses[6].result.as_ref().unwrap().get("CacheCleared").unwrap();
    assert_eq!(cleared.get("entries_removed"), Some(&Json::uint(1)));

    assert_eq!(responses[7].status, ResponseStatus::Processing);
    assert!(responses[8].result.as_ref().unwrap().get("ModelLoaded").is_some());
    assert_eq!(service.ai_core.model_loader.disk_loads, 1);
}

#[test]
fn failed_loads_get_their_codes() {
    let mut service = service(vec![
        r#"{"method":"load_model","id":"1","params":{"model_path":"gone.gguf"}}"#,
        r#"{"method":"load_model","id":"2","params":{"model_path":"model.bin"}}"#,
        r#"{"method":"load_model","id":"3","params":{"model_path":"locked.onnx"}}"#,
    ]);
    assert!(matches!(service.process_request(), Ok(Action::Read { .. })));
    assert!(matches!(service.finish_load(FileProbe::Missing), Ok(Action::Continue)));
    assert!(matches!(service.process_request(), Ok(Action::Read { .. })));
    assert!(matches!(service.finish_load(FileProbe::Content(vec![])), Ok(Action::Continue)));
    assert!(matches!(service.process_request(), Ok(Action::Read { .. })));
    assert!(matches!(
        service.finish_load(FileProbe::Unreadable("denied".to_string())),
        Ok(Action::Continue)
    ));
    assert!(matches!(service.finish_load(FileProbe::Missing), Ok(Action::Continue)));
    let responses = written(&service);
    assert_eq!(responses.len(), 6);
    assert_eq!(error_code(&responses[1]), -32000);
    assert_eq!(error_code(&responses[3]), -32001);
    assert_eq!(error_code(&responses[5]), -32002);
    assert_eq!(responses[5].id, Some("3".to_string()));
    assert!(!service.ai_core.is_model_loaded());
}

#[test]
fn init_loads_the_named_model() {
    let mut service = service(vec![
        r#"{"method":"init","id":"0"}"#,
        r#"{"method":"init","id":"1","params":{"model":"m.onnx"}}"#,
    ]);
    assert!(matches!(service.process_request(), Ok(Action::Continue)));
    assert!(matches!(service.process_request(), Ok(Action::Read { .. })));
    assert!(matches!(service.finish_load(FileProbe::Content(vec![9])), Ok(Action::Continue)));
    let responses = written(&service);
    assert_eq!(responses.len(), 2);
    let first = responses[0].result.as_ref().unwrap().get("Initialized").unwrap();
    assert_eq!(first.get("model"), Some(&Json::Str("default".to_string())));
    assert_eq!(first.get("status"), Some(&Json::Str("ready".to_string())));
    let second = responses[1].result.as_ref().unwrap().get("Initialized").unwrap();
    assert_eq!(second.get("model"), Some(&Json::Str("m.onnx".to_string())));
    assert!(service.ai_core.is_model_loaded());
}

#[test]
fn streaming_sends_tokens_then_the_whole_text() {
    let mut service = service(vec![
        r#"{"method":"inference","id":"s","params":{"prompt":"q","stream":true,"max_tokens":3}}"#,
    ]);
    let stream = match service.process_request().unwrap() {
        Action::Stream { stream } => stream,
        _ => panic!("expected a stream"),
    };
    assert!(matches!(run_stream(&mut service, stream), Action::Continue));
    let responses = written(&service);
    assert_eq!(responses.len(), 5);
    assert_eq!(responses[0].status, ResponseStatus::Processing);
    let expected = ["Based", " on", " your"];
    for (i, text) in expected.iter().enumerate() {
        let response = &responses[1 + i];
        assert_eq!(response.status, ResponseStatus::Success);
        assert_eq!(response.id, Some("s".to_string()));
        let result = response.result.as_ref().unwrap();
        assert_eq!(result.get("event"), Some(&Json::Str("token".to_string())));
        let data = result.get("data").unwrap();
        assert_eq!(data.get("token"), Some(&Json::Str(text.to_string())));
        let confidence = Json::parse(&format!("0.{}", 95 - i)).unwrap();
        assert_eq!(data.get("confidence"), Some(&confidence));
    }
    let done = responses[4].result.as_ref().unwrap().get("InferenceComplete").unwrap();
    assert_eq!(done.get("output"), Some(&Json::Str("Based on your".to_string())));
    assert_eq!(done.get("tokens_generated"), Some(&Json::uint(3)));
    assert_eq!(done.get("model_used"), Some(&Json::Str("streaming_model".to_string())));
    assert!(matches!(service.on_stream_event(None), Ok(Action::Continue)));
    assert_eq!(written(&service).len(), 5);
}

#[test]
fn streaming_without_a_budget_runs_to_completion() {
    let mut service =
        service(vec![r#"{"method":"inference","params":{"prompt":"q","stream":true}}"#]);
    let stream = match service.process_request().unwrap() {
        Action::Stream { stream } => stream,
        _ => panic!("expected a stream"),
    };
    assert!(matches!(run_stream(&mut service, stream), Action::Continue));
    let responses = written(&service);
    assert_eq!(responses.len(), 25);
    let done = responses[24].result.as_ref().unwrap().get("InferenceComplete").unwrap();
    assert_eq!(done.get("tokens_generated"), Some(&Json::uint(24)));
}

#[test]
fn blank_streaming_prompt_is_an_error() {
    let mut service =
        service(vec![r#"{"method":"inference","id":"b","params":{"prompt":"  ","stream":true}}"#]);
    assert!(matches!(service.process_request(), Ok(Action::Continue)));
    let responses = written(&service);
    assert_eq!(responses.len(), 2);
    assert_eq!(error_code(&responses[1]), -32004);
}

#[test]
fn handler_refuses_responses_that_break_the_rules() {
    let mut handler = IpcHandler::with_io(MockReader::new(vec![]), MockWriter::new());
    let mut bad = Response::success(None, None);
    bad.error = Some(ai_worker::protocol::ErrorInfo::new(1, "x".to_string()));
    assert!(matches!(handler.write_response(&bad), Err(IpcError::InvalidResponse { .. })));
    let mut bad = Response::error(None, 1, "x".to_string());
    bad.error = None;
    assert!(matches!(handler.send_response(&bad), Err(IpcError::InvalidResponse { .. })));
    assert!(handler.writer.lines().is_empty());
    assert_eq!(handler.stats().responses_sent, 0);

    handler.send_error_from(Some("e".to_string()), &IpcError::protocol("empty line received")).unwrap();
    handler.send_error_from(None, &IpcError::timeout("late")).unwrap();
    handler.send_processing(Some("p".to_string())).unwrap();
    handler.send_success(None, Some(Json::uint(1))).unwrap();
    assert!(handler.flush().is_ok());
    let lines = handler.writer.lines();
    assert_eq!(lines.len(), 4);
    let first = Response::from_json(&Json::parse(&lines[0]).unwrap()).unwrap();
    assert_eq!(first.error.as_ref().unwrap().code, -32603);
    assert_eq!(first.error.as_ref().unwrap().message, "protocol error: empty line received");
    let second = Response::from_json(&Json::parse(&lines[1]).unwrap()).unwrap();
    assert_eq!(second.error.as_ref().unwrap().code, -32001);
    assert_eq!(handler.stats().responses_sent, 4);
}

#[test]
fn handler_reads_and_counts_requests() {
    let reader = MockReader::new(vec![
        r#"{"method":"ping"}"#.to_string(),
        "".to_string(),
        r#"{"method":"bad name"}"#.to_string(),
    ]);
    let mut handler = IpcHandler::with_io(reader, MockWriter::new());
    assert_eq!(handler.read_request().unwrap().method, "ping");
    assert!(matches!(handler.read_request(), Err(IpcError::Json(_))));
    assert!(matches!(handler.read_request(), Err(IpcError::InvalidRequest { .. })));
    assert!(matches!(handler.read_request(), Err(IpcError::ProcessCommunication { .. })));
    assert_eq!(handler.stats().requests_processed, 1);
}

#[test]
fn handler_takes_what_the_reader_and_the_writer_hand_back() {
    let reader = MockReader::new(vec![r#"{"method":"ping","id":"r"}"#.to_string()]);
    let mut handler = IpcHandler::with_io(reader, MockWriter::new());
    let line = handler.read_line().unwrap();
    assert_eq!(line, r#"{"method":"ping","id":"r"}"#);
    assert!(matches!(handler.read_line(), Err(IpcError::ProcessCommunication { .. })));
    assert_eq!(handler.stats().requests_processed, 0);

    let request = handler.accept_read(Ok(line)).unwrap();
    assert_eq!(request.id, Some("r".to_string()));
    assert_eq!(handler.stats().requests_processed, 1);
    match handler.accept_read(Err(IpcError::Io("broken".to_string()))) {
        Err(IpcError::Io(text)) => assert_eq!(text, "broken"),
        other => panic!("unexpected: {:?}", other),
    }
    assert!(matches!(handler.accept_read(Ok("nonsense".to_string())), Err(IpcError::Json(_))));
    assert_eq!(handler.stats().requests_processed, 1);

    assert!(handler.settle("a line", Ok(())).is_ok());
    assert_eq!(handler.stats().responses_sent, 1);
    match handler.settle("a line", Err(IpcError::Io("closed".to_string()))) {
        Err(IpcError::Io(text)) => assert_eq!(text, "closed"),
        other => panic!("unexpected: {:?}", other),
    }
    assert_eq!(handler.stats().responses_sent, 1);
}

#[test]
fn read_failures_end_the_session_or_are_answered() {
    let mut service = service(vec![]);
    match service.handle_read(Err(IpcError::Io("pipe".to_string()))) {
        Err(IpcError::Io(text)) => assert_eq!(text, "pipe"),
        _ => panic!("expected the failure back"),
    }
    assert!(matches!(
        service.handle_read(Err(IpcError::process_communication("EOF reached"))),
        Err(IpcError::ProcessCommunication { .. })
    ));
    assert!(service.ipc_handler.writer.lines().is_empty());

    assert!(matches!(
        service.handle_read(Err(IpcError::protocol("empty line received"))),
        Ok(Action::Continue)
    ));
    assert!(matches!(
        service.handle_read(Ok(r#"{"method":"ping"}"#.to_string())),
        Ok(Action::Continue)
    ));
    let responses = written(&service);
    assert_eq!(responses.len(), 2);
    assert_eq!(error_code(&responses[0]), -32603);
    assert_eq!(responses[0].error.as_ref().unwrap().message, "protocol error: empty line received");
    assert_eq!(responses[1].status, ResponseStatus::Success);
}

#[test]
fn error_kinds_have_their_codes() {
    assert_eq!(code_of_error(&IpcError::Json("x".to_string())), -32700);
    assert_eq!(code_of_error(&IpcError::invalid_request("x")), -32600);
    assert_eq!(code_of_error(&IpcError::invalid_response("x")), -32602);
    assert_eq!(code_of_error(&IpcError::timeout("x")), -32001);
    assert_eq!(code_of_error(&IpcError::process_communication("x")), -32002);
    assert_eq!(code_of_error(&IpcError::protocol("x")), -32603);
    assert_eq!(code_of_error(&IpcError::Io("x".to_string())), -32603);
}

#[test]
fn handler_does_not_write_a_signal_with_a_payload() {
    let mut handler = IpcHandler::with_io(MockReader::new(vec![]), MockWriter::new());
    let mut ready = Response::ready();
    ready.result = Some(Json::uint(1));
    match handler.write_response(&ready) {
        Err(IpcError::InvalidResponse { message }) => {
            assert_eq!(message, "ready response cannot have result")
        }
        other => panic!("unexpected: {:?}", other),
    }
    let mut processing = Response::processing(Some("p".to_string()));
    processing.error = Some(ai_worker::protocol::ErrorInfo::new(1, "x".to_string()));
    assert!(matches!(handler.send_response(&processing), Err(IpcError::InvalidResponse { .. })));
    assert!(handler.writer.lines().is_empty());
    assert_eq!(handler.stats().responses_sent, 0);
}

#[test]
fn only_transport_failures_end_a_session() {
    assert!(is_session_end(&IpcError::Io("pipe".to_string())));
    assert!(is_session_end(&IpcError::process_communication("EOF reached")));
    assert!(!is_session_end(&IpcError::Json("x".to_string())));
    assert!(!is_session_end(&IpcError::protocol("x")));
    assert!(!is_session_end(&IpcError::invalid_request("x")));
    assert!(!is_session_end(&IpcError::invalid_response("x")));
    assert!(!is_session_end(&IpcError::timeout("x")));
}

#[test]
fn written_lines_hold_no_line_feed() {
    let mut handler = IpcHandler::with_io(MockReader::new(vec![]), MockWriter::new());
    handler
        .send_error(Some("multi\nline".to_string()), -32603, "first\nsecond\r\nthird".to_string())
        .unwrap();
    let lines = handler.writer.lines();
    assert_eq!(lines.len(), 1);
    assert!(!lines[0].contains('\n'));
    let back = Response::from_json(&Json::parse(&lines[0]).unwrap()).unwrap();
    assert_eq!(back.id, Some("multi\nline".to_string()));
    assert_eq!(back.error.unwrap().message, "first\nsecond\r\nthird");
}
