use ai_worker::errors::{AiCoreError, Context, IpcError};

#[test]
fn test_model_load_error() {
    let err = AiCoreError::model_load("invalid format");
    assert_eq!(err.to_string(), "model load error: invalid format");
    assert!(!err.is_retryable());
}

#[test]
fn test_inference_error() {
    let err = AiCoreError::inference("shape mismatch");
    assert_eq!(err.to_string(), "inference error: shape mismatch");
    assert!(!err.is_retryable());
}

#[test]
fn test_streaming_error() {
    let err = AiCoreError::streaming("token overflow");
    assert_eq!(err.to_string(), "streaming error: token overflow");
    assert!(!err.is_retryable());
}

#[test]
fn test_cache_error() {
    let err = AiCoreError::cache("eviction failed");
    assert_eq!(err.to_string(), "cache error: eviction failed");
    assert!(!err.is_retryable());
}

#[test]
fn test_invalid_arg_error() {
    let err = AiCoreError::invalid_arg("negative value");
    assert_eq!(err.to_string(), "invalid argument: negative value");
    assert!(!err.is_retryable());
}

#[test]
fn test_not_found_error() {
    let err = AiCoreError::not_found("tensor key");
    assert_eq!(err.to_string(), "not found: tensor key");
    assert!(!err.is_retryable());
}

#[test]
fn test_unsupported_error() {
    let err = AiCoreError::unsupported("GPU backend");
    assert_eq!(err.to_string(), "unsupported operation: GPU backend");
    assert!(!err.is_retryable());
}

#[test]
fn test_timeout_error() {
    let err = AiCoreError::timeout();
    assert_eq!(err.to_string(), "operation timed out");
    assert!(err.is_retryable());
}

#[test]
fn test_canceled_error() {
    let err = AiCoreError::canceled();
    assert_eq!(err.to_string(), "operation cancelled");
    assert!(err.is_retryable());
}

#[test]
fn test_with_context() {
    let cause = "file missing".to_string();
    let result: Result<i32, AiCoreError> = Err::<i32, String>(cause).with_context("during load");
    let err = result.unwrap_err();
    assert!(err.to_string().contains("during load"));
    if let AiCoreError::Other { message, source, .. } = err {
        assert_eq!(message, "during load");
        assert!(source.is_some());
    } else {
        panic!("expected Other variant");
    }
}

#[test]
fn test_display() {
    let err = AiCoreError::with_context("test error", "source");
    assert!(err.to_string().contains("test error"));
}

#[test]
fn with_context_passes_a_success_through() {
    let result: Result<i32, AiCoreError> = Ok::<i32, String>(7).with_context("unused");
    assert_eq!(result.unwrap(), 7);
}

#[test]
fn channel_errors_are_retryable() {
    assert!(AiCoreError::ChannelSend("gone".to_string()).is_retryable());
    assert!(AiCoreError::ChannelRecv("gone".to_string()).is_retryable());
    assert!(!AiCoreError::Io("disk".to_string()).is_retryable());
    assert!(!AiCoreError::Join("worker".to_string()).is_retryable());
    assert!(!AiCoreError::ModelNotLoaded.is_retryable());
}

#[test]
fn plumbing_errors_render_their_cause() {
    assert_eq!(AiCoreError::Io("file missing".to_string()).to_string(), "io error: file missing");
    assert_eq!(AiCoreError::Json("bad".to_string()).to_string(), "json error: bad");
    assert_eq!(AiCoreError::Yaml("bad".to_string()).to_string(), "yaml error: bad");
    assert_eq!(AiCoreError::Utf8("bad".to_string()).to_string(), "utf8 error: bad");
    assert_eq!(AiCoreError::ChannelSend("x".to_string()).to_string(), "channel send error: x");
    assert_eq!(AiCoreError::ChannelRecv("x".to_string()).to_string(), "channel recv error: x");
    assert_eq!(AiCoreError::Spawn("x".to_string()).to_string(), "spawn error: x");
    assert_eq!(AiCoreError::Join("x".to_string()).to_string(), "join error: x");
    assert_eq!(AiCoreError::ModelNotLoaded.to_string(), "no model loaded");
}

#[test]
fn ipc_errors_render_their_kind() {
    assert_eq!(IpcError::invalid_request("m").to_string(), "invalid request: m");
    assert_eq!(IpcError::invalid_response("m").to_string(), "invalid response: m");
    assert_eq!(IpcError::protocol("m").to_string(), "protocol error: m");
    assert_eq!(IpcError::timeout("m").to_string(), "timeout: m");
    assert_eq!(
        IpcError::process_communication("m").to_string(),
        "process communication error: m"
    );
    assert_eq!(IpcError::Io("m".to_string()).to_string(), "io error: m");
    assert_eq!(IpcError::Json("m".to_string()).to_string(), "json error: m");
}
