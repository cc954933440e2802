use std::sync::Arc;

use ai_worker::config::Config;
use ai_worker::errors::AiCoreError;
use ai_worker::inference::{complete, InferenceEngine};
use ai_worker::json::Json;
use ai_worker::model_loader::{Model, ModelFormat};

fn test_model() -> Model {
    Model {
        path: "test.gguf".to_string(),
        format: ModelFormat::Gguf,
        backend: "onnx".to_string(),
        metadata: Vec::new(),
        data: Arc::new(vec![]),
    }
}

fn config_from(text: &str) -> Config {
    Config { data: Json::parse(text).unwrap() }
}

#[test]
fn test_inference_from_config() {
    let config = config_from(
        "{\"inference\": {\"cache_enabled\": true, \"cache_max_size\": 10, \"labels\": {\"type\": \"test\"}}}",
    );

    let engine = InferenceEngine::from_config(&config);
    assert!(engine.is_ok());
    let engine = engine.unwrap();
    assert!(engine.cache.is_some());
}

#[test]
fn test_infer_single() {
    let config = Config::new();
    let mut engine = InferenceEngine::from_config(&config).unwrap();

    let model = test_model();

    let output = engine.infer(&model, "test input");
    assert!(output.is_ok());
    assert!(output.unwrap().contains("Response to 'test input'"));
}

#[test]
fn test_infer_batch() {
    let config = Config::new();
    let mut engine = InferenceEngine::from_config(&config).unwrap();

    let model = test_model();

    let inputs = vec!["input1".to_string(), "input2".to_string()];
    let outputs = engine.infer_batch(&model, &inputs);
    assert!(outputs.is_ok());
    let outputs = outputs.unwrap();
    assert_eq!(outputs.len(), 2);
    assert!(outputs[0].contains("input1"));
    assert!(outputs[1].contains("input2"));
}

#[test]
fn test_inference_cache() {
    let config = config_from("{\"inference\": {\"cache_enabled\": true, \"cache_max_size\": 5}}");
    let mut engine = InferenceEngine::from_config(&config).unwrap();

    let model = test_model();

    let input = "cached input";
    let output1 = engine.infer(&model, input).unwrap();
    let output2 = engine.infer(&model, input).unwrap();
    assert_eq!(output1, output2);
}

#[test]
fn completion_has_the_exact_text() {
    let model = test_model();
    assert_eq!(complete(&model, "hi", 512), "Response to 'hi' (max_tokens: 512)");
    assert_eq!(complete(&model, "", 0), "Response to '' (max_tokens: 0)");
    assert_eq!(complete(&model, "a b", 1000000), "Response to 'a b' (max_tokens: 1000000)");
}

#[test]
fn infer_uses_the_default_budget() {
    let mut engine = InferenceEngine::new();
    let out = engine.infer(&test_model(), "q").unwrap();
    assert_eq!(out, "Response to 'q' (max_tokens: 512)");
}

#[test]
fn memo_ignores_the_budget() {
    let config = config_from("{\"inference\": {\"cache_enabled\": true}}");
    let mut engine = InferenceEngine::from_config(&config).unwrap();
    let model = test_model();

    let first = engine.run(&model, "same", 10).unwrap();
    let second = engine.run(&model, "same", 99).unwrap();
    assert_eq!(first, "Response to 'same' (max_tokens: 10)");
    assert_eq!(second, first);
    assert_eq!(engine.cache.as_ref().unwrap().len(), 1);
}

#[test]
fn without_memo_every_run_is_fresh() {
    let mut engine = InferenceEngine::new();
    let model = test_model();
    assert!(engine.cache.is_none());
    assert_eq!(engine.run(&model, "same", 10).unwrap(), "Response to 'same' (max_tokens: 10)");
    assert_eq!(engine.run(&model, "same", 99).unwrap(), "Response to 'same' (max_tokens: 99)");
}

#[test]
fn batch_keeps_the_order_of_its_inputs() {
    let config = config_from("{\"inference\": {\"cache_enabled\": true}}");
    let mut engine = InferenceEngine::from_config(&config).unwrap();
    let inputs = vec!["b".to_string(), "a".to_string(), "b".to_string()];
    let outputs = engine.infer_batch(&test_model(), &inputs).unwrap();
    assert_eq!(
        outputs,
        vec![
            "Response to 'b' (max_tokens: 512)".to_string(),
            "Response to 'a' (max_tokens: 512)".to_string(),
            "Response to 'b' (max_tokens: 512)".to_string(),
        ]
    );
    assert_eq!(engine.cache.as_ref().unwrap().len(), 2);
    let empty: Vec<String> = Vec::new();
    assert_eq!(engine.infer_batch(&test_model(), &empty).unwrap(), empty);
}

#[test]
fn memo_is_off_unless_enabled() {
    let engine = InferenceEngine::from_config(&config_from("{\"inference\": {\"cache_enabled\": false}}"))
        .unwrap();
    assert!(engine.cache.is_none());
    let engine = InferenceEngine::from_config(&config_from("{\"inference\": {}}")).unwrap();
    assert!(engine.cache.is_none());
}

#[test]
fn labels_must_be_an_object_of_texts() {
    let bad = config_from("{\"inference\": {\"labels\": {\"n\": 1}}}");
    assert!(matches!(InferenceEngine::from_config(&bad), Err(AiCoreError::Inference { .. })));
    let bad = config_from("{\"inference\": {\"labels\": [\"a\"]}}");
    assert!(matches!(InferenceEngine::from_config(&bad), Err(AiCoreError::Inference { .. })));
    let good = config_from("{\"inference\": {\"labels\": {\"a\": \"b\", \"c\": \"d\"}}}");
    let engine = InferenceEngine::from_config(&good).unwrap();
    assert_eq!(
        engine.metrics_labels,
        vec![("a".to_string(), "b".to_string()), ("c".to_string(), "d".to_string())]
    );
}
