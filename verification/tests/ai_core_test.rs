use ai_worker::ai_core::{AiCore, LoadStep};
use ai_worker::config::Config;
use ai_worker::errors::AiCoreError;
use ai_worker::json::Json;
use ai_worker::model_loader::{FileEntry, FileProbe};

fn loaded_core() -> AiCore {
    let mut config = Config::new();
    config.set("models.base_path", "/m").unwrap();
    let mut core = AiCore::new(&config).unwrap();
    match core.begin_load(Some("a.gguf")).unwrap() {
        LoadStep::Read { path } => {
            assert_eq!(path, "/m/a.gguf");
            core.load_model(Some("a.gguf"), path, FileProbe::Content(vec![0; 10])).unwrap();
        }
        other => panic!("unexpected step: {:?}", other),
    }
    core
}

#[test]
fn test_ai_core_creation() {
    let config = Config::new();
    let ai_core = AiCore::new(&config);
    assert!(ai_core.is_ok());
}

#[test]
fn test_model_not_loaded_error() {
    let config = Config::new();
    let mut ai_core = AiCore::new(&config).unwrap();

    let result = ai_core.inference("test input", 10);
    assert!(result.is_err());
    assert!(matches!(result.unwrap_err(), AiCoreError::ModelNotLoaded));
}

#[test]
fn test_stats_tracking() {
    let config = Config::new();
    let mut ai_core = AiCore::new(&config).unwrap();

    let stats = ai_core.get_stats();
    assert_eq!(stats.models_loaded, 0);
    assert_eq!(stats.inferences_performed, 0);
    assert!(stats.uptime < 3600);
}

#[test]
fn test_cache_operations() {
    let config = Config::new();
    let mut ai_core = AiCore::new(&config).unwrap();

    assert!(!ai_core.is_model_loaded());
    ai_core.clear_cache();

    let (size, capacity) = ai_core.cache_stats();
    assert_eq!(size, 0);
    assert_eq!(capacity, 1000);
}

#[test]
fn base_directory_falls_back() {
    let core = AiCore::new(&Config::new()).unwrap();
    assert_eq!(core.model_loader.base_path, ".");
    let mut config = Config::new();
    config.set("ai.model_path", "/tmp/test").unwrap();
    let core = AiCore::new(&config).unwrap();
    assert_eq!(core.model_loader.base_path, "/tmp/test");
    config.set("models.base_path", "/models").unwrap();
    let core = AiCore::new(&config).unwrap();
    assert_eq!(core.model_loader.base_path, "/models");
}

#[test]
fn zero_model_cache_is_rejected() {
    let config = Config { data: Json::parse("{\"cache\": {\"max_size\": 0}}").unwrap() };
    assert!(matches!(AiCore::new(&config), Err(AiCoreError::InvalidArgument { .. })));
}

#[test]
fn loading_reports_and_counts() {
    let mut config = Config::new();
    config.set("models.base_path", "/m").unwrap();
    let mut core = AiCore::new(&config).unwrap();
    let step = core.begin_load(Some("a.onnx")).unwrap();
    let path = match step {
        LoadStep::Read { path } => path,
        other => panic!("unexpected step: {:?}", other),
    };
    assert!(!core.is_model_loaded());
    let info = core.load_model(Some("a.onnx"), path, FileProbe::Content(vec![7; 12])).unwrap();
    assert_eq!(info.format, "Onnx");
    assert_eq!(info.size_bytes, 12);
    assert!(!info.loaded_at.is_empty());
    assert!(core.is_model_loaded());
    assert_eq!(core.current_model_info(), Some("a.onnx".to_string()));
    assert_eq!(core.get_stats().models_loaded, 1);

    match core.begin_load(Some("a.onnx")).unwrap() {
        LoadStep::Done(info) => assert_eq!(info.size_bytes, 12),
        other => panic!("unexpected step: {:?}", other),
    }
    assert_eq!(core.get_stats().models_loaded, 2);
    assert_eq!(core.model_loader.disk_loads, 1);
}

#[test]
fn failed_load_keeps_the_current_model() {
    let mut core = loaded_core();
    let path = match core.begin_load(Some("b.bin")).unwrap() {
        LoadStep::Read { path } => path,
        other => panic!("unexpected step: {:?}", other),
    };
    let result = core.load_model(Some("b.bin"), path, FileProbe::Content(vec![]));
    assert!(matches!(result, Err(AiCoreError::Unsupported { .. })));
    assert_eq!(core.current_model_info(), Some("a.gguf".to_string()));
    assert_eq!(core.get_stats().models_loaded, 1);
    let path = match core.begin_load(Some("c.gguf")).unwrap() {
        LoadStep::Read { path } => path,
        other => panic!("unexpected step: {:?}", other),
    };
    assert!(matches!(
        core.load_model(Some("c.gguf"), path, FileProbe::Missing),
        Err(AiCoreError::NotFound { .. })
    ));
}

#[test]
fn discovery_goes_through_a_listing() {
    let mut config = Config::new();
    config.set("models.base_path", "/m").unwrap();
    let mut core = AiCore::new(&config).unwrap();
    match core.begin_load(None).unwrap() {
        LoadStep::Scan { dir } => assert_eq!(dir, "/m"),
        other => panic!("unexpected step: {:?}", other),
    }
    let entries = vec![
        FileEntry { path: "/m/a.gguf".to_string(), is_file: true, modified: 1 },
        FileEntry { path: "/m/b.onnx".to_string(), is_file: true, modified: 2 },
    ];
    let path = match core.choose_model(&entries).unwrap() {
        LoadStep::Read { path } => path,
        other => panic!("unexpected step: {:?}", other),
    };
    assert_eq!(path, "/m/b.onnx");
    core.load_model(None, path, FileProbe::Content(vec![1])).unwrap();
    assert_eq!(core.current_model_info(), Some("default".to_string()));
    assert!(matches!(core.choose_model(&entries).unwrap(), LoadStep::Done(_)));
    assert!(matches!(core.choose_model(&Vec::new()), Err(AiCoreError::NotFound { .. })));
}

#[test]
fn inference_is_cached_by_input_budget_and_model() {
    let mut core = loaded_core();
    let first = core.inference("What is a raster layer?", 4).unwrap();
    assert_eq!(first.text, "Response to 'What is a raster layer?' (max_tokens: 4)");
    assert_eq!(first.tokens_generated, 4);
    assert_eq!(first.model_used, "a.gguf");

    let again = core.inference("What is a raster layer?", 4).unwrap();
    assert_eq!(again.text, first.text);
    assert_eq!(again.inference_time_ms, first.inference_time_ms);

    let other = core.inference("What is a raster layer?", 100).unwrap();
    assert_eq!(other.text, "Response to 'What is a raster layer?' (max_tokens: 100)");
    assert_eq!(other.tokens_generated, 5);

    let stats = core.get_stats();
    assert_eq!(stats.cache_hits, 1);
    assert_eq!(stats.cache_misses, 2);
    assert_eq!(stats.inferences_performed, 2);
    assert_eq!(core.cache_stats(), (2, 1000));

    core.clear_cache();
    assert_eq!(core.cache_stats(), (0, 1000));
    core.inference("What is a raster layer?", 4).unwrap();
    assert_eq!(core.get_stats().cache_misses, 3);
}
