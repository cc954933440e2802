use ai_worker::config::Config;
use ai_worker::errors::AiCoreError;
use ai_worker::json::Json;
use ai_worker::model_loader::{
    format_from_extension, format_name, FileEntry, FileProbe, ModelFormat, ModelLoader,
};

fn create_test_config(base_path: &str) -> Config {
    let text = format!(
        "{{\"models\": {{\"base_path\": \"{}\", \"backend\": \"onnx\", \"auto_discover\": true, \
         \"supported_formats\": [\"gguf\", \"onnx\"], \
         \"checksums\": {{\"test.gguf\": \"d41d8cd98f00b204e9800998ecf8427e\"}}}}}}",
        base_path
    );
    Config { data: Json::parse(&text).unwrap() }
}

fn entry(path: &str, modified: u64) -> FileEntry {
    FileEntry { path: path.to_string(), is_file: true, modified }
}

#[test]
fn test_from_config() {
    let config = create_test_config("/tmp/models");
    let loader = ModelLoader::from_config(&config);
    assert!(loader.is_ok());
    let loader = loader.unwrap();
    assert_eq!(loader.base_path, "/tmp/models");
    assert_eq!(loader.default_backend, "onnx");
    assert!(loader.auto_discover);
    assert_eq!(loader.supported_formats, vec![ModelFormat::Gguf, ModelFormat::Onnx]);
    assert_eq!(
        loader.checksums,
        vec![("test.gguf".to_string(), "d41d8cd98f00b204e9800998ecf8427e".to_string())]
    );
}

#[test]
fn test_load_specific_path_success() {
    let config = create_test_config("/tmp/models");
    let mut loader = ModelLoader::from_config(&config).unwrap();

    let path = loader.resolve(Some("test.gguf")).unwrap().unwrap();
    assert_eq!(path, "/tmp/models/test.gguf");
    let model = loader.load(path, FileProbe::Content(b"".to_vec()));
    assert!(model.is_ok());
    let model = model.unwrap();
    assert_eq!(model.path, "/tmp/models/test.gguf");
    assert_eq!(model.format, ModelFormat::Gguf);
    assert_eq!(model.backend, "onnx");
    assert_eq!(model.metadata, vec![("version".to_string(), "1.0".to_string())]);
    assert!(model.data.is_empty());
}

#[test]
fn test_load_auto_discovery() {
    let config = create_test_config("/tmp/models");
    let mut loader = ModelLoader::from_config(&config).unwrap();

    assert_eq!(loader.resolve(None).unwrap(), None);
    let entries = vec![entry("/tmp/models/test.gguf", 1), entry("/tmp/models/test.onnx", 1)];
    let found = loader.discover_model(&entries).unwrap();
    let path = found[0].clone();
    let model = loader.load(path, FileProbe::Content(b"".to_vec()));
    assert!(model.is_ok());
    let model = model.unwrap();
    assert!(model.path.ends_with("test.gguf") || model.path.ends_with("test.onnx"));
}

#[test]
fn test_load_not_found() {
    let config = create_test_config("/tmp/models");
    let mut loader = ModelLoader::from_config(&config).unwrap();

    let path = loader.resolve(Some("missing.gguf")).unwrap().unwrap();
    let result = loader.load(path, FileProbe::Missing);
    assert!(result.is_err());
    assert!(
        matches!(result.unwrap_err(), AiCoreError::NotFound { what, .. } if what.contains("missing.gguf"))
    );
}

#[test]
fn test_load_unsupported_format() {
    let config = create_test_config("/tmp/models");
    let mut loader = ModelLoader::from_config(&config).unwrap();

    let path = loader.resolve(Some("test.invalid")).unwrap().unwrap();
    let result = loader.load(path, FileProbe::Content(b"".to_vec()));
    assert!(result.is_err());
    assert!(
        matches!(result.unwrap_err(), AiCoreError::Unsupported { what, .. } if what.contains("unknown model format"))
    );
}

#[test]
fn test_load_checksum_mismatch() {
    let config = create_test_config("/tmp/models");
    let mut loader = ModelLoader::from_config(&config).unwrap();

    let path = loader.resolve(Some("test.gguf")).unwrap().unwrap();
    let result = loader.load(path, FileProbe::Content(b"content".to_vec()));
    assert!(result.is_err());
    assert!(
        matches!(result.unwrap_err(), AiCoreError::Cache { message, .. } if message == "checksum mismatch")
    );
}

#[test]
fn test_caching() {
    let config = create_test_config("/tmp/models");
    let mut loader = ModelLoader::from_config(&config).unwrap();

    let path = loader.resolve(Some("test.gguf")).unwrap().unwrap();
    let model1 = loader.load(path.clone(), FileProbe::Content(b"".to_vec())).unwrap();
    let model2 = loader.load(path, FileProbe::Content(b"".to_vec())).unwrap();
    assert_eq!(model1.path, model2.path);
}

#[test]
fn second_load_does_not_read_again() {
    let config = create_test_config("/models");
    let mut loader = ModelLoader::from_config(&config).unwrap();
    let path = loader.resolve(Some("other.onnx")).unwrap().unwrap();

    let first = loader.load(path.clone(), FileProbe::Content(vec![1, 2, 3])).unwrap();
    assert_eq!(loader.disk_loads, 1);
    let cached = loader.cached(&path).unwrap();
    assert_eq!(cached.data, first.data);
    let second = loader.load(path.clone(), FileProbe::Missing).unwrap();
    assert_eq!(second.data, first.data);
    assert_eq!(second.path, first.path);
    assert_eq!(second.format, ModelFormat::Onnx);
    assert_eq!(loader.disk_loads, 1);
    assert_eq!(loader.cache.len(), 1);
}

#[test]
fn file_without_checksum_entry_loads() {
    let config = create_test_config("/models");
    let mut loader = ModelLoader::from_config(&config).unwrap();
    let path = loader.resolve(Some("free.gguf")).unwrap().unwrap();
    let model = loader.load(path, FileProbe::Content(b"content".to_vec())).unwrap();
    assert_eq!(*model.data, b"content".to_vec());
}

#[test]
fn matching_checksum_loads() {
    let text = "{\"models\": {\"base_path\": \"/m\", \
                \"checksums\": {\"a.gguf\": \"9a0364b9e99bb480dd25e1f0284c8555\"}}}";
    let config = Config { data: Json::parse(text).unwrap() };
    let mut loader = ModelLoader::from_config(&config).unwrap();
    let path = loader.resolve(Some("a.gguf")).unwrap().unwrap();
    assert!(loader.load(path, FileProbe::Content(b"content".to_vec())).is_ok());
}

#[test]
fn discovery_picks_the_newest_file() {
    let config = create_test_config("/m");
    let loader = ModelLoader::from_config(&config).unwrap();
    let entries = vec![entry("/m/a.gguf", 100), entry("/m/b.onnx", 200)];
    let found = loader.discover_model(&entries).unwrap();
    assert_eq!(found, vec!["/m/b.onnx".to_string(), "/m/a.gguf".to_string()]);
}

#[test]
fn discovery_orders_and_filters() {
    let config = create_test_config("/m");
    let loader = ModelLoader::from_config(&config).unwrap();
    let entries = vec![
        entry("/m/old.gguf", 5),
        entry("/m/notes.txt", 900),
        FileEntry { path: "/m/dir.gguf".to_string(), is_file: false, modified: 800 },
        entry("/m/tie1.onnx", 7),
        entry("/m/new.gguf", 9),
        entry("/m/tie2.gguf", 7),
        entry("/m/noext", 1000),
    ];
    let found = loader.discover_model(&entries).unwrap();
    assert_eq!(
        found,
        vec![
            "/m/new.gguf".to_string(),
            "/m/tie2.gguf".to_string(),
            "/m/tie1.onnx".to_string(),
            "/m/old.gguf".to_string(),
        ]
    );
}

#[test]
fn discovery_without_a_match_is_not_found() {
    let config = create_test_config("/m");
    let loader = ModelLoader::from_config(&config).unwrap();
    let entries = vec![entry("/m/readme.md", 1)];
    match loader.discover_model(&entries) {
        Err(AiCoreError::NotFound { what }) => {
            assert_eq!(what, "no supported model found in /m")
        }
        other => panic!("unexpected: {:?}", other),
    }
    assert!(matches!(loader.discover_model(&Vec::new()), Err(AiCoreError::NotFound { .. })));
}

#[test]
fn no_path_without_discovery_is_invalid() {
    let text = "{\"models\": {\"base_path\": \"/m\", \"auto_discover\": false}}";
    let config = Config { data: Json::parse(text).unwrap() };
    let loader = ModelLoader::from_config(&config).unwrap();
    match loader.resolve(None) {
        Err(AiCoreError::InvalidArgument { message }) => {
            assert_eq!(message, "No path provided and auto-discover disabled")
        }
        other => panic!("unexpected: {:?}", other),
    }
}

#[test]
fn format_outside_the_accepted_set_is_unsupported() {
    let text = "{\"models\": {\"base_path\": \"/m\", \"supported_formats\": [\"gguf\"]}}";
    let config = Config { data: Json::parse(text).unwrap() };
    let mut loader = ModelLoader::from_config(&config).unwrap();
    assert_eq!(loader.supported_formats, vec![ModelFormat::Gguf]);
    let path = loader.resolve(Some("x.onnx")).unwrap().unwrap();
    match loader.load(path, FileProbe::Content(vec![])) {
        Err(AiCoreError::Unsupported { what }) => {
            assert_eq!(what, "unsupported model format Onnx for /m/x.onnx")
        }
        other => panic!("unexpected: {:?}", other),
    }
    assert_eq!(loader.cache.len(), 0);
}

#[test]
fn unreadable_file_is_reported_with_its_cause() {
    let config = create_test_config("/m");
    let mut loader = ModelLoader::from_config(&config).unwrap();
    let path = loader.resolve(Some("x.onnx")).unwrap().unwrap();
    match loader.load(path, FileProbe::Unreadable("permission denied".to_string())) {
        Err(AiCoreError::Other { message, source }) => {
            assert_eq!(message, "reading model file at /m/x.onnx");
            assert_eq!(source, Some("permission denied".to_string()));
        }
        other => panic!("unexpected: {:?}", other),
    }
}

#[test]
fn settings_have_defaults() {
    let config = Config { data: Json::parse("{\"models\": {\"base_path\": \"/m\"}}").unwrap() };
    let loader = ModelLoader::from_config(&config).unwrap();
    assert_eq!(loader.default_backend, "onnx");
    assert!(loader.auto_discover);
    assert_eq!(loader.supported_formats, vec![ModelFormat::Gguf, ModelFormat::Onnx]);
    assert!(loader.checksums.is_empty());
    assert_eq!(loader.cache.capacity(), 100);
}

#[test]
fn empty_or_unknown_format_list_falls_back_to_the_default() {
    let config = Config {
        data: Json::parse("{\"models\": {\"base_path\": \"/m\", \"supported_formats\": []}}").unwrap(),
    };
    let loader = ModelLoader::from_config(&config).unwrap();
    assert_eq!(loader.supported_formats, vec![ModelFormat::Gguf, ModelFormat::Onnx]);
    let config = Config {
        data: Json::parse(
            "{\"models\": {\"base_path\": \"/m\", \"supported_formats\": [\"bin\", 3, \"onnx\"]}}",
        )
        .unwrap(),
    };
    let loader = ModelLoader::from_config(&config).unwrap();
    assert_eq!(loader.supported_formats, vec![ModelFormat::Onnx]);
}

#[test]
fn missing_base_path_is_invalid() {
    match ModelLoader::from_config(&Config::new()) {
        Err(AiCoreError::InvalidArgument { message }) => {
            assert_eq!(message, "Missing models.base_path")
        }
        _ => panic!("expected InvalidArgument"),
    }
}

#[test]
fn zero_cache_size_is_invalid() {
    let config = Config {
        data: Json::parse("{\"models\": {\"base_path\": \"/m\"}, \"cache\": {\"max_size\": 0}}")
            .unwrap(),
    };
    match ModelLoader::from_config(&config) {
        Err(AiCoreError::InvalidArgument { message }) => {
            assert_eq!(message, "cache max_size cannot be 0")
        }
        _ => panic!("expected InvalidArgument"),
    }
}

#[test]
fn formats_are_detected_from_extensions() {
    let loader = ModelLoader::from_config(&create_test_config("/m")).unwrap();
    assert_eq!(loader.detect_format("/m/a.gguf"), Some(ModelFormat::Gguf));
    assert_eq!(loader.detect_format("a.b.onnx"), Some(ModelFormat::Onnx));
    assert_eq!(loader.detect_format("/m/a.GGUF"), None);
    assert_eq!(loader.detect_format("/m/gguf"), None);
    assert_eq!(loader.detect_format("/m/.gguf"), None);
    assert_eq!(format_from_extension(Some("onnx")), Some(ModelFormat::Onnx));
    assert_eq!(format_from_extension(None), None);
    assert_eq!(format_name(ModelFormat::Gguf), "Gguf");
    assert_eq!(format_name(ModelFormat::Other), "Other");
}

#[test]
fn model_cache_evicts_the_least_recent_path() {
    let config = Config {
        data: Json::parse("{\"models\": {\"base_path\": \"/m\"}, \"cache\": {\"max_size\": 1}}")
            .unwrap(),
    };
    let mut loader = ModelLoader::from_config(&config).unwrap();
    loader.load("/m/a.gguf".to_string(), FileProbe::Content(vec![1])).unwrap();
    loader.load("/m/b.gguf".to_string(), FileProbe::Content(vec![2])).unwrap();
    assert!(loader.cached("/m/a.gguf").is_none());
    assert!(loader.cached("/m/b.gguf").is_some());
    assert_eq!(loader.disk_loads, 2);
}
