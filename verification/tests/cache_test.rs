use ai_worker::cache::Cache;
use ai_worker::config::Config;
use ai_worker::errors::AiCoreError;
use ai_worker::json::Json;

fn create_cache_config(max_size: usize) -> Config {
    let text = format!("{{\"cache\": {{\"max_size\": {}}}}}", max_size);
    Config { data: Json::parse(&text).unwrap() }
}

fn create_cache_config_with_labels(max_size: usize, labels: &str) -> Config {
    let text = format!("{{\"cache\": {{\"max_size\": {}, \"labels\": {}}}}}", max_size, labels);
    Config { data: Json::parse(&text).unwrap() }
}

#[test]
fn test_cache_from_config() {
    let config = create_cache_config_with_labels(5, "{\"type\": \"test\"}");

    let cache: Result<Cache<String>, AiCoreError> = Cache::from_config(&config);
    assert!(cache.is_ok());
    let cache = cache.unwrap();
    assert_eq!(cache.size(), 0);
    assert_eq!(cache.capacity(), 5);
}

#[test]
fn test_cache_insert_and_get() {
    let config = create_cache_config(100);
    let mut cache: Cache<i32> = Cache::from_config(&config).unwrap();

    cache.insert("key1".to_string(), 42);
    assert_eq!(cache.size(), 1);
    assert_eq!(cache.get("key1"), Some(42));
    assert_eq!(cache.get("missing"), None);
}

#[test]
fn test_cache_eviction() {
    let config = create_cache_config(2);
    let mut cache: Cache<String> = Cache::from_config(&config).unwrap();

    cache.insert("1".to_string(), "one".to_string());
    cache.insert("2".to_string(), "two".to_string());
    cache.insert("3".to_string(), "three".to_string());

    assert_eq!(cache.size(), 2);
    assert_eq!(cache.get("1"), None);
    assert_eq!(cache.get("2"), Some("two".to_string()));
    assert_eq!(cache.get("3"), Some("three".to_string()));
}

#[test]
fn test_cache_clear() {
    let config = create_cache_config(100);
    let mut cache: Cache<bool> = Cache::from_config(&config).unwrap();

    cache.insert("key".to_string(), true);
    assert_eq!(cache.size(), 1);

    cache.clear();
    assert_eq!(cache.size(), 0);
    assert_eq!(cache.get("key"), None);
}

#[test]
fn test_cache_valid_configurations() {
    let config = create_cache_config(50);

    let result: Result<Cache<String>, AiCoreError> = Cache::from_config(&config);
    assert!(result.is_ok());

    let cache = result.unwrap();
    assert_eq!(cache.size(), 0);
}

#[test]
fn test_cache_zero_size_errors() {
    let config = create_cache_config(0);
    let result: Result<Cache<String>, AiCoreError> = Cache::from_config(&config);
    assert!(result.is_err());
    let err = result.err().unwrap();
    match err {
        AiCoreError::InvalidArgument { message, .. } => {
            assert!(message.contains("max_size cannot be 0"));
        }
        _ => panic!("unexpected error: {:?}", err),
    }
}

#[test]
fn cache_new_rejects_zero_capacity() {
    let result: Result<Cache<String>, AiCoreError> = Cache::new(0);
    match result {
        Err(AiCoreError::InvalidArgument { message }) => {
            assert_eq!(message, "cache max_size cannot be 0")
        }
        _ => panic!("expected InvalidArgument"),
    }
}

#[test]
fn cache_default_size_is_100() {
    let cache: Cache<u8> = Cache::from_config(&Config::new()).unwrap();
    assert_eq!(cache.capacity(), 100);
    assert!(cache.is_empty());
}

#[test]
fn cache_lookup_refreshes_an_entry() {
    let mut cache: Cache<u32> = Cache::new(2).unwrap();
    cache.insert("a".to_string(), 1);
    cache.insert("b".to_string(), 2);
    assert_eq!(cache.get("a"), Some(1));
    cache.insert("c".to_string(), 3);

    assert_eq!(cache.get("b"), None);
    assert_eq!(cache.get("a"), Some(1));
    assert_eq!(cache.get("c"), Some(3));
    assert_eq!(cache.len(), 2);
}

#[test]
fn cache_update_keeps_the_size() {
    let mut cache: Cache<u32> = Cache::new(2).unwrap();
    cache.insert("a".to_string(), 1);
    cache.insert("b".to_string(), 2);
    cache.put("a".to_string(), 10);

    assert_eq!(cache.len(), 2);
    assert_eq!(cache.stats().evictions, 0);
    cache.insert("c".to_string(), 3);
    assert_eq!(cache.get("b"), None);
    assert_eq!(cache.get("a"), Some(10));
}

#[test]
fn cache_counts_hits_misses_and_evictions() {
    let mut cache: Cache<u32> = Cache::new(1).unwrap();
    cache.insert("a".to_string(), 1);
    cache.insert("b".to_string(), 2);
    assert_eq!(cache.get("a"), None);
    assert_eq!(cache.get("b"), Some(2));
    assert_eq!(cache.get("b"), Some(2));

    let stats = cache.stats();
    assert_eq!(stats.size, 1);
    assert_eq!(stats.capacity, 1);
    assert_eq!(stats.hits, 2);
    assert_eq!(stats.misses, 1);
    assert_eq!(stats.evictions, 1);
}

#[test]
fn cache_never_exceeds_its_capacity() {
    let mut cache: Cache<usize> = Cache::new(3).unwrap();
    for i in 0..20usize {
        cache.insert(format!("k{}", i % 7), i);
        assert!(cache.len() <= cache.capacity());
    }
    assert_eq!(cache.len(), 3);
}
