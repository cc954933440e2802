use ai_worker::config::{split_pointer, Config};
use ai_worker::errors::AiCoreError;
use ai_worker::json::{Json, JsonNumber};
use ai_worker::text::{char_is_whitespace, str_eq, str_is_blank, u64_to_decimal};

#[test]
fn json_text_is_parsed_into_values() {
    let j = Json::parse("{\"b\": [1, -2, 1.5, \"x\", null, true], \"a\": {}}").unwrap();
    assert_eq!(
        j,
        Json::Object(vec![
            ("a".to_string(), Json::Object(vec![])),
            (
                "b".to_string(),
                Json::Array(vec![
                    Json::Number(JsonNumber::PosInt(1)),
                    Json::Number(JsonNumber::NegInt(-2)),
                    Json::Number(JsonNumber::Float("1.5".to_string())),
                    Json::Str("x".to_string()),
                    Json::Null,
                    Json::Bool(true),
                ])
            ),
        ])
    );
    assert_eq!(j.get("a"), Some(&Json::Object(vec![])));
    assert_eq!(j.get("c"), None);
    assert_eq!(Json::Null.get("a"), None);
}

#[test]
fn json_values_are_rendered_as_one_line() {
    let j = Json::Object(vec![
        ("z".to_string(), Json::Str("line\nbreak".to_string())),
        ("n".to_string(), Json::Number(JsonNumber::Float("0.95".to_string()))),
    ]);
    assert_eq!(j.render().unwrap(), "{\"n\":0.95,\"z\":\"line\\nbreak\"}");
    assert_eq!(Json::parse(&j.render().unwrap()).unwrap().get("z"), j.get("z"));
    let bad = Json::Number(JsonNumber::Float("not a number".to_string()));
    assert!(bad.render().is_err());
}

#[test]
fn json_accessors_tell_the_variants_apart() {
    assert_eq!(Json::string("s").as_str(), Some("s"));
    assert_eq!(Json::uint(3).as_str(), None);
    assert_eq!(Json::uint(3).as_u64(), Some(3));
    assert_eq!(Json::Number(JsonNumber::NegInt(-3)).as_u64(), None);
    assert_eq!(Json::Number(JsonNumber::Float("3.0".to_string())).as_u64(), None);
    assert_eq!(Json::Bool(false).as_bool(), Some(false));
    assert_eq!(Json::Null.as_bool(), None);
    assert!(Json::Null.is_null());
    assert!(!Json::Bool(false).is_null());
    let nested = Json::parse("[{\"a\": [1, {\"b\": null}]}]").unwrap();
    assert_eq!(nested.duplicate(), nested);
}

#[test]
fn json_pointers_find_values() {
    let j = Json::parse("{\"x\": {\"y\": [\"z\", \"zz\"]}, \"a/b\": 1}").unwrap();
    assert_eq!(j.pointer("/x/y/1"), Some(Json::Str("zz".to_string())));
    assert_eq!(j.pointer("/a~1b"), Some(Json::uint(1)));
    assert_eq!(j.pointer("/a/b/c"), None);
    assert_eq!(j.pointer("x"), None);
    assert_eq!(j.pointer(""), Some(j.duplicate()));
}

#[test]
fn config_reads_by_pointer_or_dotted_path() {
    let config = Config {
        data: Json::parse("{\"models\": {\"base_path\": \"/m\", \"n\": 3, \"on\": true}}").unwrap(),
    };
    assert_eq!(config.get_string("/models/base_path"), Some("/m".to_string()));
    assert_eq!(config.get_string("models.base_path"), Some("/m".to_string()));
    assert_eq!(config.get_string("/models/n"), None);
    assert_eq!(config.get_usize("/models/n"), Some(3));
    assert_eq!(config.get_usize("/models/base_path"), None);
    assert_eq!(config.get_bool("/models/on"), Some(true));
    assert_eq!(config.get_bool("/models/missing"), None);
    assert_eq!(config.get("/models/n"), Some(Json::uint(3)));
    assert_eq!(config.get_or_default("/models/base_path", "default"), "/m");
    assert_eq!(config.get_or_default("/missing", "default"), "default");
    assert_eq!(Config::normalize_pointer("a.b.c"), "/a/b/c");
    assert_eq!(Config::normalize_pointer("/a.b"), "/a.b");
    assert_eq!(Config::normalize_pointer(""), "/");
}

#[test]
fn config_set_makes_objects_along_the_way() {
    let mut config = Config::new();
    config.set("ai.model_path", "/opt/models").unwrap();
    config.set("ai.backend", "onnx").unwrap();
    config.set("/logging/level", "info").unwrap();
    config.set("ai.model_path", "/other").unwrap();
    assert_eq!(
        config.data,
        Json::Object(vec![
            (
                "ai".to_string(),
                Json::Object(vec![
                    ("model_path".to_string(), Json::Str("/other".to_string())),
                    ("backend".to_string(), Json::Str("onnx".to_string())),
                ])
            ),
            (
                "logging".to_string(),
                Json::Object(vec![("level".to_string(), Json::Str("info".to_string()))])
            ),
        ])
    );
    config.set("ai.backend.kind", "x").unwrap();
    assert_eq!(config.get_string("/ai/backend/kind"), Some("x".to_string()));
    assert_eq!(config.get_string("/ai/model_path"), Some("/other".to_string()));
}

#[test]
fn config_set_rejects_bad_paths_and_values() {
    let mut config = Config::new();
    assert!(matches!(config.set("", "v"), Err(AiCoreError::InvalidArgument { .. })));
    assert!(matches!(config.set("///", "v"), Err(AiCoreError::InvalidArgument { .. })));
    assert!(matches!(config.set("a", "quote\"inside"), Err(AiCoreError::Json(_))));
    assert_eq!(config.data, Json::Object(vec![]));
    config.set("a", "tab\\tescaped").unwrap();
    assert_eq!(config.get_string("/a"), Some("tab\tescaped".to_string()));
}

#[test]
fn pointers_split_on_slashes() {
    assert_eq!(split_pointer("/a/b"), vec!["a".to_string(), "b".to_string()]);
    assert_eq!(split_pointer("//a//b/"), vec!["a".to_string(), "".to_string(), "b".to_string(), "".to_string()]);
    assert_eq!(split_pointer(""), vec!["".to_string()]);
    assert_eq!(split_pointer("abc"), vec!["abc".to_string()]);
}

#[test]
fn text_helpers_agree_with_std() {
    assert!(str_eq("gguf", "gguf"));
    assert!(!str_eq("gguf", "ggu"));
    assert!(str_is_blank(""));
    assert!(str_is_blank(" \t\r\n\u{3000}"));
    assert!(!str_is_blank(" x "));
    for code in 0u32..0x3100 {
        if let Some(c) = char::from_u32(code) {
            assert_eq!(char_is_whitespace(c), c.is_whitespace(), "U+{:04X}", code);
        }
    }
    assert_eq!(u64_to_decimal(0), "0");
    assert_eq!(u64_to_decimal(9), "9");
    assert_eq!(u64_to_decimal(10), "10");
    assert_eq!(u64_to_decimal(18446744073709551615), "18446744073709551615");
}
