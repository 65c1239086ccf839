use genai_client::json::{compact_text, JsonNumber, JsonValue};
use genai_client::models::shared::{FunctionCallingMode, FunctionDeclaration, FunctionParameters, Tool};

fn from_serde(v: &serde_json::Value) -> JsonValue {
    match v {
        serde_json::Value::Null => JsonValue::Null,
        serde_json::Value::Bool(b) => JsonValue::Bool(*b),
        serde_json::Value::Number(n) => {
            if let Some(u) = n.as_u64() {
                JsonValue::Number(JsonNumber::PosInt(u))
            } else if let Some(i) = n.as_i64() {
                JsonValue::Number(JsonNumber::NegInt(i))
            } else {
                JsonValue::Number(JsonNumber::Float(n.to_string()))
            }
        }
        serde_json::Value::String(s) => JsonValue::String(s.clone()),
        serde_json::Value::Array(items) => JsonValue::Array(items.iter().map(from_serde).collect()),
        serde_json::Value::Object(map) => {
            JsonValue::Object(map.iter().map(|(k, v)| (k.clone(), from_serde(v))).collect())
        }
    }
}

fn parse(text: &str) -> JsonValue {
    from_serde(&serde_json::from_str::<serde_json::Value>(text).unwrap())
}

fn reread(v: &JsonValue) -> serde_json::Value {
    serde_json::from_str(&compact_text(v)).unwrap()
}

#[test]
fn shared_test_serialize_function_declaration() {
    let function = FunctionDeclaration::builder("get_weather")
        .description("Get the current weather in a given location")
        .parameter("location", parse(r#"{"type": "string", "description": "The city and state, e.g. San Francisco, CA"}"#))
        .required(vec!["location".to_string()])
        .build();

    let json_string = compact_text(&function.to_json());
    let parsed = FunctionDeclaration::from_json(&parse(&json_string)).expect("Deserialization failed");
    assert_eq!(parsed.name(), "get_weather");
    assert_eq!(parsed.description(), "Get the current weather in a given location");
}

#[test]
fn test_function_calling_mode_serialization() {
    let test_cases = [
        (FunctionCallingMode::Auto, "\"AUTO\""),
        (FunctionCallingMode::Any, "\"ANY\""),
        (FunctionCallingMode::NoCalls, "\"NONE\""),
        (FunctionCallingMode::Validated, "\"VALIDATED\""),
    ];
    for (mode, expected_json) in test_cases {
        let json = compact_text(&mode.to_json());
        assert_eq!(json, expected_json);
        let parsed = FunctionCallingMode::from_json(&parse(&json));
        assert_eq!(parsed, mode);
    }
}

#[test]
fn test_function_calling_mode_unknown_roundtrip() {
    let json = "\"FUTURE_MODE\"";
    let parsed = FunctionCallingMode::from_json(&parse(json));
    assert!(parsed.is_unknown());
    assert_eq!(parsed.unknown_mode_type(), Some("FUTURE_MODE"));
    let reserialized = compact_text(&parsed.to_json());
    assert_eq!(reserialized, json);
}

#[test]
fn test_function_calling_mode_helper_methods() {
    assert!(!FunctionCallingMode::Auto.is_unknown());
    assert!(!FunctionCallingMode::Any.is_unknown());
    assert!(!FunctionCallingMode::NoCalls.is_unknown());
    assert!(!FunctionCallingMode::Validated.is_unknown());
    assert!(FunctionCallingMode::Auto.unknown_mode_type().is_none());
    assert!(FunctionCallingMode::Auto.unknown_data().is_none());

    let unknown =
        FunctionCallingMode::Unknown { mode_type: "NEW_MODE".to_string(), data: JsonValue::String("NEW_MODE".to_string()) };
    assert!(unknown.is_unknown());
    assert_eq!(unknown.unknown_mode_type(), Some("NEW_MODE"));
    assert!(unknown.unknown_data().is_some());
}

#[test]
fn test_function_calling_mode_non_string_value() {
    let parsed = FunctionCallingMode::from_json(&parse("123"));
    assert!(parsed.is_unknown());
    assert!(parsed.unknown_mode_type().unwrap().contains("<non-string:"));
}

#[test]
fn test_tool_google_search_roundtrip() {
    let tool = Tool::GoogleSearch;
    let json = compact_text(&tool.to_json());
    assert!(json.contains("\"type\":\"google_search\""));
    let parsed = Tool::from_json(&parse(&json));
    assert!(matches!(parsed, Tool::GoogleSearch));
}

#[test]
fn test_tool_function_roundtrip() {
    let tool = Tool::Function {
        name: "get_weather".to_string(),
        description: "Get weather".to_string(),
        parameters: FunctionParameters::new("object".to_string(), parse("{}"), vec![]),
    };
    let json = compact_text(&tool.to_json());
    let parsed = Tool::from_json(&parse(&json));
    match parsed {
        Tool::Function { name, .. } => assert_eq!(name, "get_weather"),
        other => panic!("Expected Function variant, got {:?}", other),
    }
}

#[test]
fn test_tool_unknown_deserialization() {
    let json = r#"{"type": "future_tool", "some_field": "value", "number": 42}"#;
    let parsed = Tool::from_json(&parse(json));
    match parsed {
        Tool::Unknown { tool_type, data } => {
            assert_eq!(tool_type, "future_tool");
            let data = reread(&data);
            assert_eq!(data.get("some_field").unwrap(), "value");
            assert_eq!(data.get("number").unwrap(), 42);
        }
        _ => panic!("Expected Unknown variant"),
    }
}

#[test]
fn test_tool_unknown_roundtrip() {
    let tool = Tool::Unknown {
        tool_type: "new_tool".to_string(),
        data: parse(r#"{"type": "new_tool", "config": {"enabled": true}}"#),
    };
    let json = compact_text(&tool.to_json());
    assert!(json.contains("\"type\":\"new_tool\""));
    assert!(json.contains("\"config\""));
    let parsed = Tool::from_json(&parse(&json));
    match parsed {
        Tool::Unknown { tool_type, .. } => assert_eq!(tool_type, "new_tool"),
        _ => panic!("Expected Unknown variant"),
    }
}

#[test]
fn test_tool_unknown_helper_methods() {
    let unknown_tool = Tool::Unknown {
        tool_type: "future_tool".to_string(),
        data: parse(r#"{"type": "future_tool", "setting": 123}"#),
    };
    assert!(unknown_tool.is_unknown());
    assert_eq!(unknown_tool.unknown_tool_type(), Some("future_tool"));
    let data = reread(unknown_tool.unknown_data().expect("Should have data"));
    assert_eq!(data.get("setting").unwrap(), 123);
}

#[test]
fn test_tool_known_types_helper_methods() {
    let google_search = Tool::GoogleSearch;
    assert!(!google_search.is_unknown());
    assert_eq!(google_search.unknown_tool_type(), None);
    assert_eq!(google_search.unknown_data(), None);

    let code_execution = Tool::CodeExecution;
    assert!(!code_execution.is_unknown());
    assert_eq!(code_execution.unknown_tool_type(), None);
    assert_eq!(code_execution.unknown_data(), None);

    let url_context = Tool::UrlContext;
    assert!(!url_context.is_unknown());
    assert_eq!(url_context.unknown_tool_type(), None);
    assert_eq!(url_context.unknown_data(), None);

    let function = Tool::Function {
        name: "test".to_string(),
        description: "Test function".to_string(),
        parameters: FunctionParameters::new("object".to_string(), parse("{}"), vec![]),
    };
    assert!(!function.is_unknown());
    assert_eq!(function.unknown_tool_type(), None);
    assert_eq!(function.unknown_data(), None);
}

#[test]
fn test_function_calling_mode_non_string_text_exact() {
    let parsed = FunctionCallingMode::from_json(&parse(r#"{"b": 2, "a": [1, true]}"#));
    assert_eq!(parsed.unknown_mode_type(), Some(r#"<non-string: {"a":[1,true],"b":2}>"#));
}

#[test]
fn test_builder_chain_last_schema_wins() {
    let d = FunctionDeclaration::builder("")
        .description("d")
        .parameter("x", parse(r#"{"type": "string"}"#))
        .parameter("y", parse(r#"{"type": "integer"}"#))
        .parameter("x", parse(r#"{"type": "boolean"}"#))
        .required(vec!["z".to_string()])
        .build();
    assert_eq!(d.name(), "");
    assert_eq!(d.description(), "d");
    assert_eq!(d.parameters().type_(), "object");
    let props = reread(d.parameters().properties());
    assert_eq!(props["x"]["type"], "boolean");
    assert_eq!(props["y"]["type"], "integer");
    assert_eq!(d.parameters().required(), &["z".to_string()]);
}

#[test]
fn test_unknown_tool_roundtrip_keeps_type_first_data() {
    let tool = Tool::Unknown { tool_type: "x_tool".to_string(), data: parse(r#"{"type": "x_tool", "k": 1}"#) };
    let back = Tool::from_json(&tool.to_json());
    match back {
        Tool::Unknown { tool_type, data } => {
            assert_eq!(tool_type, "x_tool");
            assert_eq!(compact_text(&data), r#"{"k":1,"type":"x_tool"}"#);
        }
        _ => panic!("Expected Unknown variant"),
    }
}
