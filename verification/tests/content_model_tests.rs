use genai_client::json::{compact_text, JsonNumber, JsonValue};
use genai_client::models::content::{Annotation, CodeExecutionLanguage, CodeExecutionOutcome, InteractionContent};
use genai_client::models::media::Resolution;
use genai_client::models::response::InteractionResponse;

fn from_serde(v: &serde_json::Value) -> JsonValue {
    match v {
        serde_json::Value::Null => JsonValue::Null,
        serde_json::Value::Bool(b) => JsonValue::Bool(*b),
        serde_json::Value::Number(n) => {
            if let Some(u) = n.as_u64() {
                JsonValue::Number(JsonNumber::PosInt(u))
            } else if let Some(i) = n.as_i64() {
                JsonValue::Number(JsonNumber::NegInt(i))
            } else {
                JsonValue::Number(JsonNumber::Float(n.to_string()))
            }
        }
        serde_json::Value::String(s) => JsonValue::String(s.clone()),
        serde_json::Value::Array(items) => JsonValue::Array(items.iter().map(from_serde).collect()),
        serde_json::Value::Object(map) => {
            JsonValue::Object(map.iter().map(|(k, v)| (k.clone(), from_serde(v))).collect())
        }
    }
}

fn parse(text: &str) -> JsonValue {
    from_serde(&serde_json::from_str::<serde_json::Value>(text).unwrap())
}

fn reread(v: &JsonValue) -> serde_json::Value {
    serde_json::from_str(&compact_text(v)).unwrap()
}

fn sval(text: &str) -> serde_json::Value {
    serde_json::from_str(text).unwrap()
}

/// Serializes content to JSON text and decodes that text again.
fn roundtrip(c: &InteractionContent) -> InteractionContent {
    let json = compact_text(&c.to_json());
    InteractionContent::from_json(&parse(&json))
}

#[test]
fn content_tests_test_serialize_interaction_content() {
    let content = InteractionContent::Text { text: Some("Hello".to_string()), annotations: None };
    let value = reread(&content.to_json());
    assert_eq!(value["type"], "text");
    assert_eq!(value["text"], "Hello");
}

#[test]
fn test_content_thought_accessor() {
    let content = InteractionContent::Thought { text: Some("reasoning about the problem".to_string()) };
    assert_eq!(content.thought(), Some("reasoning about the problem"));

    let empty = InteractionContent::Thought { text: Some(String::new()) };
    assert_eq!(empty.thought(), None);

    let none = InteractionContent::Thought { text: None };
    assert_eq!(none.thought(), None);

    let text_content = InteractionContent::Text { text: Some("hello".to_string()), annotations: None };
    assert_eq!(text_content.thought(), None);
}

#[test]
fn content_tests_test_deserialize_unknown_interaction_content() {
    let unknown_json = r#"{"type": "future_api_feature", "data_field": "some_value", "count": 42}"#;
    let content = InteractionContent::from_json(&parse(unknown_json));

    match &content {
        InteractionContent::Unknown { content_type, data } => {
            assert_eq!(content_type, "future_api_feature");
            let data = reread(data);
            assert_eq!(data["data_field"], "some_value");
            assert_eq!(data["count"], 42);
        }
        _ => panic!("Expected Unknown variant, got {:?}", content),
    }

    assert!(content.is_unknown());
    assert_eq!(content.unknown_content_type(), Some("future_api_feature"));
    assert!(content.unknown_data().is_some());
}

#[test]
fn tests_test_deserialize_unknown_interaction_content() {
    content_tests_test_deserialize_unknown_interaction_content();
}

#[test]
fn unknown_content_tests_test_deserialize_unknown_interaction_content() {
    content_tests_test_deserialize_unknown_interaction_content();
}

#[test]
fn content_tests_test_deserialize_unknown_streaming_content() {
    let content = InteractionContent::from_json(&parse(r#"{"type": "new_feature_delta", "data": "some_value"}"#));
    assert!(content.is_unknown());
    assert_eq!(content.unknown_content_type(), Some("new_feature_delta"));
    match &content {
        InteractionContent::Unknown { content_type, data } => {
            assert_eq!(content_type, "new_feature_delta");
            assert_eq!(reread(data)["data"], "some_value");
        }
        _ => panic!("Expected Unknown variant"),
    }
}

#[test]
fn content_tests_test_serialize_unknown_content_roundtrip() {
    let unknown = InteractionContent::Unknown {
        content_type: "code_execution_result".to_string(),
        data: parse(r#"{"outcome": "success", "output": "42"}"#),
    };
    let value = reread(&unknown.to_json());
    assert_eq!(value["type"], "code_execution_result");
    assert_eq!(value["outcome"], "success");
    assert_eq!(value["output"], "42");
}

#[test]
fn content_tests_test_serialize_known_variant_with_none_fields() {
    let text = InteractionContent::Text { text: None, annotations: None };
    let value = reread(&text.to_json());
    assert_eq!(value["type"], "text");
    assert!(value.get("text").is_none());
    assert!(value.get("annotations").is_none());

    let image = InteractionContent::Image { data: Some("base64data".to_string()), uri: None, mime_type: None };
    let value = reread(&image.to_json());
    assert_eq!(value["type"], "image");
    assert_eq!(value["data"], "base64data");
    assert!(value.get("uri").is_none());
    assert!(value.get("mime_type").is_none());
    assert!(value.get("resolution").is_none());

    let fc = InteractionContent::FunctionCall {
        id: None,
        name: "test_fn".to_string(),
        args: parse(r#"{"arg": "value"}"#),
        thought_signature: None,
    };
    let value = reread(&fc.to_json());
    assert_eq!(value["type"], "function_call");
    assert_eq!(value["name"], "test_fn");
    assert!(value.get("id").is_none());
    assert!(value.get("thoughtSignature").is_none());
}

#[test]
fn content_tests_test_serialize_unknown_with_non_object_data() {
    let unknown_array = InteractionContent::Unknown { content_type: "weird_type".to_string(), data: parse("[1, 2, 3]") };
    let value = reread(&unknown_array.to_json());
    assert_eq!(value["type"], "weird_type");
    assert_eq!(value["data"], sval("[1, 2, 3]"));

    let unknown_string = InteractionContent::Unknown {
        content_type: "string_type".to_string(),
        data: JsonValue::String("just a string".to_string()),
    };
    let value = reread(&unknown_string.to_json());
    assert_eq!(value["type"], "string_type");
    assert_eq!(value["data"], "just a string");

    let unknown_null = InteractionContent::Unknown { content_type: "null_type".to_string(), data: JsonValue::Null };
    let value = reread(&unknown_null.to_json());
    assert_eq!(value["type"], "null_type");
    assert!(value.get("data").is_none());
}

#[test]
fn content_tests_test_serialize_unknown_with_duplicate_type_field() {
    let unknown = InteractionContent::Unknown {
        content_type: "correct_type".to_string(),
        data: parse(r#"{"type": "should_be_ignored", "field1": "value1", "field2": 42}"#),
    };
    let value = reread(&unknown.to_json());
    assert_eq!(value["type"], "correct_type");
    assert_eq!(value["field1"], "value1");
    assert_eq!(value["field2"], 42);
    let obj = value.as_object().unwrap();
    let type_count = obj.keys().filter(|k| *k == "type").count();
    assert_eq!(type_count, 1);
}

#[test]
fn tests_test_serialize_unknown_with_duplicate_type_field() {
    content_tests_test_serialize_unknown_with_duplicate_type_field();
}

#[test]
fn unknown_content_tests_test_serialize_unknown_with_duplicate_type_field() {
    content_tests_test_serialize_unknown_with_duplicate_type_field();
}

#[test]
fn test_serialize_unknown_with_empty_content_type() {
    let unknown = InteractionContent::Unknown { content_type: String::new(), data: parse(r#"{"field": "value"}"#) };
    let value = reread(&unknown.to_json());
    assert_eq!(value["type"], "");
    assert_eq!(value["field"], "value");
}

#[test]
fn tests_test_serialize_unknown_with_empty_type_name() {
    test_serialize_unknown_with_empty_content_type();
}

#[test]
fn unknown_content_tests_test_serialize_unknown_with_empty_type_name() {
    test_serialize_unknown_with_empty_content_type();
}

#[test]
fn content_tests_test_serialize_unknown_with_special_characters() {
    let unknown = InteractionContent::Unknown {
        content_type: "special/type:with.chars-and_underscores".to_string(),
        data: parse(r#"{"key": "value"}"#),
    };
    let value = reread(&unknown.to_json());
    assert_eq!(value["type"], "special/type:with.chars-and_underscores");
}

#[test]
fn tests_test_serialize_unknown_with_special_characters() {
    content_tests_test_serialize_unknown_with_special_characters();
}

#[test]
fn unknown_content_tests_test_serialize_unknown_with_special_characters() {
    content_tests_test_serialize_unknown_with_special_characters();
}

#[test]
fn content_tests_test_unknown_manual_construction_roundtrip() {
    let original = InteractionContent::Unknown {
        content_type: "manual_test".to_string(),
        data: parse(
            r#"{"nested": {"deeply": {"nested": "value"}}, "array": [1, 2, 3], "number": 42, "boolean": true, "null_field": null}"#,
        ),
    };
    let deserialized = roundtrip(&original);

    assert!(deserialized.is_unknown());
    assert_eq!(deserialized.unknown_content_type(), Some("manual_test"));

    if let InteractionContent::Unknown { data, .. } = deserialized {
        let data = reread(&data);
        assert_eq!(data["nested"]["deeply"]["nested"], "value");
        assert_eq!(data["array"], sval("[1, 2, 3]"));
        assert_eq!(data["number"], 42);
        assert_eq!(data["boolean"], true);
        assert_eq!(data.get("null_field"), Some(&serde_json::Value::Null));
    } else {
        panic!("Expected Unknown variant");
    }
}

#[test]
fn tests_test_unknown_manual_construction_roundtrip() {
    content_tests_test_unknown_manual_construction_roundtrip();
}

#[test]
fn unknown_content_tests_test_unknown_manual_construction_roundtrip() {
    content_tests_test_unknown_manual_construction_roundtrip();
}

#[test]
fn content_tests_test_deserialize_unknown_with_missing_type() {
    let content = InteractionContent::from_json(&parse(r#"{"foo": "bar", "baz": 42}"#));
    match content {
        InteractionContent::Unknown { content_type, data } => {
            assert_eq!(content_type, "<missing type>");
            let data = reread(&data);
            assert_eq!(data["foo"], "bar");
            assert_eq!(data["baz"], 42);
        }
        _ => panic!("Expected Unknown variant"),
    }
}

#[test]
fn content_tests_test_deserialize_unknown_with_null_type() {
    let content = InteractionContent::from_json(&parse(r#"{"type": null, "content": "test"}"#));
    match content {
        InteractionContent::Unknown { content_type, data } => {
            assert_eq!(content_type, "<missing type>");
            assert_eq!(reread(&data)["content"], "test");
        }
        _ => panic!("Expected Unknown variant"),
    }
}

#[test]
fn content_tests_test_deserialize_code_execution_call() {
    let json = r#"{"type": "code_execution_call", "id": "call_123", "arguments": {"code": "print(42)", "language": "PYTHON"}}"#;
    let content = InteractionContent::from_json(&parse(json));
    match &content {
        InteractionContent::CodeExecutionCall { id, language, code } => {
            assert_eq!(id, "call_123");
            assert_eq!(*language, CodeExecutionLanguage::Python);
            assert_eq!(code, "print(42)");
        }
        _ => panic!("Expected CodeExecutionCall variant, got {:?}", content),
    }
    assert!(content.is_code_execution_call());
    assert!(!content.is_unknown());
}

#[test]
fn content_tests_test_deserialize_code_execution_call_direct_fields() {
    let json = r#"{"type": "code_execution_call", "id": "call_123", "language": "PYTHON", "code": "print(42)"}"#;
    let content = InteractionContent::from_json(&parse(json));
    match &content {
        InteractionContent::CodeExecutionCall { id, language, code } => {
            assert_eq!(id, "call_123");
            assert_eq!(*language, CodeExecutionLanguage::Python);
            assert_eq!(code, "print(42)");
        }
        _ => panic!("Expected CodeExecutionCall variant, got {:?}", content),
    }
}

#[test]
fn test_deserialize_code_execution_call_malformed_becomes_unknown() {
    let json = r#"{"type": "code_execution_call", "id": "call_malformed", "extra_field": "unexpected"}"#;
    let content = InteractionContent::from_json(&parse(json));
    match &content {
        InteractionContent::Unknown { content_type, data } => {
            assert_eq!(content_type, "code_execution_call");
            let data = reread(data);
            assert_eq!(data["id"], "call_malformed");
            assert_eq!(data["extra_field"], "unexpected");
            assert_eq!(data["type"], "code_execution_call");
        }
        InteractionContent::CodeExecutionCall { code, .. } => {
            panic!("Should NOT be CodeExecutionCall with empty code (got code={:?})", code);
        }
        _ => panic!("Expected Unknown variant, got {:?}", content),
    }
    assert!(content.is_unknown());
    assert!(!content.is_code_execution_call());
    assert_eq!(content.unknown_content_type(), Some("code_execution_call"));
}

#[test]
fn test_deserialize_code_execution_call_malformed_roundtrip() {
    let json = r#"{"type": "code_execution_call", "id": "call_malformed", "custom": {"nested": true}}"#;
    let content = InteractionContent::from_json(&parse(json));
    assert!(content.is_unknown());

    let value = reread(&content.to_json());
    assert_eq!(value["type"], "code_execution_call");
    assert_eq!(value["id"], "call_malformed");
    assert_eq!(value["custom"]["nested"], true);
}

#[test]
fn test_deserialize_code_execution_call_arguments_missing_code_becomes_unknown() {
    let json = r#"{"type": "code_execution_call", "id": "call_args_no_code", "arguments": {"language": "PYTHON"}}"#;
    let content = InteractionContent::from_json(&parse(json));
    match &content {
        InteractionContent::Unknown { content_type, data } => {
            assert_eq!(content_type, "code_execution_call");
            let data = reread(data);
            assert_eq!(data["id"], "call_args_no_code");
            assert_eq!(data["arguments"]["language"], "PYTHON");
        }
        InteractionContent::CodeExecutionCall { code, .. } => {
            panic!("Should NOT be CodeExecutionCall with empty code (got code={:?})", code);
        }
        _ => panic!("Expected Unknown variant, got {:?}", content),
    }
    assert!(content.is_unknown());
}

#[test]
fn test_deserialize_code_execution_call_arguments_valid() {
    let json = r#"{"type": "code_execution_call", "id": "call_valid", "arguments": {"language": "PYTHON", "code": "print('hi')"}}"#;
    let content = InteractionContent::from_json(&parse(json));
    match &content {
        InteractionContent::CodeExecutionCall { id, language, code } => {
            assert_eq!(id, "call_valid");
            assert_eq!(*language, CodeExecutionLanguage::Python);
            assert_eq!(code, "print('hi')");
        }
        _ => panic!("Expected CodeExecutionCall variant, got {:?}", content),
    }
    assert!(content.is_code_execution_call());
    assert!(!content.is_unknown());
}

fn check_deserialize_code_execution_result() {
    let json = r#"{"type": "code_execution_result", "call_id": "call_123", "is_error": false, "result": "42\n"}"#;
    let content = InteractionContent::from_json(&parse(json));
    match &content {
        InteractionContent::CodeExecutionResult { call_id, outcome, output } => {
            assert_eq!(call_id, "call_123");
            assert!(outcome.is_success());
            assert_eq!(output, "42\n");
        }
        _ => panic!("Expected CodeExecutionResult variant, got {:?}", content),
    }
    assert!(content.is_code_execution_result());
    assert!(!content.is_unknown());
}

#[test]
fn content_tests_test_deserialize_code_execution_result() {
    check_deserialize_code_execution_result();
}

#[test]
fn tests_test_deserialize_code_execution_result() {
    check_deserialize_code_execution_result();
}

fn check_deserialize_code_execution_result_with_outcome() {
    let json = r#"{"type": "code_execution_result", "call_id": "call_123", "outcome": "OUTCOME_OK", "output": "42\n"}"#;
    let content = InteractionContent::from_json(&parse(json));
    match &content {
        InteractionContent::CodeExecutionResult { call_id, outcome, output } => {
            assert_eq!(call_id, "call_123");
            assert_eq!(*outcome, CodeExecutionOutcome::Success);
            assert_eq!(output, "42\n");
        }
        _ => panic!("Expected CodeExecutionResult variant, got {:?}", content),
    }
}

#[test]
fn content_tests_test_deserialize_code_execution_result_with_outcome() {
    check_deserialize_code_execution_result_with_outcome();
}

#[test]
fn tests_test_deserialize_code_execution_result_with_outcome() {
    check_deserialize_code_execution_result_with_outcome();
}

fn check_deserialize_code_execution_result_error() {
    let json = r#"{"type": "code_execution_result", "call_id": "call_456", "is_error": true, "result": "NameError: x not defined"}"#;
    let content = InteractionContent::from_json(&parse(json));
    match &content {
        InteractionContent::CodeExecutionResult { call_id, outcome, output } => {
            assert_eq!(call_id, "call_456");
            assert!(outcome.is_error());
            assert!(output.contains("NameError"));
        }
        _ => panic!("Expected CodeExecutionResult variant, got {:?}", content),
    }
}

#[test]
fn content_tests_test_deserialize_code_execution_result_error() {
    check_deserialize_code_execution_result_error();
}

#[test]
fn tests_test_deserialize_code_execution_result_error() {
    check_deserialize_code_execution_result_error();
}

fn check_deserialize_code_execution_result_deadline_exceeded() {
    let json = r#"{"type": "code_execution_result", "call_id": "call_789", "outcome": "OUTCOME_DEADLINE_EXCEEDED", "output": "Execution timed out after 30 seconds"}"#;
    let content = InteractionContent::from_json(&parse(json));
    match &content {
        InteractionContent::CodeExecutionResult { call_id, outcome, output } => {
            assert_eq!(call_id, "call_789");
            assert_eq!(*outcome, CodeExecutionOutcome::DeadlineExceeded);
            assert!(outcome.is_error());
            assert!(!outcome.is_success());
            assert!(output.contains("timed out"));
        }
        _ => panic!("Expected CodeExecutionResult variant, got {:?}", content),
    }
}

#[test]
fn content_tests_test_deserialize_code_execution_result_deadline_exceeded() {
    check_deserialize_code_execution_result_deadline_exceeded();
}

#[test]
fn tests_test_deserialize_code_execution_result_deadline_exceeded() {
    check_deserialize_code_execution_result_deadline_exceeded();
}

fn check_deserialize_url_context_call() {
    let content = InteractionContent::from_json(&parse(r#"{"type": "url_context_call", "url": "https://example.com"}"#));
    match &content {
        InteractionContent::UrlContextCall { url } => assert_eq!(url, "https://example.com"),
        _ => panic!("Expected UrlContextCall variant, got {:?}", content),
    }
    assert!(content.is_url_context_call());
    assert!(!content.is_unknown());
}

#[test]
fn content_tests_test_deserialize_url_context_call() {
    check_deserialize_url_context_call();
}

#[test]
fn tests_test_deserialize_url_context_call() {
    check_deserialize_url_context_call();
}

fn check_deserialize_url_context_result() {
    let json = r#"{"type": "url_context_result", "url": "https://example.com", "content": "<html>...</html>"}"#;
    let content = InteractionContent::from_json(&parse(json));
    match &content {
        InteractionContent::UrlContextResult { url, content } => {
            assert_eq!(url, "https://example.com");
            assert_eq!(content.as_deref(), Some("<html>...</html>"));
        }
        _ => panic!("Expected UrlContextResult variant, got {:?}", content),
    }
    assert!(content.is_url_context_result());
    assert!(!content.is_unknown());
}

#[test]
fn content_tests_test_deserialize_url_context_result() {
    check_deserialize_url_context_result();
}

#[test]
fn tests_test_deserialize_url_context_result() {
    check_deserialize_url_context_result();
}

fn check_url_context_result_with_none_content() {
    let content = InteractionContent::UrlContextResult { url: "https://example.com/blocked".to_string(), content: None };
    let value = reread(&content.to_json());
    assert_eq!(value["type"], "url_context_result");
    assert_eq!(value["url"], "https://example.com/blocked");
    assert!(value.get("content").is_none());

    let json_without_content = r#"{"type": "url_context_result", "url": "https://example.com/timeout"}"#;
    let deserialized = InteractionContent::from_json(&parse(json_without_content));
    match &deserialized {
        InteractionContent::UrlContextResult { url, content } => {
            assert_eq!(url, "https://example.com/timeout");
            assert_eq!(*content, None);
        }
        _ => panic!("Expected UrlContextResult variant"),
    }
}

#[test]
fn content_tests_test_url_context_result_with_none_content() {
    check_url_context_result_with_none_content();
}

#[test]
fn tests_test_url_context_result_with_none_content() {
    check_url_context_result_with_none_content();
}

#[test]
fn content_tests_test_serialize_code_execution_call() {
    let content = InteractionContent::CodeExecutionCall {
        id: "call_123".to_string(),
        language: CodeExecutionLanguage::Python,
        code: "print(42)".to_string(),
    };
    let value = reread(&content.to_json());
    assert_eq!(value["type"], "code_execution_call");
    assert_eq!(value["id"], "call_123");
    assert_eq!(value["language"], "PYTHON");
    assert_eq!(value["code"], "print(42)");
}

fn check_serialize_code_execution_result() {
    let content = InteractionContent::CodeExecutionResult {
        call_id: "call_123".to_string(),
        outcome: CodeExecutionOutcome::Success,
        output: "42".to_string(),
    };
    let value = reread(&content.to_json());
    assert_eq!(value["type"], "code_execution_result");
    assert_eq!(value["call_id"], "call_123");
    assert_eq!(value["outcome"], "OUTCOME_OK");
    assert_eq!(value["output"], "42");
}

#[test]
fn content_tests_test_serialize_code_execution_result() {
    check_serialize_code_execution_result();
}

#[test]
fn tests_test_serialize_code_execution_result() {
    check_serialize_code_execution_result();
}

fn check_serialize_code_execution_result_error() {
    let content = InteractionContent::CodeExecutionResult {
        call_id: "call_456".to_string(),
        outcome: CodeExecutionOutcome::Failed,
        output: "NameError: x not defined".to_string(),
    };
    let value = reread(&content.to_json());
    assert_eq!(value["type"], "code_execution_result");
    assert_eq!(value["call_id"], "call_456");
    assert_eq!(value["outcome"], "OUTCOME_FAILED");
    assert!(value["output"].as_str().unwrap().contains("NameError"));
}

#[test]
fn content_tests_test_serialize_code_execution_result_error() {
    check_serialize_code_execution_result_error();
}

#[test]
fn tests_test_serialize_code_execution_result_error() {
    check_serialize_code_execution_result_error();
}

#[test]
fn content_tests_test_deserialize_response_with_unknown_in_outputs() {
    let response_json = r#"{
        "id": "interaction_789",
        "model": "gemini-3-flash-preview",
        "input": [{"type": "text", "text": "Do something"}],
        "outputs": [
            {"type": "text", "text": "Result:"},
            {"type": "future_tool_result", "data": "some_data"},
            {"type": "another_unknown_type", "value": 123}
        ],
        "status": "completed"
    }"#;

    let response = InteractionResponse::from_json(&parse(response_json)).expect("Should deserialize with unknown types");

    assert_eq!(response.id.as_deref(), Some("interaction_789"));
    assert_eq!(response.outputs.len(), 3);
    assert!(response.has_text());
    assert!(response.has_unknown());

    let summary = response.content_summary();
    assert_eq!(summary.text_count, 1);
    assert_eq!(summary.unknown_count, 2);
    assert!(summary.unknown_types.contains(&"future_tool_result".to_string()));
    assert!(summary.unknown_types.contains(&"another_unknown_type".to_string()));
}

#[test]
fn test_serialize_text_with_annotations() {
    let annotations = vec![
        Annotation { start_index: 0, end_index: 5, source: Some("https://example.com".to_string()) },
        Annotation { start_index: 10, end_index: 20, source: None },
    ];
    let content = InteractionContent::Text {
        text: Some("Hello, world! This is grounded text.".to_string()),
        annotations: Some(annotations),
    };
    let value = reread(&content.to_json());

    assert_eq!(value["type"], "text");
    assert_eq!(value["text"], "Hello, world! This is grounded text.");
    assert!(value["annotations"].is_array());
    assert_eq!(value["annotations"].as_array().unwrap().len(), 2);
    assert_eq!(value["annotations"][0]["start_index"], 0);
    assert_eq!(value["annotations"][0]["end_index"], 5);
    assert_eq!(value["annotations"][0]["source"], "https://example.com");
    assert_eq!(value["annotations"][1]["start_index"], 10);
    assert_eq!(value["annotations"][1]["end_index"], 20);
    assert!(value["annotations"][1].get("source").is_none());
}

#[test]
fn test_serialize_text_with_empty_annotations_omitted() {
    let content = InteractionContent::Text { text: Some("Plain text".to_string()), annotations: Some(vec![]) };
    let value = reread(&content.to_json());
    assert_eq!(value["type"], "text");
    assert_eq!(value["text"], "Plain text");
    assert!(value.get("annotations").is_none());
}

#[test]
fn test_deserialize_text_with_annotations() {
    let json = r#"{
        "type": "text",
        "text": "This is grounded text.",
        "annotations": [
            {"start_index": 0, "end_index": 4, "source": "https://example.com"},
            {"start_index": 8, "end_index": 16}
        ]
    }"#;
    let content = InteractionContent::from_json(&parse(json));
    match content {
        InteractionContent::Text { text, annotations } => {
            assert_eq!(text, Some("This is grounded text.".to_string()));
            let annots = annotations.expect("Should have annotations");
            assert_eq!(annots.len(), 2);
            assert_eq!(annots[0].start_index, 0);
            assert_eq!(annots[0].end_index, 4);
            assert_eq!(annots[0].source, Some("https://example.com".to_string()));
            assert_eq!(annots[1].start_index, 8);
            assert_eq!(annots[1].end_index, 16);
            assert_eq!(annots[1].source, None);
        }
        _ => panic!("Expected Text variant"),
    }
}

#[test]
fn test_deserialize_text_without_annotations() {
    let content = InteractionContent::from_json(&parse(r#"{"type": "text", "text": "Plain text"}"#));
    match content {
        InteractionContent::Text { text, annotations } => {
            assert_eq!(text, Some("Plain text".to_string()));
            assert!(annotations.is_none());
        }
        _ => panic!("Expected Text variant"),
    }
}

#[test]
fn test_text_with_annotations_roundtrip() {
    let annotations =
        vec![Annotation { start_index: 5, end_index: 15, source: Some("https://source.example.com".to_string()) }];
    let original =
        InteractionContent::Text { text: Some("Some grounded content here.".to_string()), annotations: Some(annotations) };

    let json = compact_text(&original.to_json());
    let deserialized = InteractionContent::from_json(&parse(&json));
    let roundtrip_json = compact_text(&deserialized.to_json());
    assert_eq!(json, roundtrip_json);

    match deserialized {
        InteractionContent::Text { text, annotations } => {
            assert_eq!(text, Some("Some grounded content here.".to_string()));
            let annots = annotations.expect("Should have annotations");
            assert_eq!(annots.len(), 1);
            assert_eq!(annots[0].start_index, 5);
            assert_eq!(annots[0].end_index, 15);
            assert_eq!(annots[0].source, Some("https://source.example.com".to_string()));
        }
        _ => panic!("Expected Text variant"),
    }
}

#[test]
fn test_annotations_helper_method() {
    let content_with_annotations = InteractionContent::Text {
        text: Some("Hello".to_string()),
        annotations: Some(vec![Annotation { start_index: 0, end_index: 5, source: None }]),
    };
    assert!(content_with_annotations.annotations().is_some());
    assert_eq!(content_with_annotations.annotations().unwrap().len(), 1);

    let content_without_annotations = InteractionContent::Text { text: Some("Hello".to_string()), annotations: None };
    assert!(content_without_annotations.annotations().is_none());

    let thought = InteractionContent::Thought { text: Some("Thinking...".to_string()) };
    assert!(thought.annotations().is_none());
}

#[test]
fn test_resolution_enum_serialization() {
    assert_eq!(compact_text(&Resolution::Low.to_json()), "\"low\"");
    assert_eq!(compact_text(&Resolution::Medium.to_json()), "\"medium\"");
    assert_eq!(compact_text(&Resolution::High.to_json()), "\"high\"");
    assert_eq!(compact_text(&Resolution::UltraHigh.to_json()), "\"ultra_high\"");
}

#[test]
fn test_resolution_enum_deserialization() {
    assert_eq!(Resolution::from_json(&parse("\"low\"")), Resolution::Low);
    assert_eq!(Resolution::from_json(&parse("\"medium\"")), Resolution::Medium);
    assert_eq!(Resolution::from_json(&parse("\"high\"")), Resolution::High);
    assert_eq!(Resolution::from_json(&parse("\"ultra_high\"")), Resolution::UltraHigh);
}

#[test]
fn test_resolution_unknown_deserialization() {
    let resolution = Resolution::from_json(&parse(r#""super_high""#));
    assert!(resolution.is_unknown());
    assert_eq!(resolution.unknown_resolution_type(), Some("super_high"));
}

#[test]
fn test_resolution_unknown_roundtrip() {
    let unknown =
        Resolution::Unknown { resolution_type: "extreme".to_string(), data: JsonValue::String("extreme".to_string()) };
    let json = compact_text(&unknown.to_json());
    assert_eq!(json, "\"extreme\"");

    let deserialized = Resolution::from_json(&parse(&json));
    assert!(deserialized.is_unknown());
    assert_eq!(deserialized.unknown_resolution_type(), Some("extreme"));
}

#[test]
fn test_resolution_unknown_helper_methods() {
    let known = Resolution::High;
    assert!(!known.is_unknown());
    assert_eq!(known.unknown_resolution_type(), None);
    assert!(known.unknown_data().is_none());

    let unknown = Resolution::Unknown {
        resolution_type: "future_res".to_string(),
        data: parse(r#"{"level": "future_res", "extra": true}"#),
    };
    assert!(unknown.is_unknown());
    assert_eq!(unknown.unknown_resolution_type(), Some("future_res"));
    let data = reread(unknown.unknown_data().unwrap());
    assert_eq!(data.get("extra").unwrap(), true);
}

#[test]
fn tests_test_deserialize_code_execution_call_direct_fields() {
    let json = r#"{"type": "code_execution_call", "id": "call_123", "language": "PYTHON", "code": "print(42)"}"#;
    let content = InteractionContent::from_json(&parse(json));
    match &content {
        InteractionContent::CodeExecutionCall { id, language, code } => {
            assert_eq!(id, "call_123");
            assert_eq!(language.to_string(), "PYTHON");
            assert_eq!(code, "print(42)");
        }
        _ => panic!("Expected CodeExecutionCall variant, got {:?}", content),
    }
}

#[test]
fn tests_test_deserialize_google_search_call() {
    let content = InteractionContent::from_json(&parse(r#"{"type": "google_search_call", "query": "Rust programming"}"#));
    match &content {
        InteractionContent::GoogleSearchCall { query } => assert_eq!(query, "Rust programming"),
        _ => panic!("Expected GoogleSearchCall variant, got {:?}", content),
    }
    assert!(content.is_google_search_call());
    assert!(!content.is_unknown());
}

#[test]
fn tests_test_deserialize_google_search_result() {
    let json = r#"{"type": "google_search_result", "results": {"items": [{"title": "Rust", "url": "https://rust-lang.org"}]}}"#;
    let content = InteractionContent::from_json(&parse(json));
    match &content {
        InteractionContent::GoogleSearchResult { results } => {
            let results = reread(results);
            assert!(results["items"].is_array());
            assert_eq!(results["items"][0]["title"], "Rust");
        }
        _ => panic!("Expected GoogleSearchResult variant, got {:?}", content),
    }
    assert!(content.is_google_search_result());
    assert!(!content.is_unknown());
}

#[test]
fn tests_test_serialize_code_execution_call() {
    let content = InteractionContent::CodeExecutionCall {
        id: "call_123".to_string(),
        language: CodeExecutionLanguage::Python,
        code: "print(42)".to_string(),
    };
    let value = reread(&content.to_json());
    assert_eq!(value["type"], "code_execution_call");
    assert_eq!(value["id"], "call_123");
    assert_eq!(value["language"], "PYTHON");
    assert_eq!(value["code"], "print(42)");
}

#[test]
fn tests_test_roundtrip_built_in_tool_content() {
    let original = InteractionContent::CodeExecutionCall {
        id: "call_123".to_string(),
        language: CodeExecutionLanguage::Python,
        code: "print('hello')".to_string(),
    };
    assert!(matches!(roundtrip(&original), InteractionContent::CodeExecutionCall { .. }));

    let original = InteractionContent::CodeExecutionResult {
        call_id: "call_123".to_string(),
        outcome: CodeExecutionOutcome::Success,
        output: "hello\n".to_string(),
    };
    assert!(matches!(roundtrip(&original), InteractionContent::CodeExecutionResult { .. }));

    let original = InteractionContent::GoogleSearchCall { query: "test query".to_string() };
    assert!(matches!(roundtrip(&original), InteractionContent::GoogleSearchCall { .. }));

    let original = InteractionContent::GoogleSearchResult { results: parse(r#"{"items": []}"#) };
    assert!(matches!(roundtrip(&original), InteractionContent::GoogleSearchResult { .. }));

    let original = InteractionContent::UrlContextCall { url: "https://example.com".to_string() };
    assert!(matches!(roundtrip(&original), InteractionContent::UrlContextCall { .. }));

    let original =
        InteractionContent::UrlContextResult { url: "https://example.com".to_string(), content: Some("content".to_string()) };
    assert!(matches!(roundtrip(&original), InteractionContent::UrlContextResult { .. }));
}

#[test]
fn tests_test_edge_cases_empty_values() {
    let content = InteractionContent::CodeExecutionCall {
        id: "call_empty".to_string(),
        language: CodeExecutionLanguage::Python,
        code: "".to_string(),
    };
    match roundtrip(&content) {
        InteractionContent::CodeExecutionCall { id, language, code } => {
            assert_eq!(id, "call_empty");
            assert_eq!(language.to_string(), "PYTHON");
            assert!(code.is_empty());
        }
        _ => panic!("Expected CodeExecutionCall"),
    }

    let content = InteractionContent::GoogleSearchResult { results: parse("{}") };
    assert!(matches!(roundtrip(&content), InteractionContent::GoogleSearchResult { .. }));

    let content = InteractionContent::UrlContextResult { url: "https://blocked.example.com".to_string(), content: None };
    match roundtrip(&content) {
        InteractionContent::UrlContextResult { url, content } => {
            assert_eq!(url, "https://blocked.example.com");
            assert!(content.is_none());
        }
        _ => panic!("Expected UrlContextResult"),
    }

    let content = InteractionContent::CodeExecutionResult {
        call_id: "call_no_output".to_string(),
        outcome: CodeExecutionOutcome::Success,
        output: "".to_string(),
    };
    match roundtrip(&content) {
        InteractionContent::CodeExecutionResult { call_id, output, .. } => {
            assert_eq!(call_id, "call_no_output");
            assert!(output.is_empty());
        }
        _ => panic!("Expected CodeExecutionResult"),
    }
}

fn check_deserialize_response_with_unknown_in_outputs() {
    let response_json = r#"{
        "id": "interaction_789",
        "model": "gemini-3-flash-preview",
        "input": [{"type": "text", "text": "Do something"}],
        "outputs": [
            {"type": "text", "text": "Result:"},
            {"type": "future_tool_result", "data": "some_data"},
            {"type": "another_unknown_type", "value": 123}
        ],
        "status": "completed"
    }"#;
    let response = InteractionResponse::from_json(&parse(response_json)).expect("Should deserialize with unknown types");
    assert_eq!(response.id.as_deref(), Some("interaction_789"));
    assert_eq!(response.outputs.len(), 3);
    assert!(response.has_text());
    assert!(response.has_unknown());
    let summary = response.content_summary();
    assert_eq!(summary.text_count, 1);
    assert_eq!(summary.unknown_count, 2);
    assert!(summary.unknown_types.contains(&"future_tool_result".to_string()));
    assert!(summary.unknown_types.contains(&"another_unknown_type".to_string()));
}

#[test]
fn tests_test_deserialize_response_with_unknown_in_outputs() {
    check_deserialize_response_with_unknown_in_outputs();
}

#[test]
fn unknown_content_tests_test_deserialize_response_with_unknown_in_outputs() {
    check_deserialize_response_with_unknown_in_outputs();
}

#[test]
fn test_resolution_non_string_text_exact() {
    let r = Resolution::from_json(&parse("[1, 2]"));
    assert_eq!(r.unknown_resolution_type(), Some("<non-string: [1,2]>"));
}
