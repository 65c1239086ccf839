use genai_client::json::{compact_text, JsonNumber, JsonValue};
use genai_client::models::content::{CodeExecutionLanguage, CodeExecutionOutcome, InteractionContent};
use genai_client::models::response::{InteractionResponse, InteractionStatus, UsageMetadata};
use genai_client::models::streaming::InteractionStreamEvent;

fn from_serde(v: &serde_json::Value) -> JsonValue {
    match v {
        serde_json::Value::Null => JsonValue::Null,
        serde_json::Value::Bool(b) => JsonValue::Bool(*b),
        serde_json::Value::Number(n) => {
            if let Some(u) = n.as_u64() {
                JsonValue::Number(JsonNumber::PosInt(u))
            } else if let Some(i) = n.as_i64() {
                JsonValue::Number(JsonNumber::NegInt(i))
            } else {
                JsonValue::Number(JsonNumber::Float(n.to_string()))
            }
        }
        serde_json::Value::String(s) => JsonValue::String(s.clone()),
        serde_json::Value::Array(items) => JsonValue::Array(items.iter().map(from_serde).collect()),
        serde_json::Value::Object(map) => {
            JsonValue::Object(map.iter().map(|(k, v)| (k.clone(), from_serde(v))).collect())
        }
    }
}

fn parse(text: &str) -> JsonValue {
    from_serde(&serde_json::from_str::<serde_json::Value>(text).unwrap())
}

/// The JSON text of a value, read back as a `serde_json::Value`.
fn reread(v: &JsonValue) -> serde_json::Value {
    serde_json::from_str(&compact_text(v)).unwrap()
}

fn text(t: &str) -> InteractionContent {
    InteractionContent::Text { text: Some(t.to_string()), annotations: None }
}

fn response(model: &str, outputs: Vec<InteractionContent>) -> InteractionResponse {
    InteractionResponse {
        id: Some("test_id".to_string()),
        model: Some(model.to_string()),
        agent: None,
        input: vec![],
        outputs,
        status: InteractionStatus::Completed,
        usage: None,
        tools: None,
        previous_interaction_id: None,
        grounding_metadata: None,
        url_context_metadata: None,
    }
}

#[test]
fn test_interaction_response_deserialization() {
    let response_json = r#"{
        "id": "test_interaction_123",
        "model": "gemini-3-flash-preview",
        "input": [{"type": "text", "text": "Hello"}],
        "outputs": [{"type": "text", "text": "Hi there!"}],
        "status": "completed"
    }"#;

    let response = InteractionResponse::from_json(&parse(response_json)).expect("Deserialization should work");

    assert_eq!(response.id.as_deref(), Some("test_interaction_123"));
    assert_eq!(response.status, InteractionStatus::Completed);
    assert_eq!(response.outputs.len(), 1);

    match &response.outputs[0] {
        InteractionContent::Text { text, .. } => assert_eq!(text.as_ref().unwrap(), "Hi there!"),
        _ => panic!("Expected Text content"),
    }
}

#[test]
fn test_cancelled_interaction_response_deserialization() {
    let response_json = r#"{
        "id": "cancelled_interaction_123",
        "model": "deep-research-pro-preview-12-2025",
        "input": [{"type": "text", "text": "Research topic"}],
        "outputs": [],
        "status": "cancelled"
    }"#;

    let response = InteractionResponse::from_json(&parse(response_json)).expect("Deserialization should work");

    assert_eq!(response.id.as_deref(), Some("cancelled_interaction_123"));
    assert_eq!(response.status, InteractionStatus::Cancelled);
    assert!(response.outputs.is_empty());
}

fn check_serialize_interaction_content() {
    let content = text("Hello");
    let value = reread(&content.to_json());
    assert_eq!(value["type"], "text");
    assert_eq!(value["text"], "Hello");
}

#[test]
fn interactions_test_serialize_interaction_content() {
    check_serialize_interaction_content();
}

#[test]
fn tests_test_serialize_interaction_content() {
    check_serialize_interaction_content();
}

fn check_deserialize_interaction_response_completed() {
    let response_json = r#"{
        "id": "interaction_123",
        "model": "gemini-3-flash-preview",
        "input": [{"type": "text", "text": "Hello"}],
        "outputs": [{"type": "text", "text": "Hi there!"}],
        "status": "completed",
        "usage": {
            "total_input_tokens": 5,
            "total_output_tokens": 10,
            "total_tokens": 15
        }
    }"#;

    let response = InteractionResponse::from_json(&parse(response_json)).expect("Deserialization failed");

    assert_eq!(response.id.as_deref(), Some("interaction_123"));
    assert_eq!(response.model.as_deref(), Some("gemini-3-flash-preview"));
    assert_eq!(response.status, InteractionStatus::Completed);
    assert_eq!(response.input.len(), 1);
    assert_eq!(response.outputs.len(), 1);
    assert!(response.usage.is_some());
    let usage = response.usage.unwrap();
    assert_eq!(usage.total_input_tokens, Some(5));
    assert_eq!(usage.total_output_tokens, Some(10));
    assert_eq!(usage.total_tokens, Some(15));
}

#[test]
fn interactions_test_deserialize_interaction_response_completed() {
    check_deserialize_interaction_response_completed();
}

#[test]
fn tests_test_deserialize_interaction_response_completed() {
    check_deserialize_interaction_response_completed();
}

fn check_deserialize_usage_metadata_partial() {
    let partial_json = r#"{"total_tokens": 42}"#;
    let usage = UsageMetadata::from_json(&parse(partial_json)).expect("Deserialization failed");

    assert_eq!(usage.total_tokens, Some(42));
    assert_eq!(usage.total_input_tokens, None);
    assert_eq!(usage.total_output_tokens, None);
    assert_eq!(usage.total_cached_tokens, None);
    assert_eq!(usage.total_reasoning_tokens, None);
    assert_eq!(usage.total_tool_use_tokens, None);
}

#[test]
fn interactions_test_deserialize_usage_metadata_partial() {
    check_deserialize_usage_metadata_partial();
}

#[test]
fn response_tests_test_deserialize_usage_metadata_partial() {
    check_deserialize_usage_metadata_partial();
}

#[test]
fn tests_test_deserialize_usage_metadata_partial() {
    check_deserialize_usage_metadata_partial();
}

fn check_deserialize_usage_metadata_empty() {
    let usage = UsageMetadata::from_json(&parse(r#"{}"#)).expect("Deserialization failed");
    assert_eq!(usage.total_tokens, None);
    assert_eq!(usage.total_input_tokens, None);
    assert_eq!(usage.total_output_tokens, None);
}

#[test]
fn interactions_test_deserialize_usage_metadata_empty() {
    check_deserialize_usage_metadata_empty();
}

#[test]
fn response_tests_test_deserialize_usage_metadata_empty() {
    check_deserialize_usage_metadata_empty();
}

#[test]
fn tests_test_deserialize_usage_metadata_empty() {
    check_deserialize_usage_metadata_empty();
}

fn check_deserialize_function_call_content() {
    let content_json = r#"{"type": "function_call", "name": "get_weather", "arguments": {"location": "Paris"}}"#;
    let content = InteractionContent::from_json(&parse(content_json));
    match content {
        InteractionContent::FunctionCall { name, args, .. } => {
            assert_eq!(name, "get_weather");
            assert_eq!(reread(&args)["location"], "Paris");
        }
        _ => panic!("Expected FunctionCall variant"),
    }
}

#[test]
fn interactions_test_deserialize_function_call_content() {
    check_deserialize_function_call_content();
}

#[test]
fn content_tests_test_deserialize_function_call_content() {
    check_deserialize_function_call_content();
}

#[test]
fn tests_test_deserialize_function_call_content() {
    check_deserialize_function_call_content();
}

#[test]
fn interactions_test_interaction_response_text() {
    let response = response("gemini-3-flash", vec![text("Hello"), text("World")]);
    assert_eq!(response.text(), Some("Hello"));
    assert_eq!(response.all_text(), "HelloWorld");
    assert!(response.has_text());
    assert!(!response.has_function_calls());
}

#[test]
fn interactions_test_interaction_response_function_calls() {
    let response = response(
        "gemini-3-flash",
        vec![
            InteractionContent::FunctionCall {
                id: Some("call_001".to_string()),
                name: "get_weather".to_string(),
                args: parse(r#"{"location": "Paris"}"#),
                thought_signature: Some("sig123".to_string()),
            },
            InteractionContent::FunctionCall {
                id: Some("call_002".to_string()),
                name: "get_time".to_string(),
                args: parse(r#"{"timezone": "UTC"}"#),
                thought_signature: None,
            },
        ],
    );

    let calls = response.function_calls();
    assert_eq!(calls.len(), 2);
    assert_eq!(calls[0].id, Some("call_001"));
    assert_eq!(calls[0].name, "get_weather");
    assert_eq!(reread(calls[0].args)["location"], "Paris");
    assert_eq!(calls[0].thought_signature, Some("sig123"));
    assert_eq!(calls[1].id, Some("call_002"));
    assert_eq!(calls[1].name, "get_time");
    assert_eq!(calls[1].thought_signature, None);
    assert!(response.has_function_calls());
    assert!(!response.has_text());
}

#[test]
fn interactions_test_interaction_response_mixed_content() {
    let response = response(
        "gemini-3-flash",
        vec![
            text("Let me check"),
            InteractionContent::FunctionCall {
                id: Some("call_mixed".to_string()),
                name: "check_status".to_string(),
                args: parse("{}"),
                thought_signature: None,
            },
            text("Done!"),
        ],
    );

    assert_eq!(response.text(), Some("Let me check"));
    assert_eq!(response.all_text(), "Let me checkDone!");
    assert_eq!(response.function_calls().len(), 1);
    assert!(response.has_text());
    assert!(response.has_function_calls());
}

#[test]
fn interactions_test_interaction_response_empty_outputs() {
    let response = response("gemini-3-flash", vec![]);
    assert_eq!(response.text(), None);
    assert_eq!(response.all_text(), "");
    assert_eq!(response.function_calls().len(), 0);
    assert!(!response.has_text());
    assert!(!response.has_function_calls());
}

fn check_deserialize_streaming_text_content() {
    let delta = InteractionContent::from_json(&parse(r#"{"type": "text", "text": "Hello world"}"#));
    match &delta {
        InteractionContent::Text { text, .. } => assert_eq!(text.as_deref(), Some("Hello world")),
        _ => panic!("Expected Text content"),
    }
    assert!(delta.is_text());
    assert!(!delta.is_thought());
    assert_eq!(delta.text(), Some("Hello world"));
}

#[test]
fn interactions_test_deserialize_streaming_text_content() {
    check_deserialize_streaming_text_content();
}

#[test]
fn tests_test_deserialize_streaming_text_content() {
    check_deserialize_streaming_text_content();
}

fn check_deserialize_streaming_thought_content() {
    let delta = InteractionContent::from_json(&parse(r#"{"type": "thought", "text": "I'm thinking..."}"#));
    match &delta {
        InteractionContent::Thought { text } => assert_eq!(text.as_deref(), Some("I'm thinking...")),
        _ => panic!("Expected Thought content"),
    }
    assert!(!delta.is_text());
    assert!(delta.is_thought());
    assert_eq!(delta.text(), None);
}

#[test]
fn interactions_test_deserialize_streaming_thought_content() {
    check_deserialize_streaming_thought_content();
}

#[test]
fn tests_test_deserialize_streaming_thought_content() {
    check_deserialize_streaming_thought_content();
}

fn check_deserialize_streaming_function_call() {
    let delta =
        InteractionContent::from_json(&parse(r#"{"type": "function_call", "name": "get_weather", "arguments": {"city": "Paris"}}"#));
    match &delta {
        InteractionContent::FunctionCall { name, args, .. } => {
            assert_eq!(name, "get_weather");
            assert_eq!(reread(args)["city"], "Paris");
        }
        _ => panic!("Expected FunctionCall content"),
    }
    assert!(delta.is_function_call());
    assert!(!delta.is_unknown());
}

#[test]
fn interactions_test_deserialize_streaming_function_call() {
    check_deserialize_streaming_function_call();
}

#[test]
fn tests_test_deserialize_streaming_function_call() {
    check_deserialize_streaming_function_call();
}

fn check_deserialize_streaming_thought_signature() {
    let delta = InteractionContent::from_json(&parse(r#"{"type": "thought_signature", "signature": "abc123"}"#));
    match &delta {
        InteractionContent::ThoughtSignature { signature } => assert_eq!(signature, "abc123"),
        _ => panic!("Expected ThoughtSignature content"),
    }
    assert!(delta.is_thought_signature());
}

#[test]
fn interactions_test_deserialize_streaming_thought_signature() {
    check_deserialize_streaming_thought_signature();
}

#[test]
fn tests_test_deserialize_streaming_thought_signature() {
    check_deserialize_streaming_thought_signature();
}

fn check_deserialize_content_delta_event() {
    let event_json = r#"{
        "event_type": "content.delta",
        "interaction_id": "test_123",
        "delta": {"type": "text", "text": "Hello"}
    }"#;
    let event = InteractionStreamEvent::from_json(&parse(event_json)).expect("Deserialization failed");

    assert_eq!(event.event_type, "content.delta");
    assert_eq!(event.interaction_id.as_deref(), Some("test_123"));
    assert!(event.delta.is_some());
    assert!(event.interaction.is_none());

    let delta = event.delta.unwrap();
    assert!(delta.is_text());
    assert_eq!(delta.text(), Some("Hello"));
}

#[test]
fn interactions_test_deserialize_content_delta_event() {
    check_deserialize_content_delta_event();
}

#[test]
fn tests_test_deserialize_content_delta_event() {
    check_deserialize_content_delta_event();
}

fn check_deserialize_interaction_complete_event() {
    let event_json = r#"{
        "event_type": "interaction.complete",
        "interaction": {
            "id": "interaction_456",
            "model": "gemini-3-flash-preview",
            "input": [{"type": "text", "text": "Count to 3"}],
            "outputs": [{"type": "text", "text": "1, 2, 3"}],
            "status": "completed"
        }
    }"#;
    let event = InteractionStreamEvent::from_json(&parse(event_json)).expect("Deserialization failed");

    assert_eq!(event.event_type, "interaction.complete");
    assert!(event.interaction.is_some());
    assert!(event.delta.is_none());

    let interaction = event.interaction.unwrap();
    assert_eq!(interaction.id.as_deref(), Some("interaction_456"));
    assert_eq!(interaction.text(), Some("1, 2, 3"));
}

#[test]
fn interactions_test_deserialize_interaction_complete_event() {
    check_deserialize_interaction_complete_event();
}

#[test]
fn tests_test_deserialize_interaction_complete_event() {
    check_deserialize_interaction_complete_event();
}

fn check_content_empty_text_returns_none() {
    let content = InteractionContent::Text { text: Some(String::new()), annotations: None };
    assert_eq!(content.text(), None);
    let content_none = InteractionContent::Text { text: None, annotations: None };
    assert_eq!(content_none.text(), None);
}

#[test]
fn interactions_test_content_empty_text_returns_none() {
    check_content_empty_text_returns_none();
}

#[test]
fn tests_test_content_empty_text_returns_none() {
    check_content_empty_text_returns_none();
}

#[test]
fn content_tests_test_content_empty_text_returns_none() {
    check_content_empty_text_returns_none();
}

fn check_deserialize_unknown_streaming_content() {
    let content = InteractionContent::from_json(&parse(r#"{"type": "new_feature_delta", "data": "some_value"}"#));
    assert!(content.is_unknown());
    assert_eq!(content.unknown_content_type(), Some("new_feature_delta"));
    match &content {
        InteractionContent::Unknown { content_type, data } => {
            assert_eq!(content_type, "new_feature_delta");
            assert_eq!(reread(data)["data"], "some_value");
        }
        _ => panic!("Expected Unknown variant"),
    }
}

#[test]
fn interactions_test_deserialize_unknown_streaming_content() {
    check_deserialize_unknown_streaming_content();
}

#[test]
fn tests_test_deserialize_unknown_streaming_content() {
    check_deserialize_unknown_streaming_content();
}

#[test]
fn unknown_content_tests_test_deserialize_unknown_streaming_content() {
    check_deserialize_unknown_streaming_content();
}

fn check_known_types_still_work() {
    let content = InteractionContent::from_json(&parse(r#"{"type": "text", "text": "Hello"}"#));
    assert!(matches!(content, InteractionContent::Text { .. }));
    assert!(!content.is_unknown());

    let content = InteractionContent::from_json(&parse(r#"{"type": "thought", "text": "Thinking..."}"#));
    assert!(matches!(content, InteractionContent::Thought { .. }));
    assert!(!content.is_unknown());

    let content = InteractionContent::from_json(&parse(r#"{"type": "thought_signature", "signature": "sig123"}"#));
    assert!(matches!(content, InteractionContent::ThoughtSignature { .. }));
    assert!(!content.is_unknown());

    let content = InteractionContent::from_json(&parse(r#"{"type": "function_call", "name": "test", "arguments": {}}"#));
    assert!(matches!(content, InteractionContent::FunctionCall { .. }));
    assert!(!content.is_unknown());
}

#[test]
fn interactions_test_known_types_still_work() {
    check_known_types_still_work();
}

#[test]
fn content_tests_test_known_types_still_work() {
    check_known_types_still_work();
}

#[test]
fn tests_test_known_types_still_work() {
    check_known_types_still_work();
}

#[test]
fn unknown_content_tests_test_known_types_still_work() {
    check_known_types_still_work();
}

fn check_response_has_unknown(model: &str) {
    let response = response(
        model,
        vec![
            text("Here's the result:"),
            InteractionContent::Unknown {
                content_type: "code_execution_result".to_string(),
                data: parse(r#"{"type": "code_execution_result", "outcome": "success", "output": "42"}"#),
            },
        ],
    );

    assert!(response.has_unknown());
    assert!(response.has_text());

    let unknowns = response.unknown_content();
    assert_eq!(unknowns.len(), 1);
    assert_eq!(unknowns[0].0, "code_execution_result");
    assert_eq!(reread(unknowns[0].1)["outcome"], "success");
}

#[test]
fn interactions_test_interaction_response_has_unknown() {
    check_response_has_unknown("gemini-3-flash");
}

#[test]
fn tests_test_interaction_response_has_unknown() {
    check_response_has_unknown("gemini-3-flash-preview");
}

#[test]
fn unknown_content_tests_test_interaction_response_has_unknown() {
    check_response_has_unknown("gemini-3-flash-preview");
}

fn check_response_no_unknown(model: &str) {
    let response = response(model, vec![text("Normal response")]);
    assert!(!response.has_unknown());
    assert!(response.unknown_content().is_empty());
}

#[test]
fn interactions_test_interaction_response_no_unknown() {
    check_response_no_unknown("gemini-3-flash");
}

#[test]
fn tests_test_interaction_response_no_unknown() {
    check_response_no_unknown("gemini-3-flash-preview");
}

#[test]
fn unknown_content_tests_test_interaction_response_no_unknown() {
    check_response_no_unknown("gemini-3-flash-preview");
}

fn check_content_summary(model: &str) {
    let response = response(
        model,
        vec![
            text("Text 1"),
            text("Text 2"),
            InteractionContent::Thought { text: Some("Thinking".to_string()) },
            InteractionContent::FunctionCall {
                id: Some("call_1".to_string()),
                name: "test_fn".to_string(),
                args: parse("{}"),
                thought_signature: None,
            },
            InteractionContent::Unknown { content_type: "type_a".to_string(), data: parse(r#"{"type": "type_a"}"#) },
            InteractionContent::Unknown { content_type: "type_b".to_string(), data: parse(r#"{"type": "type_b"}"#) },
            InteractionContent::Unknown {
                content_type: "type_a".to_string(),
                data: parse(r#"{"type": "type_a", "extra": true}"#),
            },
        ],
    );

    let summary = response.content_summary();
    assert_eq!(summary.text_count, 2);
    assert_eq!(summary.thought_count, 1);
    assert_eq!(summary.function_call_count, 1);
    assert_eq!(summary.unknown_count, 3);
    assert_eq!(summary.unknown_types.len(), 2);
    assert_eq!(summary.unknown_types, vec!["type_a", "type_b"]);
}

#[test]
fn interactions_test_content_summary() {
    check_content_summary("gemini-3-flash");
}

#[test]
fn tests_test_content_summary() {
    check_content_summary("gemini-3-flash-preview");
}

#[test]
fn unknown_content_tests_test_content_summary() {
    check_content_summary("gemini-3-flash-preview");
}

fn check_content_summary_empty(model: &str) {
    let response = response(model, vec![]);
    let summary = response.content_summary();
    assert_eq!(summary.text_count, 0);
    assert_eq!(summary.unknown_count, 0);
    assert!(summary.unknown_types.is_empty());
}

#[test]
fn interactions_test_content_summary_empty() {
    check_content_summary_empty("gemini-3-flash");
}

#[test]
fn tests_test_content_summary_empty() {
    check_content_summary_empty("gemini-3-flash-preview");
}

#[test]
fn unknown_content_tests_test_content_summary_empty() {
    check_content_summary_empty("gemini-3-flash-preview");
}

fn check_serialize_unknown_content_roundtrip() {
    let unknown = InteractionContent::Unknown {
        content_type: "code_execution_result".to_string(),
        data: parse(r#"{"outcome": "success", "output": "42"}"#),
    };
    let value = reread(&unknown.to_json());
    assert_eq!(value["type"], "code_execution_result");
    assert_eq!(value["outcome"], "success");
    assert_eq!(value["output"], "42");
}

#[test]
fn interactions_test_serialize_unknown_content_roundtrip() {
    check_serialize_unknown_content_roundtrip();
}

#[test]
fn tests_test_serialize_unknown_content_roundtrip() {
    check_serialize_unknown_content_roundtrip();
}

#[test]
fn unknown_content_tests_test_serialize_unknown_content_roundtrip() {
    check_serialize_unknown_content_roundtrip();
}

fn check_serialize_known_variant_with_none_fields() {
    let text = InteractionContent::Text { text: None, annotations: None };
    let value = reread(&text.to_json());
    assert_eq!(value["type"], "text");
    assert!(value.get("text").is_none());

    let image = InteractionContent::Image { data: Some("base64data".to_string()), uri: None, mime_type: None };
    let value = reread(&image.to_json());
    assert_eq!(value["type"], "image");
    assert_eq!(value["data"], "base64data");
    assert!(value.get("uri").is_none());
    assert!(value.get("mime_type").is_none());

    let fc = InteractionContent::FunctionCall {
        id: None,
        name: "test_fn".to_string(),
        args: parse(r#"{"arg": "value"}"#),
        thought_signature: None,
    };
    let value = reread(&fc.to_json());
    assert_eq!(value["type"], "function_call");
    assert_eq!(value["name"], "test_fn");
    assert!(value.get("id").is_none());
    assert!(value.get("thoughtSignature").is_none());
}

#[test]
fn interactions_test_serialize_known_variant_with_none_fields() {
    check_serialize_known_variant_with_none_fields();
}

#[test]
fn tests_test_serialize_known_variant_with_none_fields() {
    check_serialize_known_variant_with_none_fields();
}

#[test]
fn unknown_content_tests_test_serialize_known_variant_with_none_fields() {
    check_serialize_known_variant_with_none_fields();
}

fn check_serialize_unknown_with_non_object_data() {
    let unknown_array = InteractionContent::Unknown { content_type: "weird_type".to_string(), data: parse("[1, 2, 3]") };
    let value = reread(&unknown_array.to_json());
    assert_eq!(value["type"], "weird_type");
    assert_eq!(value["data"], serde_json::from_str::<serde_json::Value>("[1, 2, 3]").unwrap());

    let unknown_string = InteractionContent::Unknown {
        content_type: "string_type".to_string(),
        data: JsonValue::String("just a string".to_string()),
    };
    let value = reread(&unknown_string.to_json());
    assert_eq!(value["type"], "string_type");
    assert_eq!(value["data"], "just a string");

    let unknown_null = InteractionContent::Unknown { content_type: "null_type".to_string(), data: JsonValue::Null };
    let value = reread(&unknown_null.to_json());
    assert_eq!(value["type"], "null_type");
    assert!(value.get("data").is_none());
}

#[test]
fn interactions_test_serialize_unknown_with_non_object_data() {
    check_serialize_unknown_with_non_object_data();
}

#[test]
fn tests_test_serialize_unknown_with_non_object_data() {
    check_serialize_unknown_with_non_object_data();
}

#[test]
fn unknown_content_tests_test_serialize_unknown_with_non_object_data() {
    check_serialize_unknown_with_non_object_data();
}

fn check_deserialize_unknown_with_missing_type() {
    let content = InteractionContent::from_json(&parse(r#"{"foo": "bar", "baz": 42}"#));
    match content {
        InteractionContent::Unknown { content_type, data } => {
            assert_eq!(content_type, "<missing type>");
            let data = reread(&data);
            assert_eq!(data["foo"], "bar");
            assert_eq!(data["baz"], 42);
        }
        _ => panic!("Expected Unknown variant"),
    }
}

#[test]
fn interactions_test_deserialize_unknown_with_missing_type() {
    check_deserialize_unknown_with_missing_type();
}

#[test]
fn tests_test_deserialize_unknown_with_missing_type() {
    check_deserialize_unknown_with_missing_type();
}

#[test]
fn unknown_content_tests_test_deserialize_unknown_with_missing_type() {
    check_deserialize_unknown_with_missing_type();
}

fn check_deserialize_unknown_with_null_type() {
    let content = InteractionContent::from_json(&parse(r#"{"type": null, "content": "test"}"#));
    match content {
        InteractionContent::Unknown { content_type, data } => {
            assert_eq!(content_type, "<missing type>");
            assert_eq!(reread(&data)["content"], "test");
        }
        _ => panic!("Expected Unknown variant"),
    }
}

#[test]
fn interactions_test_deserialize_unknown_with_null_type() {
    check_deserialize_unknown_with_null_type();
}

#[test]
fn tests_test_deserialize_unknown_with_null_type() {
    check_deserialize_unknown_with_null_type();
}

#[test]
fn unknown_content_tests_test_deserialize_unknown_with_null_type() {
    check_deserialize_unknown_with_null_type();
}

#[test]
fn tests_test_interaction_response_text() {
    interactions_test_interaction_response_text();
}

#[test]
fn tests_test_interaction_response_function_calls() {
    interactions_test_interaction_response_function_calls();
}

#[test]
fn tests_test_function_call_missing_id() {
    let mut response = response(
        "gemini-3-flash",
        vec![InteractionContent::FunctionCall {
            id: None,
            name: "get_weather".to_string(),
            args: parse(r#"{"location": "Tokyo"}"#),
            thought_signature: None,
        }],
    );
    response.status = InteractionStatus::RequiresAction;

    let calls = response.function_calls();
    assert_eq!(calls.len(), 1);
    assert_eq!(calls[0].id, None);
    assert_eq!(calls[0].name, "get_weather");
    assert_eq!(reread(calls[0].args)["location"], "Tokyo");
}

#[test]
fn tests_test_interaction_response_mixed_content() {
    interactions_test_interaction_response_mixed_content();
}

#[test]
fn tests_test_interaction_response_empty_outputs() {
    interactions_test_interaction_response_empty_outputs();
}

#[test]
fn tests_test_content_summary_with_built_in_tools() {
    let response = response(
        "gemini-3-flash",
        vec![
            InteractionContent::CodeExecutionCall {
                id: "call_1".to_string(),
                language: CodeExecutionLanguage::Python,
                code: "print(1)".to_string(),
            },
            InteractionContent::CodeExecutionCall {
                id: "call_2".to_string(),
                language: CodeExecutionLanguage::Python,
                code: "print(2)".to_string(),
            },
            InteractionContent::CodeExecutionResult {
                call_id: "call_1".to_string(),
                outcome: CodeExecutionOutcome::Success,
                output: "1\n2\n".to_string(),
            },
            InteractionContent::GoogleSearchCall { query: "test".to_string() },
            InteractionContent::GoogleSearchResult { results: parse("{}") },
            InteractionContent::UrlContextCall { url: "https://example.com".to_string() },
            InteractionContent::UrlContextResult { url: "https://example.com".to_string(), content: None },
        ],
    );

    let summary = response.content_summary();
    assert_eq!(summary.code_execution_call_count, 2);
    assert_eq!(summary.code_execution_result_count, 1);
    assert_eq!(summary.google_search_call_count, 1);
    assert_eq!(summary.google_search_result_count, 1);
    assert_eq!(summary.url_context_call_count, 1);
    assert_eq!(summary.url_context_result_count, 1);
    assert_eq!(summary.unknown_count, 0);
}
