use genai_client::json::{JsonNumber, JsonValue};
use genai_client::models::content::{CodeExecutionLanguage, CodeExecutionOutcome, InteractionContent};
use genai_client::models::response::{ContentSummary, InteractionResponse, InteractionStatus, UsageMetadata};

#[test]
fn response_tests_test_content_summary_display() {
    let summary = ContentSummary {
        text_count: 2,
        thought_count: 1,
        code_execution_call_count: 1,
        code_execution_result_count: 1,
        ..Default::default()
    };
    let display = summary.to_string();
    assert!(display.contains("2 text"));
    assert!(display.contains("1 thought"));
    assert!(display.contains("1 code_execution_call"));
    assert!(display.contains("1 code_execution_result"));
    assert!(!display.contains("image"));
    assert!(!display.contains("audio"));
}

#[test]
fn response_tests_test_content_summary_display_empty() {
    let summary = ContentSummary::default();
    assert_eq!(summary.to_string(), "empty");
}

#[test]
fn response_tests_test_content_summary_display_with_unknown() {
    let summary = ContentSummary {
        unknown_count: 2,
        unknown_types: vec!["new_type_a".to_string(), "new_type_b".to_string()],
        ..Default::default()
    };
    let display = summary.to_string();
    assert!(display.contains("2 unknown"));
    assert!(display.contains("new_type_a"));
    assert!(display.contains("new_type_b"));
}

#[test]
fn tests_test_content_summary_display() {
    let summary = ContentSummary {
        text_count: 2,
        thought_count: 1,
        code_execution_call_count: 1,
        code_execution_result_count: 1,
        ..Default::default()
    };
    let display = summary.to_string();
    assert!(display.contains("2 text"));
    assert!(display.contains("1 thought"));
    assert!(display.contains("1 code_execution_call"));
    assert!(display.contains("1 code_execution_result"));
    assert!(!display.contains("image"));
    assert!(!display.contains("audio"));
}

#[test]
fn tests_test_content_summary_display_empty() {
    let summary = ContentSummary::default();
    assert_eq!(summary.to_string(), "empty");
}

#[test]
fn tests_test_content_summary_display_with_unknown() {
    let summary = ContentSummary {
        unknown_count: 2,
        unknown_types: vec!["new_type_a".to_string(), "new_type_b".to_string()],
        ..Default::default()
    };
    let display = summary.to_string();
    assert!(display.contains("2 unknown"));
    assert!(display.contains("new_type_a"));
    assert!(display.contains("new_type_b"));
}

#[test]
fn unknown_content_tests_test_content_summary_display() {
    let summary = ContentSummary {
        text_count: 2,
        thought_count: 1,
        code_execution_call_count: 1,
        code_execution_result_count: 1,
        ..Default::default()
    };
    let display = summary.to_string();
    assert!(display.contains("2 text"));
    assert!(display.contains("1 thought"));
    assert!(display.contains("1 code_execution_call"));
    assert!(display.contains("1 code_execution_result"));
    assert!(!display.contains("image"));
    assert!(!display.contains("audio"));
}

#[test]
fn unknown_content_tests_test_content_summary_display_empty() {
    let summary = ContentSummary::default();
    assert_eq!(summary.to_string(), "empty");
}

#[test]
fn unknown_content_tests_test_content_summary_display_with_unknown() {
    let summary = ContentSummary {
        unknown_count: 2,
        unknown_types: vec!["new_type_a".to_string(), "new_type_b".to_string()],
        ..Default::default()
    };
    let display = summary.to_string();
    assert!(display.contains("2 unknown"));
    assert!(display.contains("new_type_a"));
    assert!(display.contains("new_type_b"));
}

#[test]
fn interactions_test_usage_metadata_has_data() {
    let empty = UsageMetadata::default();
    assert!(!empty.has_data());

    let with_total = UsageMetadata { total_tokens: Some(100), ..Default::default() };
    assert!(with_total.has_data());

    let with_cached = UsageMetadata { total_cached_tokens: Some(50), ..Default::default() };
    assert!(with_cached.has_data());
}

#[test]
fn response_tests_test_usage_metadata_has_data() {
    let empty = UsageMetadata::default();
    assert!(!empty.has_data());

    let with_total = UsageMetadata { total_tokens: Some(100), ..Default::default() };
    assert!(with_total.has_data());

    let with_cached = UsageMetadata { total_cached_tokens: Some(50), ..Default::default() };
    assert!(with_cached.has_data());
}

#[test]
fn tests_test_usage_metadata_has_data() {
    let empty = UsageMetadata::default();
    assert!(!empty.has_data());

    let with_total = UsageMetadata { total_tokens: Some(100), ..Default::default() };
    assert!(with_total.has_data());

    let with_cached = UsageMetadata { total_cached_tokens: Some(50), ..Default::default() };
    assert!(with_cached.has_data());
}

fn text(t: &str) -> InteractionContent {
    InteractionContent::Text { text: Some(t.to_string()), annotations: None }
}

fn unknown(t: &str) -> InteractionContent {
    InteractionContent::Unknown { content_type: t.to_string(), data: JsonValue::Null }
}

fn response(outputs: Vec<InteractionContent>) -> InteractionResponse {
    InteractionResponse {
        id: Some("test_id".to_string()),
        model: Some("gemini-3-flash-preview".to_string()),
        agent: None,
        input: vec![],
        outputs,
        status: InteractionStatus::Completed,
        usage: None,
        tools: None,
        previous_interaction_id: None,
        grounding_metadata: None,
        url_context_metadata: None,
    }
}

#[test]
fn test_content_summary_display_exact() {
    let summary = ContentSummary {
        text_count: 2,
        thought_count: 1,
        unknown_count: 2,
        unknown_types: vec!["a".to_string(), "b".to_string()],
        ..Default::default()
    };
    assert_eq!(summary.to_string(), "2 text, 1 thought, 2 unknown (a, b)");
}

#[test]
fn test_content_summary_counts_and_sorted_unknowns() {
    let r = response(vec![
        text("Hello"),
        InteractionContent::Thought { text: Some("hmm".to_string()) },
        text("World"),
        InteractionContent::FunctionCall {
            id: Some("c1".to_string()),
            name: "f".to_string(),
            args: JsonValue::Object(vec![]),
            thought_signature: None,
        },
        unknown("type_b"),
        unknown("type_a"),
        unknown("type_b"),
    ]);
    let summary = r.content_summary();
    assert_eq!(summary.text_count, 2);
    assert_eq!(summary.thought_count, 1);
    assert_eq!(summary.function_call_count, 1);
    assert_eq!(summary.unknown_count, 3);
    assert_eq!(summary.unknown_types, vec!["type_a".to_string(), "type_b".to_string()]);
}

#[test]
fn test_content_summary_with_built_in_tools() {
    let r = response(vec![
        InteractionContent::CodeExecutionCall {
            id: "call_1".to_string(),
            language: CodeExecutionLanguage::Python,
            code: "print(1)".to_string(),
        },
        InteractionContent::CodeExecutionResult {
            call_id: "call_1".to_string(),
            outcome: CodeExecutionOutcome::Success,
            output: "1".to_string(),
        },
        InteractionContent::GoogleSearchCall { query: "rust".to_string() },
        InteractionContent::GoogleSearchResult { results: JsonValue::Array(vec![]) },
        InteractionContent::UrlContextCall { url: "https://example.com".to_string() },
        InteractionContent::UrlContextResult { url: "https://example.com".to_string(), content: None },
    ]);
    let summary = r.content_summary();
    assert_eq!(summary.code_execution_call_count, 1);
    assert_eq!(summary.code_execution_result_count, 1);
    assert_eq!(summary.google_search_call_count, 1);
    assert_eq!(summary.google_search_result_count, 1);
    assert_eq!(summary.url_context_call_count, 1);
    assert_eq!(summary.url_context_result_count, 1);
    assert_eq!(summary.unknown_count, 0);
}

#[test]
fn test_content_summary_empty_outputs() {
    let summary = response(vec![]).content_summary();
    assert_eq!(summary.text_count, 0);
    assert_eq!(summary.unknown_count, 0);
    assert!(summary.unknown_types.is_empty());
    assert_eq!(summary.to_string(), "empty");
}

#[test]
fn test_interaction_response_text_helpers() {
    let r = response(vec![text("Hello"), text("World")]);
    assert_eq!(r.text(), Some("Hello"));
    assert_eq!(r.all_text(), "HelloWorld");
    assert!(r.has_text());
    assert!(!r.has_function_calls());
    assert!(!r.has_thoughts());
    assert!(!r.has_unknown());
}

#[test]
fn test_interaction_response_function_calls() {
    let r = response(vec![
        InteractionContent::FunctionCall {
            id: Some("call_001".to_string()),
            name: "get_weather".to_string(),
            args: JsonValue::Object(vec![("location".to_string(), JsonValue::String("Paris".to_string()))]),
            thought_signature: Some("sig123".to_string()),
        },
        text("between"),
        InteractionContent::FunctionCall {
            id: None,
            name: "get_time".to_string(),
            args: JsonValue::Object(vec![]),
            thought_signature: None,
        },
    ]);
    let calls = r.function_calls();
    assert_eq!(calls.len(), 2);
    assert_eq!(calls[0].id, Some("call_001"));
    assert_eq!(calls[0].name, "get_weather");
    assert_eq!(calls[0].args.get("location"), Some(&JsonValue::String("Paris".to_string())));
    assert_eq!(calls[0].thought_signature, Some("sig123"));
    assert_eq!(calls[1].id, None);
    assert_eq!(calls[1].name, "get_time");
    assert!(r.has_function_calls());
}

#[test]
fn test_interaction_response_unknown_content() {
    let r = response(vec![text("x"), unknown("future")]);
    assert!(r.has_unknown());
    let unknowns = r.unknown_content();
    assert_eq!(unknowns.len(), 1);
    assert_eq!(unknowns[0].0, "future");
    assert_eq!(unknowns[0].1, &JsonValue::Null);
}

#[test]
fn test_interaction_response_thoughts() {
    let response = response(vec![
        InteractionContent::Thought { text: Some("Let me think about this...".to_string()) },
        InteractionContent::Thought { text: Some("The answer is 42.".to_string()) },
        InteractionContent::Text { text: Some("The answer is 42.".to_string()), annotations: None },
        InteractionContent::Thought { text: None },
    ]);

    assert!(response.has_thoughts());

    let thoughts: Vec<_> = response.thoughts();
    assert_eq!(thoughts.len(), 2);
    assert_eq!(thoughts[0], "Let me think about this...");
    assert_eq!(thoughts[1], "The answer is 42.");

    assert_eq!(response.text(), Some("The answer is 42."));
}

#[test]
fn test_interaction_response_no_thoughts() {
    let response = response(vec![InteractionContent::Text {
        text: Some("Just text, no thoughts.".to_string()),
        annotations: None,
    }]);

    assert!(!response.has_thoughts());
    let thoughts: Vec<_> = response.thoughts();
    assert!(thoughts.is_empty());
}

#[test]
fn test_interaction_response_thoughts_skip_empty_values() {
    let r = response(vec![InteractionContent::Thought { text: None }, InteractionContent::Thought { text: Some("t".to_string()) }]);
    assert!(r.has_thoughts());
    assert_eq!(r.thoughts(), vec!["t"]);
    let r2 = response(vec![InteractionContent::Thought { text: None }]);
    assert!(!r2.has_thoughts());
}

fn obj(entries: Vec<(&str, JsonValue)>) -> JsonValue {
    JsonValue::Object(entries.into_iter().map(|(k, v)| (k.to_string(), v)).collect())
}

fn st(text: &str) -> JsonValue {
    JsonValue::String(text.to_string())
}

#[test]
fn test_deserialize_interaction_response_completed() {
    let v = obj(vec![
        ("id", st("interaction_123")),
        ("model", st("gemini-3-flash-preview")),
        ("input", JsonValue::Array(vec![obj(vec![("type", st("text")), ("text", st("Hello"))])])),
        ("outputs", JsonValue::Array(vec![obj(vec![("type", st("text")), ("text", st("Hi there!"))])])),
        ("status", st("completed")),
        (
            "usage",
            obj(vec![
                ("total_input_tokens", JsonValue::Number(JsonNumber::PosInt(5))),
                ("total_output_tokens", JsonValue::Number(JsonNumber::PosInt(10))),
                ("total_tokens", JsonValue::Number(JsonNumber::PosInt(15))),
            ]),
        ),
    ]);
    let r = InteractionResponse::from_json(&v).expect("should decode");
    assert_eq!(r.id.as_deref(), Some("interaction_123"));
    assert_eq!(r.status, InteractionStatus::Completed);
    assert_eq!(r.text(), Some("Hi there!"));
    let usage = r.usage.expect("usage");
    assert_eq!(usage.total_tokens, Some(15));
    assert_eq!(usage.total_cached_tokens, None);
}

#[test]
fn test_deserialize_interaction_response_missing_status_fails() {
    let v = obj(vec![("id", st("x"))]);
    assert!(InteractionResponse::from_json(&v).is_err());
}

#[test]
fn test_interaction_status_wire_names() {
    assert_eq!(InteractionStatus::RequiresAction.to_json(), st("requires_action"));
    assert_eq!(InteractionStatus::from_json(&st("in_progress")), Ok(InteractionStatus::InProgress));
    assert!(InteractionStatus::from_json(&st("paused")).is_err());
}

#[test]
fn test_usage_roundtrip_skips_absent_counts() {
    let u = UsageMetadata { total_tokens: Some(7), total_reasoning_tokens: Some(-1), ..Default::default() };
    let v = u.to_json();
    assert_eq!(
        v,
        obj(vec![
            ("total_tokens", JsonValue::Number(JsonNumber::PosInt(7))),
            ("total_reasoning_tokens", JsonValue::Number(JsonNumber::NegInt(-1))),
        ])
    );
    assert_eq!(UsageMetadata::from_json(&v), Ok(u));
}

#[test]
fn test_usage_rejects_out_of_range_count() {
    let v = obj(vec![("total_tokens", JsonValue::Number(JsonNumber::PosInt(3_000_000_000)))]);
    assert!(UsageMetadata::from_json(&v).is_err());
}
