use genai_client::error_helpers::{
    api_error, deserialize_error_message, format_json_parse_error, parse_error_message,
    truncate_for_context,
};
use genai_client::errors::GenaiError;

#[test]
fn test_truncate_for_context_short_string() {
    let result = truncate_for_context("Short", 100);
    assert_eq!(result, "Short");
}

#[test]
fn test_truncate_for_context_long_string() {
    let long_str = "a".repeat(300);
    let result = truncate_for_context(&long_str, 200);
    assert_eq!(result.len(), 203);
    assert!(result.ends_with("..."));
}

#[test]
fn test_truncate_for_context_utf8_boundary() {
    let emoji_str = "x".repeat(198) + "🎉";
    let result = truncate_for_context(&emoji_str, 200);

    assert_eq!(result.len(), 201);
    assert!(result.ends_with("..."));
    assert!(result.starts_with("xxx"));
    assert!(!result.contains("🎉"));
    assert!(result.is_char_boundary(result.len() - 3));
}

#[test]
fn test_truncate_for_context_exactly_at_boundary() {
    let exact = "a".repeat(200);
    let result = truncate_for_context(&exact, 200);
    assert_eq!(result, exact);
}

#[test]
fn test_truncate_for_context_multibyte_characters() {
    let mixed = "Hello 世界 🌍 Café";
    let result = truncate_for_context(mixed, 15);

    assert!(result.ends_with("..."));
    for ch in result.chars() {
        assert!(ch.is_ascii() || !ch.is_ascii());
    }
}

#[test]
fn test_truncate_for_context_exact_cut_of_mixed_text() {
    // "Hello 世界 " is 13 bytes; the next character is a 4-byte emoji.
    let result = truncate_for_context("Hello 世界 🌍 Café", 15);
    assert_eq!(result, "Hello 世界 ...");
}

#[test]
fn test_format_json_parse_error() {
    let json = r#"{"invalid": }"#;
    let err = serde_json::from_str::<serde_json::Value>(json).unwrap_err();
    let result = format_json_parse_error(json, err);

    assert!(result.contains("JSON parse error"));
    assert!(result.contains("Context:"));
    assert!(result.contains(r#"{"invalid": }"#));
}

#[test]
fn test_parse_error_message_exact() {
    let result = parse_error_message("expected value", "{]");
    assert_eq!(result, "JSON parse error: expected value | Context: {]");
}

#[test]
fn test_deserialize_error_message_truncates_long_json() {
    let long_value = "x".repeat(300);
    let json = format!(r#"{{"long_field": "{}"}}"#, long_value);
    let result = deserialize_error_message("test", "missing field `id`", &json);
    assert!(result.starts_with("Failed to parse test: missing field `id` | JSON: {\"long_field\""));
    assert!(result.ends_with("..."));
}

#[test]
fn test_api_error_keeps_status_and_request_id() {
    let body = "e".repeat(250);
    let err = api_error(429, Ok(body), Some("req-1".to_string()));
    match err {
        GenaiError::Api { status_code, message, request_id } => {
            assert_eq!(status_code, 429);
            assert_eq!(message.len(), 203);
            assert!(message.ends_with("..."));
            assert_eq!(request_id.as_deref(), Some("req-1"));
        }
        _ => panic!("expected an API error"),
    }
}

#[test]
fn test_api_error_message_text() {
    let err = GenaiError::Api { status_code: 404, message: "Not found".to_string(), request_id: None };
    assert_eq!(err.message(), "API error (HTTP 404): Not found");
}

#[test]
fn test_error_messages_of_plain_variants() {
    assert_eq!(GenaiError::Parse("bad".to_string()).message(), "SSE parsing error: bad");
    assert_eq!(GenaiError::Internal("x".to_string()).message(), "Internal client error: x");
    assert_eq!(GenaiError::InvalidInput("y".to_string()).message(), "Invalid input: y");
    assert_eq!(
        GenaiError::MalformedResponse("z".to_string()).message(),
        "Malformed API response: z"
    );
}

#[test]
fn test_json_error_message_prefix() {
    let err = serde_json::from_str::<serde_json::Value>("{").unwrap_err();
    let text = err.to_string();
    let message = GenaiError::Json(err).message();
    assert_eq!(message, format!("JSON deserialization error: {}", text));
}
