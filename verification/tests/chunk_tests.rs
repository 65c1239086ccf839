use genai_client::json::{JsonNumber, JsonValue};
use genai_client::models::content::InteractionContent;
use genai_client::models::response::{InteractionResponse, InteractionStatus};
use genai_client::models::streaming::StreamChunk;

fn obj(entries: Vec<(&str, JsonValue)>) -> JsonValue {
    JsonValue::Object(entries.into_iter().map(|(k, v)| (k.to_string(), v)).collect())
}

fn st(text: &str) -> JsonValue {
    JsonValue::String(text.to_string())
}

fn response() -> InteractionResponse {
    InteractionResponse {
        id: Some("test-interaction-123".to_string()),
        model: Some("gemini-3-flash-preview".to_string()),
        agent: None,
        input: vec![InteractionContent::Text { text: Some("What is 2+2?".to_string()), annotations: None }],
        outputs: vec![InteractionContent::Text { text: Some("The answer is 4.".to_string()), annotations: None }],
        status: InteractionStatus::Completed,
        usage: None,
        tools: None,
        previous_interaction_id: None,
        grounding_metadata: None,
        url_context_metadata: None,
    }
}

#[test]
fn test_stream_chunk_delta_roundtrip() {
    let chunk = StreamChunk::Delta(InteractionContent::Text { text: Some("Hello, world!".to_string()), annotations: None });
    let json = chunk.to_json();
    assert_eq!(json.get("chunk_type"), Some(&st("delta")));
    match StreamChunk::from_json(&json) {
        Ok(StreamChunk::Delta(content)) => assert_eq!(content.text(), Some("Hello, world!")),
        other => panic!("unexpected {:?}", other),
    }
}

#[test]
fn test_stream_chunk_complete_roundtrip() {
    let json = StreamChunk::Complete(response()).to_json();
    assert_eq!(json.get("chunk_type"), Some(&st("complete")));
    match StreamChunk::from_json(&json) {
        Ok(StreamChunk::Complete(r)) => {
            assert_eq!(r.id.as_deref(), Some("test-interaction-123"));
            assert_eq!(r.status, InteractionStatus::Completed);
            assert_eq!(r.text(), Some("The answer is 4."));
        }
        other => panic!("unexpected {:?}", other),
    }
}

#[test]
fn test_stream_chunk_unknown_forward_compatibility() {
    let v = obj(vec![("chunk_type", st("future_chunk_type")), ("data", obj(vec![("key", st("value"))]))]);
    let chunk = StreamChunk::from_json(&v).expect("decodes");
    assert!(chunk.is_unknown());
    assert_eq!(chunk.unknown_chunk_type(), Some("future_chunk_type"));
    assert_eq!(chunk.unknown_data().unwrap().get("key"), Some(&st("value")));
    assert_eq!(chunk.to_json(), v);
}

#[test]
fn test_stream_chunk_unknown_without_data() {
    let v = obj(vec![("chunk_type", st("no_data_chunk"))]);
    let chunk = StreamChunk::from_json(&v).expect("decodes");
    assert_eq!(chunk.unknown_chunk_type(), Some("no_data_chunk"));
    assert!(chunk.unknown_data().unwrap().is_null());
    assert_eq!(chunk.to_json(), v);
}

#[test]
fn test_stream_chunk_missing_or_odd_type() {
    let missing = StreamChunk::from_json(&obj(vec![])).expect("decodes");
    assert_eq!(missing.unknown_chunk_type(), Some("<missing chunk_type>"));
    let odd = StreamChunk::from_json(&obj(vec![("chunk_type", JsonValue::Number(JsonNumber::PosInt(3)))])).expect("decodes");
    assert_eq!(odd.unknown_chunk_type(), Some("<non-string chunk_type>"));
}

#[test]
fn test_stream_chunk_complete_with_bad_data_fails() {
    let v = obj(vec![("chunk_type", st("complete")), ("data", st("nope"))]);
    assert!(StreamChunk::from_json(&v).is_err());
}

#[test]
fn test_stream_chunk_other_variants_read_as_unknown() {
    let chunks = vec![
        (StreamChunk::StatusUpdate { interaction_id: "i1".to_string(), status: InteractionStatus::InProgress }, "status_update"),
        (StreamChunk::ContentStart { index: 3, content_type: Some("text".to_string()) }, "content_start"),
        (StreamChunk::ContentStop { index: 3 }, "content_stop"),
        (StreamChunk::Error { message: "boom".to_string(), code: None }, "error"),
    ];
    for (c, tag) in chunks {
        let json = c.to_json();
        let back = StreamChunk::from_json(&json).expect("decodes");
        assert!(back.is_unknown());
        assert_eq!(back.unknown_chunk_type(), Some(tag));
        assert_eq!(back.to_json(), json);
    }
}

#[test]
fn test_stream_chunk_start_without_data_is_unknown() {
    let v = obj(vec![("chunk_type", st("start"))]);
    let chunk = StreamChunk::from_json(&v).expect("decodes");
    assert_eq!(chunk.unknown_chunk_type(), Some("start"));
    assert_eq!(chunk.unknown_data(), Some(&JsonValue::Null));
}

#[test]
fn test_interaction_response_to_json_layout() {
    let json = response().to_json();
    assert_eq!(json.get("id"), Some(&st("test-interaction-123")));
    assert_eq!(json.get("status"), Some(&st("completed")));
    assert!(json.get("agent").is_none());
    assert!(json.get("outputs").is_some());
    let back = InteractionResponse::from_json(&json).expect("decodes");
    assert_eq!(back.all_text(), "The answer is 4.");
}
