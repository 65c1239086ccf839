use genai_client::json::JsonValue;
use genai_client::models::generate::GenerateContentResponse;
use genai_client::models::metadata::{GroundingChunk, GroundingMetadata, UrlContextMetadata, UrlRetrievalStatus, WebSource};

fn obj(entries: Vec<(&str, JsonValue)>) -> JsonValue {
    JsonValue::Object(entries.into_iter().map(|(k, v)| (k.to_string(), v)).collect())
}

fn st(text: &str) -> JsonValue {
    JsonValue::String(text.to_string())
}

#[test]
fn test_deserialize_url_context_metadata() {
    let v = obj(vec![(
        "urlMetadata",
        JsonValue::Array(vec![
            obj(vec![("retrievedUrl", st("https://example.com")), ("urlRetrievalStatus", st("URL_RETRIEVAL_STATUS_SUCCESS"))]),
            obj(vec![("retrievedUrl", st("https://blocked.com")), ("urlRetrievalStatus", st("URL_RETRIEVAL_STATUS_UNSAFE"))]),
            obj(vec![("retrievedUrl", st("https://failed.com")), ("urlRetrievalStatus", st("URL_RETRIEVAL_STATUS_ERROR"))]),
        ]),
    )]);
    let m = UrlContextMetadata::from_json(&v).expect("decodes");
    assert_eq!(m.url_metadata.len(), 3);
    assert_eq!(m.url_metadata[0].retrieved_url, "https://example.com");
    assert_eq!(m.url_metadata[0].url_retrieval_status, UrlRetrievalStatus::UrlRetrievalStatusSuccess);
    assert_eq!(m.url_metadata[1].url_retrieval_status, UrlRetrievalStatus::UrlRetrievalStatusUnsafe);
    assert_eq!(m.url_metadata[2].url_retrieval_status, UrlRetrievalStatus::UrlRetrievalStatusError);
}

#[test]
fn test_deserialize_url_context_metadata_missing_field() {
    let m = UrlContextMetadata::from_json(&obj(vec![])).expect("decodes");
    assert!(m.url_metadata.is_empty());
}

#[test]
fn test_url_retrieval_status_roundtrip() {
    for s in [
        UrlRetrievalStatus::UrlRetrievalStatusUnspecified,
        UrlRetrievalStatus::UrlRetrievalStatusSuccess,
        UrlRetrievalStatus::UrlRetrievalStatusUnsafe,
        UrlRetrievalStatus::UrlRetrievalStatusError,
    ] {
        assert_eq!(UrlRetrievalStatus::from_json(&s.to_json()), Ok(s));
    }
    assert!(UrlRetrievalStatus::from_json(&st("NOPE")).is_err());
}

#[test]
fn test_grounding_metadata_roundtrip_and_defaults() {
    let g = GroundingMetadata {
        web_search_queries: vec!["rust".to_string()],
        grounding_chunks: vec![GroundingChunk {
            web: WebSource { uri: "https://rust-lang.org".to_string(), title: "Rust".to_string(), domain: "rust-lang.org".to_string() },
        }],
    };
    assert_eq!(GroundingMetadata::from_json(&g.to_json()), Ok(g));
    let partial = obj(vec![("groundingChunks", JsonValue::Array(vec![obj(vec![])]))]);
    let d = GroundingMetadata::from_json(&partial).expect("decodes");
    assert!(d.web_search_queries.is_empty());
    assert_eq!(d.grounding_chunks[0].web, WebSource::default());
}

#[test]
fn test_generate_content_response_decoding() {
    let v = obj(vec![(
        "candidates",
        JsonValue::Array(vec![obj(vec![(
            "content",
            obj(vec![
                (
                    "parts",
                    JsonValue::Array(vec![
                        obj(vec![("text", st("Minimal"))]),
                        obj(vec![("executableCode", obj(vec![("language", st("PYTHON")), ("code", st("print(1)"))]))]),
                    ]),
                ),
                ("role", st("model")),
            ]),
        )])]),
    )]);
    let r = GenerateContentResponse::from_json(&v).expect("decodes");
    assert_eq!(r.candidates.len(), 1);
    assert_eq!(r.candidates[0].content.role, "model");
    assert_eq!(r.candidates[0].content.parts[0].text.as_deref(), Some("Minimal"));
    assert_eq!(r.candidates[0].content.parts[1].executable_code.as_ref().unwrap().code, "print(1)");
}

#[test]
fn test_generate_content_response_missing_candidates() {
    assert!(GenerateContentResponse::from_json(&obj(vec![])).is_err());
}
