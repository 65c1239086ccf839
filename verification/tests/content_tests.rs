use genai_client::models::content::{Annotation, CodeExecutionLanguage, CodeExecutionOutcome, InteractionContent};
use genai_client::models::media::Resolution;
use genai_client::models::metadata::FileSearchResultItem;
use genai_client::json::JsonValue;

#[test]
fn content_tests_test_code_execution_outcome_enum() {
    assert!(CodeExecutionOutcome::Success.is_success());
    assert!(!CodeExecutionOutcome::Success.is_error());

    assert!(!CodeExecutionOutcome::Failed.is_success());
    assert!(CodeExecutionOutcome::Failed.is_error());

    assert!(!CodeExecutionOutcome::DeadlineExceeded.is_success());
    assert!(CodeExecutionOutcome::DeadlineExceeded.is_error());

    assert!(!CodeExecutionOutcome::Unspecified.is_success());
    assert!(CodeExecutionOutcome::Unspecified.is_error());
}

#[test]
fn tests_test_code_execution_outcome_enum() {
    assert!(CodeExecutionOutcome::Success.is_success());
    assert!(!CodeExecutionOutcome::Success.is_error());

    assert!(!CodeExecutionOutcome::Failed.is_success());
    assert!(CodeExecutionOutcome::Failed.is_error());

    assert!(!CodeExecutionOutcome::DeadlineExceeded.is_success());
    assert!(CodeExecutionOutcome::DeadlineExceeded.is_error());

    assert!(!CodeExecutionOutcome::Unspecified.is_success());
    assert!(CodeExecutionOutcome::Unspecified.is_error());
}

#[test]
fn test_annotation_struct_basics() {
    let annotation = Annotation { start_index: 0, end_index: 10, source: Some("https://example.com".to_string()) };

    assert_eq!(annotation.byte_len(), 10);
    assert!(annotation.has_source());

    let no_source = Annotation { start_index: 5, end_index: 15, source: None };
    assert_eq!(no_source.byte_len(), 10);
    assert!(!no_source.has_source());
}

#[test]
fn test_annotation_extract_span() {
    let text = "Hello, world!";
    let annotation = Annotation { start_index: 0, end_index: 5, source: None };
    assert_eq!(annotation.extract_span(text), Some("Hello"));

    let annotation_mid = Annotation { start_index: 7, end_index: 12, source: None };
    assert_eq!(annotation_mid.extract_span(text), Some("world"));

    let out_of_bounds = Annotation { start_index: 100, end_index: 200, source: None };
    assert_eq!(out_of_bounds.extract_span(text), None);
}

#[test]
fn test_annotation_extract_span_utf8() {
    let text = "Héllo, 世界!";
    let annotation = Annotation { start_index: 0, end_index: 6, source: None };
    assert_eq!(annotation.extract_span(text), Some("Héllo"));

    let world_annotation = Annotation { start_index: 8, end_index: 14, source: None };
    assert_eq!(world_annotation.extract_span(text), Some("世界"));
}

#[test]
fn test_annotation_extract_span_inverted_indices() {
    let inverted = Annotation { start_index: 10, end_index: 5, source: None };

    let text = "Hello, world!";
    assert_eq!(inverted.extract_span(text), None, "Inverted indices should return None");
    assert_eq!(inverted.byte_len(), 0, "byte_len of inverted indices should be 0 (saturating_sub)");
}

#[test]
fn test_annotation_extract_span_zero_length() {
    let zero_len = Annotation { start_index: 5, end_index: 5, source: Some("https://example.com".to_string()) };

    let text = "Hello, world!";
    assert_eq!(zero_len.extract_span(text), Some(""), "Zero-length span should return empty string");
    assert_eq!(zero_len.byte_len(), 0);
}

#[test]
fn test_annotation_extract_span_mid_utf8_boundary() {
    let text = "Hello, 世界!";

    let mid_start = Annotation { start_index: 8, end_index: 13, source: None };
    assert_eq!(mid_start.extract_span(text), None, "Slicing from middle of UTF-8 character should return None");

    let mid_end = Annotation { start_index: 7, end_index: 11, source: None };
    assert_eq!(mid_end.extract_span(text), None, "Slicing to middle of UTF-8 character should return None");

    let valid_cjk = Annotation { start_index: 7, end_index: 13, source: None };
    assert_eq!(valid_cjk.extract_span(text), Some("世界"), "Valid CJK character slice should work");
}

#[test]
fn test_resolution_default_is_medium() {
    assert_eq!(Resolution::default(), Resolution::Medium);
}

#[test]
fn test_file_search_result_item_default() {
    let item = FileSearchResultItem::default();
    assert!(item.title.is_empty());
    assert!(item.text.is_empty());
    assert!(item.store.is_empty());
}

#[test]
fn test_resolution_wire_names() {
    assert_eq!(Resolution::Low.to_json(), JsonValue::String("low".to_string()));
    assert_eq!(Resolution::UltraHigh.to_json(), JsonValue::String("ultra_high".to_string()));
    assert_eq!(Resolution::from_json(&JsonValue::String("high".to_string())), Resolution::High);
}

#[test]
fn test_resolution_unknown_string() {
    let r = Resolution::from_json(&JsonValue::String("super_high".to_string()));
    assert!(r.is_unknown());
    assert_eq!(r.unknown_resolution_type(), Some("super_high"));
    assert_eq!(r.to_json(), JsonValue::String("super_high".to_string()));
}

#[test]
fn test_resolution_unknown_object_form() {
    let v = JsonValue::Object(vec![("level".to_string(), JsonValue::String("ultra_ultra_high".to_string()))]);
    let r = Resolution::from_json(&v);
    assert!(r.is_unknown());
    assert!(r.unknown_resolution_type().unwrap().starts_with("<non-string:"));
    assert_eq!(r.unknown_data(), Some(&v));
}

#[test]
fn test_file_search_item_roundtrip() {
    let item = FileSearchResultItem {
        title: "Doc.pdf".to_string(),
        text: "Found".to_string(),
        store: "store-1".to_string(),
    };
    let json = item.to_json();
    assert_eq!(json.get("fileSearchStore"), Some(&JsonValue::String("store-1".to_string())));
    assert_eq!(FileSearchResultItem::from_json(&json), Ok(item));
}

#[test]
fn test_code_execution_display_names() {
    assert_eq!(CodeExecutionOutcome::Success.to_string(), "OK");
    assert_eq!(CodeExecutionLanguage::Python.to_string(), "PYTHON");
}

#[test]
fn test_content_text_helper() {
    let c = InteractionContent::Text { text: Some("hi".to_string()), annotations: None };
    assert_eq!(c.text(), Some("hi"));
    assert!(c.is_text());
}
