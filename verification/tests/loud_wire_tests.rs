use genai_client::json::{JsonNumber, JsonValue};
use genai_client::loud_wire::{
    cut_at, day_of_year_to_month_day, format_timestamp, is_leap_year, next_request_id, prefix,
    prefix_with, status_label, timestamp, truncate_long_fields, RequestCounter,
};

fn obj(entries: Vec<(&str, JsonValue)>) -> JsonValue {
    JsonValue::Object(entries.into_iter().map(|(k, v)| (k.to_string(), v)).collect())
}

fn s(text: &str) -> JsonValue {
    JsonValue::String(text.to_string())
}

#[test]
fn test_timestamp_format() {
    let ts = timestamp();
    assert!(ts.len() == 20, "Timestamp should be 20 chars: {ts}");
    assert!(ts.ends_with('Z'), "Should end with Z");
    assert!(ts.contains('T'), "Should contain T separator");
}

#[test]
fn test_request_id_increments() {
    let mut counter = RequestCounter::new();
    let id1 = next_request_id(&mut counter);
    let id2 = next_request_id(&mut counter);
    assert!(id2 > id1, "Request IDs should increment");
}

#[test]
fn test_request_ids_start_at_one() {
    let mut counter = RequestCounter::new();
    assert_eq!(next_request_id(&mut counter), 1);
    assert_eq!(next_request_id(&mut counter), 2);
    assert_eq!(next_request_id(&mut counter), 3);
}

#[test]
fn test_format_timestamp_epoch() {
    assert_eq!(format_timestamp(0), "1970-01-01T00:00:00Z");
}

#[test]
fn test_format_timestamp_known_instants() {
    assert_eq!(format_timestamp(951782400), "2000-02-29T00:00:00Z");
    assert_eq!(format_timestamp(1700000000), "2023-11-14T22:13:20Z");
    assert_eq!(format_timestamp(1709251199), "2024-02-29T23:59:59Z");
    assert_eq!(format_timestamp(1735689599), "2024-12-31T23:59:59Z");
}

#[test]
fn test_is_leap_year() {
    assert!(is_leap_year(2000));
    assert!(is_leap_year(2024));
    assert!(!is_leap_year(1900));
    assert!(!is_leap_year(2023));
    assert!(is_leap_year(-4));
}

#[test]
fn test_day_of_year_to_month_day() {
    assert_eq!(day_of_year_to_month_day(1, false), (1, 1));
    assert_eq!(day_of_year_to_month_day(60, true), (2, 29));
    assert_eq!(day_of_year_to_month_day(60, false), (3, 1));
    assert_eq!(day_of_year_to_month_day(365, false), (12, 31));
    assert_eq!(day_of_year_to_month_day(400, false), (12, 31));
}

#[test]
fn test_status_label() {
    assert_eq!(status_label(200), "200 OK");
    assert_eq!(status_label(299), "299 OK");
    assert_eq!(status_label(404), "404 ERROR");
}

#[test]
fn test_prefix_contains_parts() {
    let p = prefix_with(7, "2024-01-01T00:00:00Z");
    assert!(p.contains("[LOUD_WIRE]"));
    assert!(p.contains("2024-01-01T00:00:00Z"));
    assert!(p.contains("[REQ#7]"));
    let q = prefix(12);
    assert!(q.contains("[REQ#12]"));
}

#[test]
fn test_cut_at() {
    assert_eq!(cut_at("short", 100), "short");
    let long = "A".repeat(200);
    let cut = cut_at(&long, 100);
    assert_eq!(cut.len(), 103);
    assert!(cut.ends_with("..."));
}

#[test]
fn test_cut_at_counts_characters() {
    let two_byte = "é".repeat(60);
    assert_eq!(cut_at(&two_byte, 100), two_byte);
    let long = "é".repeat(150);
    let cut = cut_at(&long, 100);
    assert_eq!(cut.chars().count(), 103);
    assert_eq!(cut, format!("{}...", "é".repeat(100)));
}

#[test]
fn test_truncate_short_data() {
    let mut value = obj(vec![("data", s("short"))]);
    truncate_long_fields(&mut value);
    assert_eq!(value.get("data"), Some(&s("short")));
}

#[test]
fn test_truncate_long_data() {
    let mut value = obj(vec![("data", s(&"A".repeat(200)))]);
    truncate_long_fields(&mut value);
    let result = value.get("data").and_then(|v| v.as_str()).unwrap().to_string();
    assert!(result.ends_with("..."));
    assert_eq!(result.len(), 103);
    assert!(result.starts_with(&"A".repeat(100)));
}

#[test]
fn test_truncate_signature_field() {
    let mut value = obj(vec![("signature", s(&"B".repeat(200)))]);
    truncate_long_fields(&mut value);
    assert!(value.get("signature").and_then(|v| v.as_str()).unwrap().ends_with("..."));
}

#[test]
fn test_truncate_preserves_text() {
    let long_text = "Hello world! ".repeat(50);
    let mut value = obj(vec![("text", s(&long_text)), ("data", s(&"A".repeat(200)))]);
    truncate_long_fields(&mut value);
    assert_eq!(value.get("text"), Some(&s(&long_text)));
    assert!(value.get("data").and_then(|v| v.as_str()).unwrap().ends_with("..."));
}

#[test]
fn test_truncate_nested_structure() {
    let mut value = obj(vec![
        ("model", s("gemini")),
        ("content", obj(vec![("data", s(&"C".repeat(150)))])),
        ("other", s("value")),
    ]);
    truncate_long_fields(&mut value);
    assert_eq!(value.get("model"), Some(&s("gemini")));
    assert_eq!(value.get("other"), Some(&s("value")));
    let inner = value.get("content").and_then(|c| c.get("data")).and_then(|v| v.as_str()).unwrap();
    assert!(inner.ends_with("..."));
}

#[test]
fn test_truncate_inside_arrays_and_non_strings() {
    let mut value = JsonValue::Array(vec![
        obj(vec![("data", s(&"D".repeat(120)))]),
        obj(vec![("data", JsonValue::Number(JsonNumber::PosInt(5)))]),
    ]);
    truncate_long_fields(&mut value);
    match &value {
        JsonValue::Array(items) => {
            assert_eq!(items[0].get("data").and_then(|v| v.as_str()).unwrap().len(), 103);
            assert_eq!(items[1].get("data"), Some(&JsonValue::Number(JsonNumber::PosInt(5))));
        }
        _ => panic!("expected an array"),
    }
}

#[test]
fn test_truncate_is_idempotent_on_example() {
    let mut value = obj(vec![("data", s(&"E".repeat(300)))]);
    truncate_long_fields(&mut value);
    let once = value.get("data").and_then(|v| v.as_str()).unwrap().to_string();
    truncate_long_fields(&mut value);
    let twice = value.get("data").and_then(|v| v.as_str()).unwrap().to_string();
    assert_eq!(once, twice);
}
