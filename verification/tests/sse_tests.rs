use genai_client::sse::{char_is_white_space, SseDecoder};

fn feed_all(chunks: &[&[u8]]) -> (Vec<String>, bool) {
    let mut d = SseDecoder::new();
    let mut out = Vec::new();
    for c in chunks {
        let batch = d.feed(c);
        out.extend(batch.payloads);
        if batch.error.is_some() {
            return (out, true);
        }
    }
    (out, false)
}

#[test]
fn test_sse_single_message() {
    let (p, failed) = feed_all(&[b"data: {\"text\":\"Hello\"}\n\n"]);
    assert!(!failed);
    assert_eq!(p, vec!["{\"text\":\"Hello\"}".to_string()]);
}

#[test]
fn test_sse_multiple_messages() {
    let (p, _) = feed_all(&[b"data: {\"text\":\"First\"}\n\ndata: {\"text\":\"Second\"}\n\n"]);
    assert_eq!(p, vec!["{\"text\":\"First\"}".to_string(), "{\"text\":\"Second\"}".to_string()]);
}

#[test]
fn test_sse_chunked_data() {
    let (p, _) = feed_all(&[b"data: {\"te", b"xt\":\"Hello\"}\n\n"]);
    assert_eq!(p, vec!["{\"text\":\"Hello\"}".to_string()]);
}

#[test]
fn test_sse_ignores_non_data_lines() {
    let (p, _) = feed_all(&[b": comment\ndata: {\"text\":\"Hello\"}\n\nevent: test\n\n"]);
    assert_eq!(p, vec!["{\"text\":\"Hello\"}".to_string()]);
}

#[test]
fn test_sse_empty_data_line_and_done_marker() {
    let (p, _) = feed_all(&[b"data: \ndata: [DONE]\ndata: {\"text\":\"Hello\"}\n\n"]);
    assert_eq!(p, vec!["{\"text\":\"Hello\"}".to_string()]);
}

#[test]
fn test_sse_one_byte_chunks() {
    let full: &[u8] = b"data: {\"text\":\"Hello\"}\n\n";
    let chunks: Vec<&[u8]> = full.chunks(1).collect();
    let (p, _) = feed_all(&chunks);
    assert_eq!(p, vec!["{\"text\":\"Hello\"}".to_string()]);
}

#[test]
fn test_sse_mixed_line_endings() {
    let (p, _) = feed_all(&[b"data: {\"text\":\"First\"}\n\ndata: {\"text\":\"Second\"}\r\n\r\ndata: {\"text\":\"Third\"}\n\n"]);
    assert_eq!(p.len(), 3);
    assert_eq!(p[1], "{\"text\":\"Second\"}");
}

#[test]
fn test_sse_invalid_utf8_line_is_an_error() {
    let (p, failed) = feed_all(&[b"data: ok\n", b"data: \xff\xfe\n", b"data: later\n"]);
    assert!(failed);
    assert_eq!(p, vec!["ok".to_string()]);
}

#[test]
fn test_sse_incomplete_line_is_kept() {
    let mut d = SseDecoder::new();
    let batch = d.feed(b"data: partial");
    assert!(batch.payloads.is_empty());
    let batch = d.feed(b" more\n");
    assert_eq!(batch.payloads, vec!["partial more".to_string()]);
}

#[test]
fn test_sse_leading_unicode_whitespace_trimmed() {
    let (p, _) = feed_all(&["data:\u{3000}\t x\n".as_bytes()]);
    assert_eq!(p, vec!["x".to_string()]);
}

#[test]
fn test_sse_many_messages() {
    let mut data = Vec::new();
    for i in 0..1000 {
        data.extend_from_slice(format!("data: {{\"text\":\"Message {}\"}}\n\n", i).as_bytes());
    }
    let (p, _) = feed_all(&[&data]);
    assert_eq!(p.len(), 1000);
    assert_eq!(p[999], "{\"text\":\"Message 999\"}");
}

#[test]
fn test_sse_large_message() {
    let data = format!("data: {{\"text\":\"{}\"}}\n\n", "x".repeat(1_000_000));
    let (p, _) = feed_all(&[data.as_bytes()]);
    assert_eq!(p.len(), 1);
    assert_eq!(p[0].len(), 1_000_000 + 11);
}

#[test]
fn test_char_is_white_space_matches_std() {
    for c in ['\t', '\n', ' ', '\u{85}', '\u{a0}', '\u{2003}', '\u{3000}', 'a', '0', '\u{200b}'] {
        assert_eq!(char_is_white_space(c), c.is_whitespace());
    }
}
