//! Error context: previews of long bodies and the messages built around them.

use vstd::prelude::*;
use vstd::string::*;
use vstd::utf8::*;
use crate::errors::{GenaiError, http_error_text, json_error_text};

verus! {

broadcast use vstd::utf8::group_utf8_lib;

/// Maximum number of bytes of a body quoted in an error message.
pub const ERROR_BODY_PREVIEW_LENGTH: usize = 200;

/// The largest character boundary of `bytes` that is at most `n`.
pub open spec fn last_boundary_at_most(bytes: Seq<u8>, n: int) -> int
    decreases n,
{
    if n <= 0 {
        0
    } else if is_char_boundary(bytes, n) {
        n
    } else {
        last_boundary_at_most(bytes, n - 1)
    }
}

/// What [`truncate_for_context`] gives back for a text `s` (as characters)
/// and a byte budget: the text itself when it fits, else the longest prefix
/// that ends on a character boundary within the budget, followed by `...`.
pub open spec fn truncated_text(s: Seq<char>, max_len: int) -> Seq<char> {
    let bytes = encode_utf8(s);
    if bytes.len() <= max_len {
        s
    } else {
        decode_utf8(bytes.subrange(0, last_boundary_at_most(bytes, max_len))) + "..."@
    }
}

proof fn lemma_last_boundary(bytes: Seq<u8>, n: int, k: int)
    requires
        valid_utf8(bytes),
        0 <= k <= n,
        k == 0 || is_char_boundary(bytes, k),
        forall|j: int| k < j <= n ==> !is_char_boundary(bytes, j),
    ensures
        last_boundary_at_most(bytes, n) == k,
    decreases n,
{
    if n > k {
        lemma_last_boundary(bytes, n - 1, k);
    }
}

/// The last boundary within the budget lies within the budget and within the text.
pub proof fn lemma_last_boundary_bounds(bytes: Seq<u8>, n: int)
    requires
        valid_utf8(bytes),
        0 <= n,
    ensures
        0 <= last_boundary_at_most(bytes, n) <= n,
        is_char_boundary(bytes, last_boundary_at_most(bytes, n)),
        last_boundary_at_most(bytes, n) <= bytes.len(),
    decreases n,
{
    if n > 0 && !is_char_boundary(bytes, n) {
        lemma_last_boundary_bounds(bytes, n - 1);
    }
    if n > bytes.len() {
        assert(!is_char_boundary(bytes, n));
    }
}

/// Truncates a string to at most `max_len` bytes, adding `...` if it was cut.
///
/// The cut falls on a character boundary, so a multi-byte character is never
/// split.
pub fn truncate_for_context(s: &str, max_len: usize) -> (r: String)
    ensures
        r@ == truncated_text(s@, max_len as int),
{
    proof {
        reveal_strlit("...");
    }
    let ghost bytes = s.spec_bytes();
    let n = s.as_bytes().len();
    if n <= max_len {
        return s.to_owned();
    }
    let mut k: usize = max_len;
    while k > 0 && !s.is_char_boundary(k)
        invariant
            bytes == s.spec_bytes(),
            valid_utf8(bytes),
            k <= max_len,
            max_len < bytes.len(),
            forall|j: int| k < j <= max_len ==> !is_char_boundary(bytes, j),
        decreases k,
    {
        k = k - 1;
    }
    proof {
        lemma_last_boundary(bytes, max_len as int, k as int);
        is_char_boundary_start_end_of_seq(bytes);
    }
    let (head, _tail) = s.split_at(k);
    proof {
        assert(head@ == decode_utf8(encode_utf8(head@)));
    }
    let mut r = String::from_str(head);
    r.append("...");
    r
}

/// The message for a JSON payload that failed to parse: the parser's
/// message and a preview of the payload.
pub open spec fn parse_error_text(error_text: Seq<char>, json: Seq<char>) -> Seq<char> {
    "JSON parse error: "@ + error_text + " | Context: "@ + truncated_text(json, ERROR_BODY_PREVIEW_LENGTH as int)
}

/// The message for a JSON parse failure, around the parser's message.
pub fn parse_error_message(error_text: &str, json_str: &str) -> (r: String)
    ensures
        r@ == parse_error_text(error_text@, json_str@),
{
    let mut r = String::from_str("JSON parse error: ");
    r.append(error_text);
    r.append(" | Context: ");
    r.append(truncate_for_context(json_str, ERROR_BODY_PREVIEW_LENGTH).as_str());
    r
}

/// Formats a JSON parse error with a preview of the JSON that failed.
pub fn format_json_parse_error(json_str: &str, error: serde_json::Error) -> (r: String)
    ensures
        exists|t: Seq<char>| r@ == parse_error_text(t, json_str@),
{
    let text = json_error_text(&error);
    parse_error_message(text.as_str(), json_str)
}

/// The message for a document that did not deserialize: what was being
/// read, the parser's message and a preview of the document.
pub open spec fn deserialize_error_text(type_context: Seq<char>, error_text: Seq<char>, json: Seq<char>) -> Seq<char> {
    "Failed to parse "@ + type_context + ": "@ + error_text + " | JSON: "@ + truncated_text(json, ERROR_BODY_PREVIEW_LENGTH as int)
}

/// The message of a deserialization failure with its context.
pub fn deserialize_error_message(type_context: &str, error_text: &str, json_str: &str) -> (r: String)
    ensures
        r@ == deserialize_error_text(type_context@, error_text@, json_str@),
{
    let mut r = String::from_str("Failed to parse ");
    r.append(type_context);
    r.append(": ");
    r.append(error_text);
    r.append(" | JSON: ");
    r.append(truncate_for_context(json_str, ERROR_BODY_PREVIEW_LENGTH).as_str());
    r
}

/// The message of an API error: a preview of the response body, or of the
/// reason it could not be read.
pub open spec fn api_error_message(body: Seq<char>) -> Seq<char> {
    truncated_text(body, ERROR_BODY_PREVIEW_LENGTH as int)
}

/// The error for a response with an error status, from its status code, its
/// body (or the failure to read it) and its request id header.
pub fn api_error(status_code: u16, body: Result<String, reqwest::Error>, request_id: Option<String>) -> (e: GenaiError)
    ensures
        e matches GenaiError::Api { status_code: c, message, request_id: id } && c == status_code && id == request_id
            && match body {
            Ok(b) => message@ == api_error_message(b@),
            Err(_) => exists|t: Seq<char>| message@ == api_error_message("Failed to read error body: "@ + t),
        },
{
    let text = match body {
        Ok(b) => b,
        Err(err) => {
            let mut t = String::from_str("Failed to read error body: ");
            t.append(http_error_text(&err).as_str());
            t
        },
    };
    let message = truncate_for_context(text.as_str(), ERROR_BODY_PREVIEW_LENGTH);
    GenaiError::Api { status_code, message, request_id }
}

} // verus!
