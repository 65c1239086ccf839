//! Errors that can occur when talking to the GenAI API.

use vstd::prelude::*;
use vstd::string::*;
use crate::text::{decimal, starts_with, u64_to_decimal};

verus! {

#[verifier::external_type_specification]
#[verifier::external_body]
pub struct ExReqwestError(reqwest::Error);

#[verifier::external_type_specification]
#[verifier::external_body]
pub struct ExJsonError(serde_json::Error);

#[verifier::external_type_specification]
#[verifier::external_body]
pub struct ExUtf8Error(std::str::Utf8Error);

/// The errors of the client.
///
/// `Api` carries the HTTP status code (for retry logic), the error message
/// from the response body, and the `x-goog-request-id` header when present
/// (for correlation with Google's logs and support).
#[derive(Debug)]
pub enum GenaiError {
    /// The HTTP request failed.
    Http(reqwest::Error),
    /// A server-sent event could not be parsed.
    Parse(String),
    /// A JSON document could not be deserialized.
    Json(serde_json::Error),
    /// Bytes were not valid UTF-8.
    Utf8(std::str::Utf8Error),
    /// The API answered with an error status.
    Api {
        /// HTTP status code (e.g., 400, 429, 500).
        status_code: u16,
        /// Error message from the API response body.
        message: String,
        /// Request ID from the `x-goog-request-id` header, if available.
        request_id: Option<String>,
    },
    /// An error inside the client.
    Internal(String),
    /// The caller's input was invalid.
    InvalidInput(String),
    /// The API answered successfully but with content that does not match
    /// the expected schema.
    MalformedResponse(String),
}

impl From<reqwest::Error> for GenaiError {
    fn from(e: reqwest::Error) -> (r: GenaiError) {
        GenaiError::Http(e)
    }
}

impl vstd::std_specs::convert::FromSpecImpl<reqwest::Error> for GenaiError {
    open spec fn obeys_from_spec() -> bool {
        true
    }

    open spec fn from_spec(v: reqwest::Error) -> GenaiError {
        GenaiError::Http(v)
    }
}

impl From<serde_json::Error> for GenaiError {
    fn from(e: serde_json::Error) -> (r: GenaiError) {
        GenaiError::Json(e)
    }
}

impl vstd::std_specs::convert::FromSpecImpl<serde_json::Error> for GenaiError {
    open spec fn obeys_from_spec() -> bool {
        true
    }

    open spec fn from_spec(v: serde_json::Error) -> GenaiError {
        GenaiError::Json(v)
    }
}

impl From<std::str::Utf8Error> for GenaiError {
    fn from(e: std::str::Utf8Error) -> (r: GenaiError) {
        GenaiError::Utf8(e)
    }
}

impl vstd::std_specs::convert::FromSpecImpl<std::str::Utf8Error> for GenaiError {
    open spec fn obeys_from_spec() -> bool {
        true
    }

    open spec fn from_spec(v: std::str::Utf8Error) -> GenaiError {
        GenaiError::Utf8(v)
    }
}

/// Renders an HTTP error as text.
#[verifier::external_body]
pub(crate) fn http_error_text(e: &reqwest::Error) -> String {
    format!("{}", e)
}

/// Renders a JSON error as text.
#[verifier::external_body]
pub(crate) fn json_error_text(e: &serde_json::Error) -> String {
    format!("{}", e)
}

/// Renders a UTF-8 decoding error as text.
#[verifier::external_body]
fn utf8_error_text(e: &std::str::Utf8Error) -> String {
    format!("{}", e)
}

/// The message of an error, for the variants whose message depends only on
/// the data they carry.
pub open spec fn plain_message(e: GenaiError) -> Option<Seq<char>> {
    match e {
        GenaiError::Parse(s) => Some("SSE parsing error: "@ + s@),
        GenaiError::Api { status_code, message, .. } => Some(
            "API error (HTTP "@ + decimal(status_code as nat) + "): "@ + message@,
        ),
        GenaiError::Internal(s) => Some("Internal client error: "@ + s@),
        GenaiError::InvalidInput(s) => Some("Invalid input: "@ + s@),
        GenaiError::MalformedResponse(s) => Some("Malformed API response: "@ + s@),
        _ => None,
    }
}

/// The fixed start of the message of each variant.
pub open spec fn message_prefix(e: GenaiError) -> Seq<char> {
    match e {
        GenaiError::Http(_) => "HTTP request error: "@,
        GenaiError::Parse(_) => "SSE parsing error: "@,
        GenaiError::Json(_) => "JSON deserialization error: "@,
        GenaiError::Utf8(_) => "UTF-8 decoding error: "@,
        GenaiError::Api { .. } => "API error (HTTP "@,
        GenaiError::Internal(_) => "Internal client error: "@,
        GenaiError::InvalidInput(_) => "Invalid input: "@,
        GenaiError::MalformedResponse(_) => "Malformed API response: "@,
    }
}

impl GenaiError {
    /// The human-readable message of this error.
    ///
    /// For the variants that wrap an HTTP, JSON or UTF-8 error, the part
    /// after the fixed start is that error's own rendering.
    pub fn message(&self) -> (r: String)
        ensures
            starts_with(r@, message_prefix(*self)),
            plain_message(*self) matches Some(m) ==> r@ == m,
    {
        let (prefix, rest): (&str, String) = match self {
            GenaiError::Http(e) => ("HTTP request error: ", http_error_text(e)),
            GenaiError::Parse(s) => ("SSE parsing error: ", s.clone()),
            GenaiError::Json(e) => ("JSON deserialization error: ", json_error_text(e)),
            GenaiError::Utf8(e) => ("UTF-8 decoding error: ", utf8_error_text(e)),
            GenaiError::Api { status_code, message, .. } => {
                let mut rest = u64_to_decimal(*status_code as u64);
                rest.append("): ");
                rest.append(message.as_str());
                ("API error (HTTP ", rest)
            },
            GenaiError::Internal(s) => ("Internal client error: ", s.clone()),
            GenaiError::InvalidInput(s) => ("Invalid input: ", s.clone()),
            GenaiError::MalformedResponse(s) => ("Malformed API response: ", s.clone()),
        };
        let mut r = String::from_str(prefix);
        r.append(rest.as_str());
        proof {
            assert(prefix@ == message_prefix(*self));
            assert(r@.subrange(0, prefix@.len() as int) =~= prefix@);
        }
        r
    }
}

} // verus!
