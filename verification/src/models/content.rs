//! Content of interactions: the variants that appear in requests and
//! responses, and their JSON encoding.
//!
//! Content is a JSON object with a `type` field. Decoding tries the known
//! types first; anything else is kept whole as `Unknown`, so new API content
//! types never fail a response. Encoding writes the `type` field first, then
//! the variant's fields; an `Unknown` writes its data's fields back (or the
//! data under `"data"` when it is not an object), so it survives a round trip.

use vstd::prelude::*;
use vstd::string::*;
use vstd::utf8::*;
use crate::text::utf8_str;
use crate::json::{
    Json, JsonNumber, JsonValue, Num, entries_view, json_get, opt_entry, object_of, array_of,
    push_entry, push_str_entry, push_opt_entry, values_view,
};
use crate::fields::{
    Fields, Src, arity_ok, check_arity, dec_default_opt_bool, dec_default_opt_string,
    dec_default_opt_tag, dec_default_opt_value, dec_default_string, dec_default_usize,
    dec_opt_string, dec_string, dec_value, read_default_opt_bool, read_default_opt_string,
    read_default_opt_tag, read_default_opt_value, read_default_string, read_default_usize,
    read_opt_string, read_string, read_unit_tag, read_value, record_fields, record_src, src_field,
    unit_tag,
};

verus! {

broadcast use vstd::utf8::group_utf8_lib;

/// An annotation linking a span of text to its source.
///
/// `start_index` and `end_index` are byte positions (not character indices)
/// in the UTF-8 text: the span is `start_index..end_index`.
#[derive(Clone, Debug, PartialEq, Eq)]
pub struct Annotation {
    /// Start of the segment in the text (byte position, inclusive).
    pub start_index: usize,
    /// End of the segment in the text (byte position, exclusive).
    pub end_index: usize,
    /// Source attributed for this portion of the text.
    pub source: Option<String>,
}

/// The mathematical form of an annotation.
pub struct AnnotationModel {
    pub start_index: usize,
    pub end_index: usize,
    pub source: Option<Seq<char>>,
}

pub open spec fn opt_str_view(o: Option<String>) -> Option<Seq<char>> {
    match o {
        Some(s) => Some(s@),
        None => None,
    }
}

impl View for Annotation {
    type V = AnnotationModel;

    open spec fn view(&self) -> AnnotationModel {
        AnnotationModel {
            start_index: self.start_index,
            end_index: self.end_index,
            source: opt_str_view(self.source),
        }
    }
}

/// The text of an annotated span, when the indices lie in the text, are in
/// order, and delimit valid UTF-8.
pub open spec fn span_of(a: AnnotationModel, text: Seq<u8>) -> Option<Seq<u8>> {
    if a.end_index <= text.len() && a.start_index <= a.end_index && valid_utf8(
        text.subrange(a.start_index as int, a.end_index as int),
    ) {
        Some(text.subrange(a.start_index as int, a.end_index as int))
    } else {
        None
    }
}

impl Annotation {
    /// Creates an annotation with the given span indices and optional source.
    pub fn new(start_index: usize, end_index: usize, source: Option<String>) -> (a: Self)
        ensures
            a.start_index == start_index,
            a.end_index == end_index,
            a.source == source,
    {
        Annotation { start_index, end_index, source }
    }

    /// The byte length of the annotated span (zero when the indices are inverted).
    pub fn byte_len(&self) -> (n: usize)
        ensures
            n == if self.end_index >= self.start_index {
                (self.end_index - self.start_index) as usize
            } else {
                0usize
            },
    {
        self.end_index.saturating_sub(self.start_index)
    }

    /// Whether this annotation has a source attribution.
    pub fn has_source(&self) -> (b: bool)
        ensures
            b == self.source.is_some(),
    {
        self.source.is_some()
    }

    /// The annotated substring of `text`.
    ///
    /// `None` if the indices are out of bounds or inverted, or if the byte
    /// span does not form valid UTF-8.
    pub fn extract_span<'a>(&self, text: &'a str) -> (r: Option<&'a str>)
        ensures
            match r {
                Some(s) => span_of(self@, text.spec_bytes()) == Some(s.spec_bytes()),
                None => span_of(self@, text.spec_bytes()) is None,
            },
    {
        let bytes = text.as_bytes();
        if self.end_index <= bytes.len() && self.start_index <= self.end_index {
            match utf8_str(&bytes[self.start_index..self.end_index]) {
                Ok(s) => Some(s),
                Err(_) => None,
            }
        } else {
            None
        }
    }
}

/// Outcome of a code execution.
///
/// The API sends these as strings like `"OUTCOME_OK"`; any other string is
/// `Unspecified`.
#[derive(Clone, Copy, Debug, PartialEq, Eq, Hash)]
pub enum CodeExecutionOutcome {
    /// Code executed successfully.
    Success,
    /// Code execution failed (e.g., syntax error, runtime error).
    Failed,
    /// Code execution exceeded the time limit.
    DeadlineExceeded,
    /// Unrecognized outcome.
    Unspecified,
}

impl Default for CodeExecutionOutcome {
    fn default() -> (r: Self)
        ensures
            r == CodeExecutionOutcome::Unspecified,
    {
        CodeExecutionOutcome::Unspecified
    }
}

impl CodeExecutionOutcome {
    /// Whether the execution was successful.
    pub fn is_success(&self) -> (b: bool)
        ensures
            b == (*self == CodeExecutionOutcome::Success),
    {
        match self {
            CodeExecutionOutcome::Success => true,
            _ => false,
        }
    }

    /// Whether the execution failed (any outcome but success).
    pub fn is_error(&self) -> (b: bool)
        ensures
            b == !(*self == CodeExecutionOutcome::Success),
    {
        !self.is_success()
    }

    /// The display name of the outcome.
    pub fn to_string(&self) -> (s: String)
        ensures
            s@ == outcome_display(*self),
    {
        let name = match self {
            CodeExecutionOutcome::Success => "OK",
            CodeExecutionOutcome::Failed => "FAILED",
            CodeExecutionOutcome::DeadlineExceeded => "DEADLINE_EXCEEDED",
            CodeExecutionOutcome::Unspecified => "UNSPECIFIED",
        };
        String::from_str(name)
    }
}

pub open spec fn outcome_display(o: CodeExecutionOutcome) -> Seq<char> {
    match o {
        CodeExecutionOutcome::Success => "OK"@,
        CodeExecutionOutcome::Failed => "FAILED"@,
        CodeExecutionOutcome::DeadlineExceeded => "DEADLINE_EXCEEDED"@,
        CodeExecutionOutcome::Unspecified => "UNSPECIFIED"@,
    }
}

/// The wire name of an outcome.
pub open spec fn outcome_wire_name(o: CodeExecutionOutcome) -> Seq<char> {
    match o {
        CodeExecutionOutcome::Success => "OUTCOME_OK"@,
        CodeExecutionOutcome::Failed => "OUTCOME_FAILED"@,
        CodeExecutionOutcome::DeadlineExceeded => "OUTCOME_DEADLINE_EXCEEDED"@,
        CodeExecutionOutcome::Unspecified => "UNSPECIFIED"@,
    }
}

/// The outcome that a wire name stands for.
pub open spec fn outcome_from_wire(name: Seq<char>) -> CodeExecutionOutcome {
    if name == "OUTCOME_OK"@ {
        CodeExecutionOutcome::Success
    } else if name == "OUTCOME_FAILED"@ {
        CodeExecutionOutcome::Failed
    } else if name == "OUTCOME_DEADLINE_EXCEEDED"@ {
        CodeExecutionOutcome::DeadlineExceeded
    } else {
        CodeExecutionOutcome::Unspecified
    }
}

/// Programming language of a code execution.
#[derive(Clone, Copy, Debug, PartialEq, Eq, Hash)]
pub enum CodeExecutionLanguage {
    /// Python.
    Python,
    /// Unrecognized language.
    Unspecified,
}

impl Default for CodeExecutionLanguage {
    fn default() -> (r: Self)
        ensures
            r == CodeExecutionLanguage::Python,
    {
        CodeExecutionLanguage::Python
    }
}

impl CodeExecutionLanguage {
    /// The display name of the language.
    pub fn to_string(&self) -> (s: String)
        ensures
            s@ == language_wire_name(*self),
    {
        let name = match self {
            CodeExecutionLanguage::Python => "PYTHON",
            CodeExecutionLanguage::Unspecified => "UNSPECIFIED",
        };
        String::from_str(name)
    }
}

/// The wire name (and display name) of a language.
pub open spec fn language_wire_name(l: CodeExecutionLanguage) -> Seq<char> {
    match l {
        CodeExecutionLanguage::Python => "PYTHON"@,
        CodeExecutionLanguage::Unspecified => "UNSPECIFIED"@,
    }
}

/// The language that a wire name stands for.
pub open spec fn language_from_wire(name: Seq<char>) -> CodeExecutionLanguage {
    if name == "PYTHON"@ {
        CodeExecutionLanguage::Python
    } else {
        CodeExecutionLanguage::Unspecified
    }
}

/// Content of an interaction, as it appears in requests and responses.
#[derive(Debug, Clone)]
pub enum InteractionContent {
    /// Text content with optional source annotations.
    Text { text: Option<String>, annotations: Option<Vec<Annotation>> },
    /// Thought content (internal reasoning).
    Thought { text: Option<String> },
    /// Signature that verifies thought content.
    ThoughtSignature { signature: String },
    /// Image content.
    Image { data: Option<String>, uri: Option<String>, mime_type: Option<String> },
    /// Audio content.
    Audio { data: Option<String>, uri: Option<String>, mime_type: Option<String> },
    /// Video content.
    Video { data: Option<String>, uri: Option<String>, mime_type: Option<String> },
    /// Document content for file-based inputs.
    Document { data: Option<String>, uri: Option<String>, mime_type: Option<String> },
    /// Function call (output from the model).
    FunctionCall {
        id: Option<String>,
        name: String,
        args: JsonValue,
        thought_signature: Option<String>,
    },
    /// Function result (input to the model with the execution result).
    FunctionResult { name: String, call_id: String, result: JsonValue },
    /// Code execution call (the model requesting code execution).
    CodeExecutionCall { id: String, language: CodeExecutionLanguage, code: String },
    /// Code execution result.
    CodeExecutionResult { call_id: String, outcome: CodeExecutionOutcome, output: String },
    /// Google Search call.
    GoogleSearchCall { query: String },
    /// Google Search result.
    GoogleSearchResult { results: JsonValue },
    /// URL context call.
    UrlContextCall { url: String },
    /// URL context result; `content` is `None` when the URL could not be fetched.
    UrlContextResult { url: String, content: Option<String> },
    /// A content type this library does not know, kept whole: its type name
    /// and the full JSON object.
    Unknown { content_type: String, data: JsonValue },
}

/// The mathematical form of interaction content.
pub enum ContentModel {
    Text { text: Option<Seq<char>>, annotations: Option<Seq<AnnotationModel>> },
    Thought { text: Option<Seq<char>> },
    ThoughtSignature { signature: Seq<char> },
    Image { data: Option<Seq<char>>, uri: Option<Seq<char>>, mime_type: Option<Seq<char>> },
    Audio { data: Option<Seq<char>>, uri: Option<Seq<char>>, mime_type: Option<Seq<char>> },
    Video { data: Option<Seq<char>>, uri: Option<Seq<char>>, mime_type: Option<Seq<char>> },
    Document { data: Option<Seq<char>>, uri: Option<Seq<char>>, mime_type: Option<Seq<char>> },
    FunctionCall {
        id: Option<Seq<char>>,
        name: Seq<char>,
        args: Json,
        thought_signature: Option<Seq<char>>,
    },
    FunctionResult { name: Seq<char>, call_id: Seq<char>, result: Json },
    CodeExecutionCall { id: Seq<char>, language: CodeExecutionLanguage, code: Seq<char> },
    CodeExecutionResult { call_id: Seq<char>, outcome: CodeExecutionOutcome, output: Seq<char> },
    GoogleSearchCall { query: Seq<char> },
    GoogleSearchResult { results: Json },
    UrlContextCall { url: Seq<char> },
    UrlContextResult { url: Seq<char>, content: Option<Seq<char>> },
    Unknown { content_type: Seq<char>, data: Json },
}

pub open spec fn annotations_view(v: Seq<Annotation>) -> Seq<AnnotationModel> {
    Seq::new(v.len(), |i: int| v[i]@)
}

pub open spec fn opt_annotations_view(o: Option<Vec<Annotation>>) -> Option<Seq<AnnotationModel>> {
    match o {
        Some(v) => Some(annotations_view(v@)),
        None => None,
    }
}

impl View for InteractionContent {
    type V = ContentModel;

    open spec fn view(&self) -> ContentModel {
        match self {
            InteractionContent::Text { text, annotations } => ContentModel::Text {
                text: opt_str_view(*text),
                annotations: opt_annotations_view(*annotations),
            },
            InteractionContent::Thought { text } => ContentModel::Thought { text: opt_str_view(*text) },
            InteractionContent::ThoughtSignature { signature } => ContentModel::ThoughtSignature {
                signature: signature@,
            },
            InteractionContent::Image { data, uri, mime_type } => ContentModel::Image {
                data: opt_str_view(*data),
                uri: opt_str_view(*uri),
                mime_type: opt_str_view(*mime_type),
            },
            InteractionContent::Audio { data, uri, mime_type } => ContentModel::Audio {
                data: opt_str_view(*data),
                uri: opt_str_view(*uri),
                mime_type: opt_str_view(*mime_type),
            },
            InteractionContent::Video { data, uri, mime_type } => ContentModel::Video {
                data: opt_str_view(*data),
                uri: opt_str_view(*uri),
                mime_type: opt_str_view(*mime_type),
            },
            InteractionContent::Document { data, uri, mime_type } => ContentModel::Document {
                data: opt_str_view(*data),
                uri: opt_str_view(*uri),
                mime_type: opt_str_view(*mime_type),
            },
            InteractionContent::FunctionCall { id, name, args, thought_signature } => ContentModel::FunctionCall {
                id: opt_str_view(*id),
                name: name@,
                args: args@,
                thought_signature: opt_str_view(*thought_signature),
            },
            InteractionContent::FunctionResult { name, call_id, result } => ContentModel::FunctionResult {
                name: name@,
                call_id: call_id@,
                result: result@,
            },
            InteractionContent::CodeExecutionCall { id, language, code } => ContentModel::CodeExecutionCall {
                id: id@,
                language: *language,
                code: code@,
            },
            InteractionContent::CodeExecutionResult { call_id, outcome, output } => ContentModel::CodeExecutionResult {
                call_id: call_id@,
                outcome: *outcome,
                output: output@,
            },
            InteractionContent::GoogleSearchCall { query } => ContentModel::GoogleSearchCall { query: query@ },
            InteractionContent::GoogleSearchResult { results } => ContentModel::GoogleSearchResult {
                results: results@,
            },
            InteractionContent::UrlContextCall { url } => ContentModel::UrlContextCall { url: url@ },
            InteractionContent::UrlContextResult { url, content } => ContentModel::UrlContextResult {
                url: url@,
                content: opt_str_view(*content),
            },
            InteractionContent::Unknown { content_type, data } => ContentModel::Unknown {
                content_type: content_type@,
                data: data@,
            },
        }
    }
}

impl InteractionContent {
    /// The text of a `Text` content with non-empty text; `None` for anything
    /// else, `Thought` included.
    pub fn text(&self) -> (r: Option<&str>)
        ensures
            opt_ref_str_view(r) == content_text(self@),
    {
        match self {
            InteractionContent::Text { text: Some(t), .. } => {
                if t.as_str().is_empty() {
                    None
                } else {
                    Some(t.as_str())
                }
            },
            _ => None,
        }
    }

    /// The annotations of a `Text` content that has a non-empty list of them.
    pub fn annotations(&self) -> (r: Option<&[Annotation]>)
        ensures
            match r {
                Some(a) => self@ matches ContentModel::Text { annotations: Some(v), .. } && v.len() > 0
                    && annotations_view(a@) == v,
                None => !(self@ matches ContentModel::Text { annotations: Some(v), .. } && v.len() > 0),
            },
    {
        match self {
            InteractionContent::Text { annotations: Some(a), .. } => {
                if a.len() == 0 {
                    None
                } else {
                    Some(a.as_slice())
                }
            },
            _ => None,
        }
    }

    /// The text of a `Thought` content with non-empty text.
    pub fn thought(&self) -> (r: Option<&str>)
        ensures
            opt_ref_str_view(r) == content_thought(self@),
    {
        match self {
            InteractionContent::Thought { text: Some(t) } => {
                if t.as_str().is_empty() {
                    None
                } else {
                    Some(t.as_str())
                }
            },
            _ => None,
        }
    }

    pub fn is_text(&self) -> (b: bool)
        ensures
            b == (self@ is Text),
    {
        match self {
            InteractionContent::Text { .. } => true,
            _ => false,
        }
    }

    pub fn is_thought(&self) -> (b: bool)
        ensures
            b == (self@ is Thought),
    {
        match self {
            InteractionContent::Thought { .. } => true,
            _ => false,
        }
    }

    pub fn is_thought_signature(&self) -> (b: bool)
        ensures
            b == (self@ is ThoughtSignature),
    {
        match self {
            InteractionContent::ThoughtSignature { .. } => true,
            _ => false,
        }
    }

    pub fn is_function_call(&self) -> (b: bool)
        ensures
            b == (self@ is FunctionCall),
    {
        match self {
            InteractionContent::FunctionCall { .. } => true,
            _ => false,
        }
    }

    /// Whether this content is of a type the library does not know.
    pub fn is_unknown(&self) -> (b: bool)
        ensures
            b == (self@ is Unknown),
    {
        match self {
            InteractionContent::Unknown { .. } => true,
            _ => false,
        }
    }

    pub fn is_code_execution_call(&self) -> (b: bool)
        ensures
            b == (self@ is CodeExecutionCall),
    {
        match self {
            InteractionContent::CodeExecutionCall { .. } => true,
            _ => false,
        }
    }

    pub fn is_code_execution_result(&self) -> (b: bool)
        ensures
            b == (self@ is CodeExecutionResult),
    {
        match self {
            InteractionContent::CodeExecutionResult { .. } => true,
            _ => false,
        }
    }

    pub fn is_google_search_call(&self) -> (b: bool)
        ensures
            b == (self@ is GoogleSearchCall),
    {
        match self {
            InteractionContent::GoogleSearchCall { .. } => true,
            _ => false,
        }
    }

    pub fn is_google_search_result(&self) -> (b: bool)
        ensures
            b == (self@ is GoogleSearchResult),
    {
        match self {
            InteractionContent::GoogleSearchResult { .. } => true,
            _ => false,
        }
    }

    pub fn is_url_context_call(&self) -> (b: bool)
        ensures
            b == (self@ is UrlContextCall),
    {
        match self {
            InteractionContent::UrlContextCall { .. } => true,
            _ => false,
        }
    }

    pub fn is_url_context_result(&self) -> (b: bool)
        ensures
            b == (self@ is UrlContextResult),
    {
        match self {
            InteractionContent::UrlContextResult { .. } => true,
            _ => false,
        }
    }

    /// The type name of an unknown content; `None` for known types.
    pub fn unknown_content_type(&self) -> (r: Option<&str>)
        ensures
            match r {
                Some(s) => self@ matches ContentModel::Unknown { content_type, .. } && s@ == content_type,
                None => !(self@ is Unknown),
            },
    {
        match self {
            InteractionContent::Unknown { content_type, .. } => Some(content_type.as_str()),
            _ => None,
        }
    }

    /// The JSON data of an unknown content; `None` for known types.
    pub fn unknown_data(&self) -> (r: Option<&JsonValue>)
        ensures
            match r {
                Some(d) => self@ matches ContentModel::Unknown { data, .. } && d@ == data,
                None => !(self@ is Unknown),
            },
    {
        match self {
            InteractionContent::Unknown { data, .. } => Some(data),
            _ => None,
        }
    }
}

pub open spec fn opt_ref_str_view(o: Option<&str>) -> Option<Seq<char>> {
    match o {
        Some(s) => Some(s@),
        None => None,
    }
}

/// The non-empty text of a `Text` content.
pub open spec fn content_text(c: ContentModel) -> Option<Seq<char>> {
    match c {
        ContentModel::Text { text: Some(t), .. } => if t.len() > 0 {
            Some(t)
        } else {
            None
        },
        _ => None,
    }
}

/// The non-empty text of a `Thought` content.
pub open spec fn content_thought(c: ContentModel) -> Option<Seq<char>> {
    match c {
        ContentModel::Thought { text: Some(t) } => if t.len() > 0 {
            Some(t)
        } else {
            None
        },
        _ => None,
    }
}

/// The JSON encoding of an annotation: `start_index`, `end_index`, and
/// `source` when present.
pub open spec fn annotation_json(a: AnnotationModel) -> Json {
    Json::Object(
        seq![
            ("start_index"@, Json::Number(Num::PosInt(a.start_index as u64))),
            ("end_index"@, Json::Number(Num::PosInt(a.end_index as u64))),
        ] + opt_entry("source"@, a.source),
    )
}

/// The entries of `fields` except those named `key`, in order.
pub open spec fn without_key(fields: Seq<(Seq<char>, Json)>, key: Seq<char>) -> Seq<(Seq<char>, Json)>
    decreases fields.len(),
{
    if fields.len() == 0 {
        fields
    } else {
        let rest = without_key(fields.drop_last(), key);
        if fields.last().0 == key {
            rest
        } else {
            rest.push(fields.last())
        }
    }
}

/// The fields an unknown content writes after its type: the data's own
/// fields (but `type`) when it is an object, nothing when it is null, and
/// the data under `"data"` otherwise.
pub open spec fn unknown_fields(data: Json) -> Seq<(Seq<char>, Json)> {
    match data {
        Json::Object(fields) => without_key(fields, "type"@),
        Json::Null => Seq::empty(),
        _ => seq![("data"@, data)],
    }
}

pub open spec fn type_entry(tag: Seq<char>) -> Seq<(Seq<char>, Json)> {
    seq![("type"@, Json::Str(tag))]
}

pub open spec fn media_json(
    tag: Seq<char>,
    data: Option<Seq<char>>,
    uri: Option<Seq<char>>,
    mime_type: Option<Seq<char>>,
) -> Json {
    Json::Object(
        type_entry(tag) + opt_entry("data"@, data) + opt_entry("uri"@, uri) + opt_entry("mime_type"@, mime_type),
    )
}

/// The JSON encoding of interaction content.
pub open spec fn content_json(c: ContentModel) -> Json {
    match c {
        ContentModel::Text { text, annotations } => Json::Object(
            type_entry("text"@) + opt_entry("text"@, text) + match annotations {
                Some(a) => if a.len() > 0 {
                    seq![("annotations"@, Json::Array(Seq::new(a.len(), |i: int| annotation_json(a[i]))))]
                } else {
                    Seq::empty()
                },
                None => Seq::empty(),
            },
        ),
        ContentModel::Thought { text } => Json::Object(type_entry("thought"@) + opt_entry("text"@, text)),
        ContentModel::ThoughtSignature { signature } => Json::Object(
            type_entry("thought_signature"@) + seq![("signature"@, Json::Str(signature))],
        ),
        ContentModel::Image { data, uri, mime_type } => media_json("image"@, data, uri, mime_type),
        ContentModel::Audio { data, uri, mime_type } => media_json("audio"@, data, uri, mime_type),
        ContentModel::Video { data, uri, mime_type } => media_json("video"@, data, uri, mime_type),
        ContentModel::Document { data, uri, mime_type } => media_json("document"@, data, uri, mime_type),
        ContentModel::FunctionCall { id, name, args, thought_signature } => Json::Object(
            type_entry("function_call"@) + opt_entry("id"@, id) + seq![
                ("name"@, Json::Str(name)),
                ("arguments"@, args),
            ] + opt_entry("thoughtSignature"@, thought_signature),
        ),
        ContentModel::FunctionResult { name, call_id, result } => Json::Object(
            type_entry("function_result"@) + seq![
                ("name"@, Json::Str(name)),
                ("call_id"@, Json::Str(call_id)),
                ("result"@, result),
            ],
        ),
        ContentModel::CodeExecutionCall { id, language, code } => Json::Object(
            type_entry("code_execution_call"@) + seq![
                ("id"@, Json::Str(id)),
                ("language"@, Json::Str(language_wire_name(language))),
                ("code"@, Json::Str(code)),
            ],
        ),
        ContentModel::CodeExecutionResult { call_id, outcome, output } => Json::Object(
            type_entry("code_execution_result"@) + seq![
                ("call_id"@, Json::Str(call_id)),
                ("outcome"@, Json::Str(outcome_wire_name(outcome))),
                ("output"@, Json::Str(output)),
            ],
        ),
        ContentModel::GoogleSearchCall { query } => Json::Object(
            type_entry("google_search_call"@) + seq![("query"@, Json::Str(query))],
        ),
        ContentModel::GoogleSearchResult { results } => Json::Object(
            type_entry("google_search_result"@) + seq![("results"@, results)],
        ),
        ContentModel::UrlContextCall { url } => Json::Object(
            type_entry("url_context_call"@) + seq![("url"@, Json::Str(url))],
        ),
        ContentModel::UrlContextResult { url, content } => Json::Object(
            type_entry("url_context_result"@) + seq![("url"@, Json::Str(url))] + opt_entry("content"@, content),
        ),
        ContentModel::Unknown { content_type, data } => Json::Object(
            type_entry(content_type) + unknown_fields(data),
        ),
    }
}

impl Annotation {
    /// The JSON encoding of this annotation.
    pub fn to_json(&self) -> (r: JsonValue)
        ensures
            r@ == annotation_json(self@),
    {
        let mut e: Vec<(String, JsonValue)> = Vec::new();
        push_entry(&mut e, "start_index", JsonValue::Number(JsonNumber::PosInt(self.start_index as u64)));
        push_entry(&mut e, "end_index", JsonValue::Number(JsonNumber::PosInt(self.end_index as u64)));
        push_opt_entry(&mut e, "source", &self.source);
        proof {
            assert(entries_view(e@) =~= seq![
                ("start_index"@, Json::Number(Num::PosInt(self.start_index as u64))),
                ("end_index"@, Json::Number(Num::PosInt(self.end_index as u64))),
            ] + opt_entry("source"@, self@.source));
        }
        object_of(e)
    }
}

/// Appends the fields of an unknown content's data.
pub(crate) fn push_unknown_fields(e: &mut Vec<(String, JsonValue)>, data: &JsonValue)
    ensures
        entries_view(final(e)@) == entries_view(old(e)@) + unknown_fields(data@),
{
    match data {
        JsonValue::Object(fields) => {
            let ghost fs = data@->Object_0;
            let ghost start = entries_view(e@);
            proof {
                assert(fs =~= entries_view(fields@));
                assert(fs.subrange(0, 0) =~= Seq::<(Seq<char>, Json)>::empty());
                assert(start + without_key(fs.subrange(0, 0), "type"@) =~= start);
            }
            let mut i: usize = 0;
            while i < fields.len()
                invariant
                    fs == entries_view(fields@),
                    i <= fields@.len(),
                    entries_view(e@) == start + without_key(fs.subrange(0, i as int), "type"@),
                decreases fields@.len() - i,
            {
                proof {
                    assert(fs.subrange(0, i + 1).drop_last() =~= fs.subrange(0, i as int));
                }
                if !crate::json::str_eq(fields[i].0.as_str(), "type") {
                    let ghost before = entries_view(e@);
                    push_entry(e, fields[i].0.as_str(), fields[i].1.deep_clone());
                    proof {
                        assert(before.push((fields@[i as int].0@, fields@[i as int].1@)) =~= start + without_key(
                            fs.subrange(0, i + 1),
                            "type"@,
                        ));
                    }
                }
                i = i + 1;
            }
            proof {
                assert(fs.subrange(0, fields@.len() as int) =~= fs);
            }
        },
        JsonValue::Null => {
            proof {
                assert(entries_view(e@) + Seq::<(Seq<char>, Json)>::empty() =~= entries_view(e@));
            }
        },
        _ => {
            let ghost before = entries_view(e@);
            push_entry(e, "data", data.deep_clone());
            proof {
                assert(before.push(("data"@, data@)) =~= before + seq![("data"@, data@)]);
            }
        },
    }
}

/// Appends the `type` entry.
fn push_type(e: &mut Vec<(String, JsonValue)>, tag: &str)
    requires
        old(e)@.len() == 0,
    ensures
        entries_view(final(e)@) == type_entry(tag@),
{
    push_str_entry(e, "type", tag);
    proof {
        assert(entries_view(e@) =~= type_entry(tag@));
    }
}

fn media_to_json(tag: &str, data: &Option<String>, uri: &Option<String>, mime_type: &Option<String>) -> (r: JsonValue)
    ensures
        r@ == media_json(tag@, opt_str_view(*data), opt_str_view(*uri), opt_str_view(*mime_type)),
{
    let mut e: Vec<(String, JsonValue)> = Vec::new();
    push_type(&mut e, tag);
    push_opt_entry(&mut e, "data", data);
    push_opt_entry(&mut e, "uri", uri);
    push_opt_entry(&mut e, "mime_type", mime_type);
    object_of(e)
}

impl InteractionContent {
    /// The JSON encoding of this content: the `type` field first, then the
    /// variant's fields; absent optional fields and empty annotation lists
    /// are left out.
    pub fn to_json(&self) -> (r: JsonValue)
        ensures
            r@ == content_json(self@),
    {
        let mut e: Vec<(String, JsonValue)> = Vec::new();
        match self {
            InteractionContent::Text { text, annotations } => {
                push_type(&mut e, "text");
                push_opt_entry(&mut e, "text", text);
                match annotations {
                    Some(a) => {
                        if a.len() > 0 {
                            let mut items: Vec<JsonValue> = Vec::new();
                            let mut i: usize = 0;
                            while i < a.len()
                                invariant
                                    i <= a@.len(),
                                    items@.len() == i,
                                    forall|j: int| 0 <= j < i ==> items@[j]@ == annotation_json(a@[j]@),
                                decreases a@.len() - i,
                            {
                                items.push(a[i].to_json());
                                i = i + 1;
                            }
                            let ghost before = entries_view(e@);
                            let arr = array_of(items);
                            proof {
                                let av = annotations_view(a@);
                                assert(values_view(items@) =~= Seq::new(av.len(), |i: int| annotation_json(av[i])));
                            }
                            push_entry(&mut e, "annotations", arr);
                        } else {
                            proof {
                                assert(entries_view(e@) + Seq::<(Seq<char>, Json)>::empty() =~= entries_view(e@));
                            }
                        }
                    },
                    None => {
                        proof {
                            assert(entries_view(e@) + Seq::<(Seq<char>, Json)>::empty() =~= entries_view(e@));
                        }
                    },
                }
                proof {
                    let v = entries_view(e@);
                    assert(v =~= match self@ {
                        ContentModel::Text { text, annotations } => type_entry("text"@) + opt_entry("text"@, text) + match annotations {
                            Some(a) => if a.len() > 0 {
                                seq![("annotations"@, Json::Array(Seq::new(a.len(), |i: int| annotation_json(a[i]))))]
                            } else {
                                Seq::empty()
                            },
                            None => Seq::empty(),
                        },
                        _ => v,
                    });
                }
                object_of(e)
            },
            InteractionContent::Thought { text } => {
                push_type(&mut e, "thought");
                push_opt_entry(&mut e, "text", text);
                object_of(e)
            },
            InteractionContent::ThoughtSignature { signature } => {
                push_type(&mut e, "thought_signature");
                push_str_entry(&mut e, "signature", signature.as_str());
                proof {
                    assert(entries_view(e@) =~= type_entry("thought_signature"@) + seq![("signature"@, Json::Str(signature@))]);
                }
                object_of(e)
            },
            InteractionContent::Image { data, uri, mime_type } => media_to_json("image", data, uri, mime_type),
            InteractionContent::Audio { data, uri, mime_type } => media_to_json("audio", data, uri, mime_type),
            InteractionContent::Video { data, uri, mime_type } => media_to_json("video", data, uri, mime_type),
            InteractionContent::Document { data, uri, mime_type } => media_to_json("document", data, uri, mime_type),
            InteractionContent::FunctionCall { id, name, args, thought_signature } => {
                push_type(&mut e, "function_call");
                push_opt_entry(&mut e, "id", id);
                let ghost mid = entries_view(e@);
                push_str_entry(&mut e, "name", name.as_str());
                push_entry(&mut e, "arguments", args.deep_clone());
                let ghost mid2 = entries_view(e@);
                push_opt_entry(&mut e, "thoughtSignature", thought_signature);
                proof {
                    assert(mid2 =~= mid + seq![("name"@, Json::Str(name@)), ("arguments"@, args@)]);
                }
                object_of(e)
            },
            InteractionContent::FunctionResult { name, call_id, result } => {
                push_type(&mut e, "function_result");
                push_str_entry(&mut e, "name", name.as_str());
                push_str_entry(&mut e, "call_id", call_id.as_str());
                push_entry(&mut e, "result", result.deep_clone());
                proof {
                    assert(entries_view(e@) =~= type_entry("function_result"@) + seq![
                        ("name"@, Json::Str(name@)),
                        ("call_id"@, Json::Str(call_id@)),
                        ("result"@, result@),
                    ]);
                }
                object_of(e)
            },
            InteractionContent::CodeExecutionCall { id, language, code } => {
                push_type(&mut e, "code_execution_call");
                push_str_entry(&mut e, "id", id.as_str());
                let lang = language.to_string();
                push_str_entry(&mut e, "language", lang.as_str());
                push_str_entry(&mut e, "code", code.as_str());
                proof {
                    assert(entries_view(e@) =~= type_entry("code_execution_call"@) + seq![
                        ("id"@, Json::Str(id@)),
                        ("language"@, Json::Str(language_wire_name(*language))),
                        ("code"@, Json::Str(code@)),
                    ]);
                }
                object_of(e)
            },
            InteractionContent::CodeExecutionResult { call_id, outcome, output } => {
                push_type(&mut e, "code_execution_result");
                push_str_entry(&mut e, "call_id", call_id.as_str());
                let wire = match outcome {
                    CodeExecutionOutcome::Success => "OUTCOME_OK",
                    CodeExecutionOutcome::Failed => "OUTCOME_FAILED",
                    CodeExecutionOutcome::DeadlineExceeded => "OUTCOME_DEADLINE_EXCEEDED",
                    CodeExecutionOutcome::Unspecified => "UNSPECIFIED",
                };
                push_str_entry(&mut e, "outcome", wire);
                push_str_entry(&mut e, "output", output.as_str());
                proof {
                    assert(entries_view(e@) =~= type_entry("code_execution_result"@) + seq![
                        ("call_id"@, Json::Str(call_id@)),
                        ("outcome"@, Json::Str(outcome_wire_name(*outcome))),
                        ("output"@, Json::Str(output@)),
                    ]);
                }
                object_of(e)
            },
            InteractionContent::GoogleSearchCall { query } => {
                push_type(&mut e, "google_search_call");
                push_str_entry(&mut e, "query", query.as_str());
                proof {
                    assert(entries_view(e@) =~= type_entry("google_search_call"@) + seq![("query"@, Json::Str(query@))]);
                }
                object_of(e)
            },
            InteractionContent::GoogleSearchResult { results } => {
                push_type(&mut e, "google_search_result");
                push_entry(&mut e, "results", results.deep_clone());
                proof {
                    assert(entries_view(e@) =~= type_entry("google_search_result"@) + seq![("results"@, results@)]);
                }
                object_of(e)
            },
            InteractionContent::UrlContextCall { url } => {
                push_type(&mut e, "url_context_call");
                push_str_entry(&mut e, "url", url.as_str());
                proof {
                    assert(entries_view(e@) =~= type_entry("url_context_call"@) + seq![("url"@, Json::Str(url@))]);
                }
                object_of(e)
            },
            InteractionContent::UrlContextResult { url, content } => {
                push_type(&mut e, "url_context_result");
                push_str_entry(&mut e, "url", url.as_str());
                let ghost mid = entries_view(e@);
                push_opt_entry(&mut e, "content", content);
                proof {
                    assert(mid =~= type_entry("url_context_result"@) + seq![("url"@, Json::Str(url@))]);
                }
                object_of(e)
            },
            InteractionContent::Unknown { content_type, data } => {
                push_type(&mut e, content_type.as_str());
                push_unknown_fields(&mut e, data);
                object_of(e)
            },
        }
    }
}

/// Decoding of one annotation, from an object or an array.
pub open spec fn annotation_from_json(j: Json) -> Result<AnnotationModel, ()> {
    match record_src(j) {
        None => Err(()),
        Some(src) => if !arity_ok(src, 3) {
            Err(())
        } else {
            match (
                dec_default_usize(src, "start_index"@, 0),
                dec_default_usize(src, "end_index"@, 1),
                dec_opt_string(src, "source"@, 2),
            ) {
                (Ok(start_index), Ok(end_index), Ok(source)) => Ok(
                    AnnotationModel { start_index, end_index, source },
                ),
                _ => Err(()),
            }
        },
    }
}

/// Decoding of a list of annotations: all of them, or an error.
pub open spec fn annotations_from_json(items: Seq<Json>) -> Result<Seq<AnnotationModel>, ()>
    decreases items.len(),
{
    if items.len() == 0 {
        Ok(Seq::empty())
    } else {
        match (annotations_from_json(items.drop_last()), annotation_from_json(items.last())) {
            (Ok(a), Ok(b)) => Ok(a.push(b)),
            _ => Err(()),
        }
    }
}

/// An optional list of annotations that defaults to `None`.
pub open spec fn dec_default_opt_annotations(src: Src, name: Seq<char>, pos: int) -> Result<
    Option<Seq<AnnotationModel>>,
    (),
> {
    match src_field(src, name, pos) {
        None => Ok(None),
        Some(Json::Null) => Ok(None),
        Some(Json::Array(items)) => match annotations_from_json(items) {
            Ok(a) => Ok(Some(a)),
            Err(_) => Err(()),
        },
        Some(_) => Err(()),
    }
}

/// The type name and the fields of a content record: an object with a
/// string `type`, or an array whose first item is the type name.
pub open spec fn content_tag_and_src(v: Json) -> Option<(Seq<char>, Src)> {
    match v {
        Json::Object(fields) => match crate::json::fields_get(fields, "type"@) {
            Some(Json::Str(t)) => Some((t, Src::Named(fields))),
            _ => None,
        },
        Json::Array(items) => if items.len() > 0 {
            match items[0] {
                Json::Str(t) => Some((t, Src::Positional(items.drop_first()))),
                _ => None,
            }
        } else {
            None
        },
        _ => None,
    }
}

pub open spec fn dec_text(src: Src) -> Result<ContentModel, ()> {
    if !arity_ok(src, 2) {
        Err(())
    } else {
        match (dec_opt_string(src, "text"@, 0), dec_default_opt_annotations(src, "annotations"@, 1)) {
            (Ok(text), Ok(annotations)) => Ok(ContentModel::Text { text, annotations }),
            _ => Err(()),
        }
    }
}

pub open spec fn dec_thought(src: Src) -> Result<ContentModel, ()> {
    if !arity_ok(src, 1) {
        Err(())
    } else {
        match dec_opt_string(src, "text"@, 0) {
            Ok(text) => Ok(ContentModel::Thought { text }),
            _ => Err(()),
        }
    }
}

pub open spec fn dec_thought_signature(src: Src) -> Result<ContentModel, ()> {
    if !arity_ok(src, 1) {
        Err(())
    } else {
        match dec_default_string(src, "signature"@, 0) {
            Ok(signature) => Ok(ContentModel::ThoughtSignature { signature }),
            _ => Err(()),
        }
    }
}

/// The three fields of a media content: data, uri, mime type.
pub open spec fn dec_media(src: Src) -> Result<(Option<Seq<char>>, Option<Seq<char>>, Option<Seq<char>>), ()> {
    if !arity_ok(src, 3) {
        Err(())
    } else {
        match (
            dec_opt_string(src, "data"@, 0),
            dec_opt_string(src, "uri"@, 1),
            dec_opt_string(src, "mime_type"@, 2),
        ) {
            (Ok(d), Ok(u), Ok(m)) => Ok((d, u, m)),
            _ => Err(()),
        }
    }
}

pub open spec fn dec_function_call(src: Src) -> Result<ContentModel, ()> {
    if !arity_ok(src, 4) {
        Err(())
    } else {
        match (
            dec_opt_string(src, "id"@, 0),
            dec_string(src, "name"@, 1),
            dec_value(src, "arguments"@, 2),
            dec_opt_string(src, "thoughtSignature"@, 3),
        ) {
            (Ok(id), Ok(name), Ok(args), Ok(thought_signature)) => Ok(
                ContentModel::FunctionCall { id, name, args, thought_signature },
            ),
            _ => Err(()),
        }
    }
}

pub open spec fn dec_function_result(src: Src) -> Result<ContentModel, ()> {
    if !arity_ok(src, 3) {
        Err(())
    } else {
        match (dec_string(src, "name"@, 0), dec_string(src, "call_id"@, 1), dec_value(src, "result"@, 2)) {
            (Ok(name), Ok(call_id), Ok(result)) => Ok(ContentModel::FunctionResult { name, call_id, result }),
            _ => Err(()),
        }
    }
}

/// The language named in an older-format `arguments` object: Python when it
/// is absent or not a language value.
pub open spec fn arguments_language(args: Json) -> CodeExecutionLanguage {
    match json_get(args, "language"@) {
        Some(lv) => match unit_tag(lv) {
            Some(t) => language_from_wire(t),
            None => CodeExecutionLanguage::Python,
        },
        None => CodeExecutionLanguage::Python,
    }
}

/// A code execution call from its decoded fields: the direct `language` and
/// `code` when both are there, else the older `arguments` object when it
/// holds a string `code`, else the whole value kept as unknown content.
pub open spec fn code_call_content(
    v: Json,
    id: Seq<char>,
    language: Option<Seq<char>>,
    code: Option<Seq<char>>,
    arguments: Option<Json>,
) -> ContentModel {
    if language is Some && code is Some {
        ContentModel::CodeExecutionCall {
            id,
            language: language_from_wire(language->0),
            code: code->0,
        }
    } else {
        match arguments {
            Some(args) => match json_get(args, "code"@) {
                Some(Json::Str(c)) => ContentModel::CodeExecutionCall {
                    id,
                    language: arguments_language(args),
                    code: c,
                },
                _ => ContentModel::Unknown { content_type: "code_execution_call"@, data: v },
            },
            None => ContentModel::Unknown { content_type: "code_execution_call"@, data: v },
        }
    }
}

pub open spec fn dec_code_call(v: Json, src: Src) -> Result<ContentModel, ()> {
    if !arity_ok(src, 4) {
        Err(())
    } else {
        match (
            dec_string(src, "id"@, 0),
            dec_default_opt_tag(src, "language"@, 1),
            dec_default_opt_string(src, "code"@, 2),
            dec_default_opt_value(src, "arguments"@, 3),
        ) {
            (Ok(id), Ok(language), Ok(code), Ok(arguments)) => Ok(
                code_call_content(v, id, language, code, arguments),
            ),
            _ => Err(()),
        }
    }
}

/// The outcome of a code execution result: the `outcome` field when given,
/// else what the older `is_error` flag says, else unspecified.
pub open spec fn result_outcome(outcome: Option<Seq<char>>, is_error: Option<bool>) -> CodeExecutionOutcome {
    match outcome {
        Some(t) => outcome_from_wire(t),
        None => match is_error {
            Some(true) => CodeExecutionOutcome::Failed,
            Some(false) => CodeExecutionOutcome::Success,
            None => CodeExecutionOutcome::Unspecified,
        },
    }
}

/// The output of a code execution result: `output`, else the older
/// `result`, else empty.
pub open spec fn result_output(output: Option<Seq<char>>, result: Option<Seq<char>>) -> Seq<char> {
    match output {
        Some(o) => o,
        None => match result {
            Some(r) => r,
            None => Seq::empty(),
        },
    }
}

pub open spec fn dec_code_result(src: Src) -> Result<ContentModel, ()> {
    if !arity_ok(src, 5) {
        Err(())
    } else {
        match (
            dec_string(src, "call_id"@, 0),
            dec_default_opt_tag(src, "outcome"@, 1),
            dec_default_opt_string(src, "output"@, 2),
            dec_default_opt_bool(src, "is_error"@, 3),
            dec_default_opt_string(src, "result"@, 4),
        ) {
            (Ok(call_id), Ok(outcome), Ok(output), Ok(is_error), Ok(result)) => Ok(
                ContentModel::CodeExecutionResult {
                    call_id,
                    outcome: result_outcome(outcome, is_error),
                    output: result_output(output, result),
                },
            ),
            _ => Err(()),
        }
    }
}

pub open spec fn dec_single_string(src: Src, name: Seq<char>) -> Result<Seq<char>, ()> {
    if !arity_ok(src, 1) {
        Err(())
    } else {
        dec_string(src, name, 0)
    }
}

pub open spec fn dec_single_value(src: Src, name: Seq<char>) -> Result<Json, ()> {
    if !arity_ok(src, 1) {
        Err(())
    } else {
        dec_value(src, name, 0)
    }
}

pub open spec fn dec_url_result(src: Src) -> Result<ContentModel, ()> {
    if !arity_ok(src, 2) {
        Err(())
    } else {
        match (dec_string(src, "url"@, 0), dec_opt_string(src, "content"@, 1)) {
            (Ok(url), Ok(content)) => Ok(ContentModel::UrlContextResult { url, content }),
            _ => Err(()),
        }
    }
}

pub open spec fn media_content(tag: Seq<char>, m: (Option<Seq<char>>, Option<Seq<char>>, Option<Seq<char>>)) -> ContentModel {
    if tag == "image"@ {
        ContentModel::Image { data: m.0, uri: m.1, mime_type: m.2 }
    } else if tag == "audio"@ {
        ContentModel::Audio { data: m.0, uri: m.1, mime_type: m.2 }
    } else if tag == "video"@ {
        ContentModel::Video { data: m.0, uri: m.1, mime_type: m.2 }
    } else {
        ContentModel::Document { data: m.0, uri: m.1, mime_type: m.2 }
    }
}

pub open spec fn is_media_tag(tag: Seq<char>) -> bool {
    tag == "image"@ || tag == "audio"@ || tag == "video"@ || tag == "document"@
}

/// Decoding of a content of a known type; an error when the value is not
/// one (no known type name, or a field of the wrong shape).
pub open spec fn known_content(v: Json) -> Result<ContentModel, ()> {
    match content_tag_and_src(v) {
        None => Err(()),
        Some((t, src)) => if t == "text"@ {
            dec_text(src)
        } else if t == "thought"@ {
            dec_thought(src)
        } else if t == "thought_signature"@ {
            dec_thought_signature(src)
        } else if is_media_tag(t) {
            match dec_media(src) {
                Ok(m) => Ok(media_content(t, m)),
                Err(_) => Err(()),
            }
        } else if t == "function_call"@ {
            dec_function_call(src)
        } else if t == "function_result"@ {
            dec_function_result(src)
        } else if t == "code_execution_call"@ {
            dec_code_call(v, src)
        } else if t == "code_execution_result"@ {
            dec_code_result(src)
        } else if t == "google_search_call"@ {
            match dec_single_string(src, "query"@) {
                Ok(query) => Ok(ContentModel::GoogleSearchCall { query }),
                Err(_) => Err(()),
            }
        } else if t == "google_search_result"@ {
            match dec_single_value(src, "results"@) {
                Ok(results) => Ok(ContentModel::GoogleSearchResult { results }),
                Err(_) => Err(()),
            }
        } else if t == "url_context_call"@ {
            match dec_single_string(src, "url"@) {
                Ok(url) => Ok(ContentModel::UrlContextCall { url }),
                Err(_) => Err(()),
            }
        } else if t == "url_context_result"@ {
            dec_url_result(src)
        } else {
            Err(())
        },
    }
}

/// The type name an unknown content is filed under: the value's string
/// `type` field, or `<missing type>`.
pub open spec fn unknown_type_name(v: Json) -> Seq<char> {
    match json_get(v, "type"@) {
        Some(Json::Str(s)) => s,
        _ => "<missing type>"@,
    }
}

/// Decoding of interaction content: a known type when the value decodes as
/// one, otherwise the whole value as unknown content.
pub open spec fn content_from_json(v: Json) -> ContentModel {
    match known_content(v) {
        Ok(c) => c,
        Err(_) => ContentModel::Unknown { content_type: unknown_type_name(v), data: v },
    }
}

pub open spec fn view_res_content(r: Result<InteractionContent, ()>) -> Result<ContentModel, ()> {
    match r {
        Ok(c) => Ok(c@),
        Err(_) => Err(()),
    }
}

pub open spec fn view_res_annotation(r: Result<Annotation, ()>) -> Result<AnnotationModel, ()> {
    match r {
        Ok(a) => Ok(a@),
        Err(_) => Err(()),
    }
}

impl Annotation {
    /// Decodes an annotation from an object or an array.
    pub fn from_json(v: &JsonValue) -> (r: Result<Annotation, ()>)
        ensures
            view_res_annotation(r) == annotation_from_json(v@),
    {
        let f = match record_fields(v) {
            Some(f) => f,
            None => return Err(()),
        };
        if !check_arity(&f, 3) {
            return Err(());
        }
        let start_index = read_default_usize(&f, "start_index", 0);
        let end_index = read_default_usize(&f, "end_index", 1);
        let source = read_opt_string(&f, "source", 2);
        match (start_index, end_index, source) {
            (Ok(start_index), Ok(end_index), Ok(source)) => Ok(Annotation { start_index, end_index, source }),
            _ => Err(()),
        }
    }
}

fn read_default_opt_annotations(f: &Fields, name: &str, pos: usize) -> (r: Result<Option<Vec<Annotation>>, ()>)
    ensures
        match r {
            Ok(o) => dec_default_opt_annotations(f.src(), name@, pos as int) == Ok::<_, ()>(opt_annotations_view(o)),
            Err(_) => dec_default_opt_annotations(f.src(), name@, pos as int) is Err,
        },
{
    match f.field(name, pos) {
        None => Ok(None),
        Some(JsonValue::Null) => Ok(None),
        Some(JsonValue::Array(items)) => {
            let ghost iv = crate::json::values_view(items@);
            proof {
                crate::json::lemma_array_view(*items);
            }
            let mut out: Vec<Annotation> = Vec::new();
            proof {
                assert(annotations_view(out@) =~= Seq::<AnnotationModel>::empty());
                assert(iv.subrange(0, 0) =~= Seq::<Json>::empty());
            }
            let mut i: usize = 0;
            while i < items.len()
                invariant
                    iv == crate::json::values_view(items@),
                    src_field(f.src(), name@, pos as int) == Some(Json::Array(iv)),
                    i <= items@.len(),
                    annotations_from_json(iv.subrange(0, i as int)) == Ok::<_, ()>(annotations_view(out@)),
                decreases items@.len() - i,
            {
                proof {
                    assert(iv.subrange(0, i + 1).drop_last() =~= iv.subrange(0, i as int));
                }
                match Annotation::from_json(&items[i]) {
                    Ok(a) => {
                        let ghost before = out@;
                        out.push(a);
                        proof {
                            assert(annotations_view(out@) =~= annotations_view(before).push(a@));
                        }
                    },
                    Err(_) => {
                        proof {
                            assert(iv[i as int] == items@[i as int]@);
                            lemma_annotations_error_extends(iv, i as int);
                        }
                        return Err(());
                    },
                }
                i = i + 1;
            }
            proof {
                assert(iv.subrange(0, items@.len() as int) =~= iv);
            }
            Ok(Some(out))
        },
        Some(_) => Err(()),
    }
}

proof fn lemma_annotations_error_extends(items: Seq<Json>, i: int)
    requires
        0 <= i < items.len(),
        annotation_from_json(items[i]) is Err,
    ensures
        annotations_from_json(items) is Err,
    decreases items.len(),
{
    if i < items.len() - 1 {
        lemma_annotations_error_extends(items.drop_last(), i);
    }
}

/// The type name and fields of a content record.
pub(crate) fn content_tag_and_fields(v: &JsonValue) -> (r: Option<(&str, Fields<'_>)>)
    ensures
        match r {
            Some((t, f)) => content_tag_and_src(v@) == Some((t@, f.src())),
            None => content_tag_and_src(v@) is None,
        },
{
    match v {
        JsonValue::Object(fields) => {
            proof {
                crate::json::lemma_object_view(*fields);
            }
            match crate::json::lookup_entry(fields, "type") {
                Some(JsonValue::String(t)) => Some((t.as_str(), Fields::Named(fields))),
                _ => None,
            }
        },
        JsonValue::Array(items) => {
            proof {
                crate::json::lemma_array_view(*items);
            }
            if items.len() > 0 {
                match &items[0] {
                    JsonValue::String(t) => {
                        proof {
                            let iv = crate::json::values_view(items@);
                            assert(iv.drop_first() =~= iv.subrange(1, items@.len() as int));
                        }
                        Some((t.as_str(), Fields::Positional(items, 1)))
                    },
                    _ => None,
                }
            } else {
                None
            }
        },
        _ => None,
    }
}

fn decode_text(f: &Fields) -> (r: Result<InteractionContent, ()>)
    ensures
        view_res_content(r) == dec_text(f.src()),
{
    if !check_arity(f, 2) {
        return Err(());
    }
    let text = read_opt_string(f, "text", 0);
    let annotations = read_default_opt_annotations(f, "annotations", 1);
    match (text, annotations) {
        (Ok(text), Ok(annotations)) => Ok(InteractionContent::Text { text, annotations }),
        _ => Err(()),
    }
}

fn decode_thought(f: &Fields) -> (r: Result<InteractionContent, ()>)
    ensures
        view_res_content(r) == dec_thought(f.src()),
{
    if !check_arity(f, 1) {
        return Err(());
    }
    match read_opt_string(f, "text", 0) {
        Ok(text) => Ok(InteractionContent::Thought { text }),
        Err(_) => Err(()),
    }
}

fn decode_thought_signature(f: &Fields) -> (r: Result<InteractionContent, ()>)
    ensures
        view_res_content(r) == dec_thought_signature(f.src()),
{
    if !check_arity(f, 1) {
        return Err(());
    }
    match read_default_string(f, "signature", 0) {
        Ok(signature) => Ok(InteractionContent::ThoughtSignature { signature }),
        Err(_) => Err(()),
    }
}

fn decode_media(tag: &str, f: &Fields) -> (r: Result<InteractionContent, ()>)
    requires
        is_media_tag(tag@),
    ensures
        view_res_content(r) == match dec_media(f.src()) {
            Ok(m) => Ok(media_content(tag@, m)),
            Err(_) => Err(()),
        },
{
    if !check_arity(f, 3) {
        return Err(());
    }
    let data = read_opt_string(f, "data", 0);
    let uri = read_opt_string(f, "uri", 1);
    let mime_type = read_opt_string(f, "mime_type", 2);
    match (data, uri, mime_type) {
        (Ok(data), Ok(uri), Ok(mime_type)) => {
            if crate::json::str_eq(tag, "image") {
                Ok(InteractionContent::Image { data, uri, mime_type })
            } else if crate::json::str_eq(tag, "audio") {
                Ok(InteractionContent::Audio { data, uri, mime_type })
            } else if crate::json::str_eq(tag, "video") {
                Ok(InteractionContent::Video { data, uri, mime_type })
            } else {
                Ok(InteractionContent::Document { data, uri, mime_type })
            }
        },
        _ => Err(()),
    }
}

fn decode_function_call(f: &Fields) -> (r: Result<InteractionContent, ()>)
    ensures
        view_res_content(r) == dec_function_call(f.src()),
{
    if !check_arity(f, 4) {
        return Err(());
    }
    let id = read_opt_string(f, "id", 0);
    let name = read_string(f, "name", 1);
    let args = read_value(f, "arguments", 2);
    let thought_signature = read_opt_string(f, "thoughtSignature", 3);
    match (id, name, args, thought_signature) {
        (Ok(id), Ok(name), Ok(args), Ok(thought_signature)) => Ok(
            InteractionContent::FunctionCall { id, name, args, thought_signature },
        ),
        _ => Err(()),
    }
}

fn decode_function_result(f: &Fields) -> (r: Result<InteractionContent, ()>)
    ensures
        view_res_content(r) == dec_function_result(f.src()),
{
    if !check_arity(f, 3) {
        return Err(());
    }
    let name = read_string(f, "name", 0);
    let call_id = read_string(f, "call_id", 1);
    let result = read_value(f, "result", 2);
    match (name, call_id, result) {
        (Ok(name), Ok(call_id), Ok(result)) => Ok(InteractionContent::FunctionResult { name, call_id, result }),
        _ => Err(()),
    }
}

fn language_of(name: &str) -> (l: CodeExecutionLanguage)
    ensures
        l == language_from_wire(name@),
{
    if crate::json::str_eq(name, "PYTHON") {
        CodeExecutionLanguage::Python
    } else {
        CodeExecutionLanguage::Unspecified
    }
}

fn outcome_of(name: &str) -> (o: CodeExecutionOutcome)
    ensures
        o == outcome_from_wire(name@),
{
    if crate::json::str_eq(name, "OUTCOME_OK") {
        CodeExecutionOutcome::Success
    } else if crate::json::str_eq(name, "OUTCOME_FAILED") {
        CodeExecutionOutcome::Failed
    } else if crate::json::str_eq(name, "OUTCOME_DEADLINE_EXCEEDED") {
        CodeExecutionOutcome::DeadlineExceeded
    } else {
        CodeExecutionOutcome::Unspecified
    }
}

fn decode_code_call(v: &JsonValue, f: &Fields) -> (r: Result<InteractionContent, ()>)
    ensures
        view_res_content(r) == dec_code_call(v@, f.src()),
{
    if !check_arity(f, 4) {
        return Err(());
    }
    let id = read_string(f, "id", 0);
    let language = read_default_opt_tag(f, "language", 1);
    let code = read_default_opt_string(f, "code", 2);
    let arguments = read_default_opt_value(f, "arguments", 3);
    match (id, language, code, arguments) {
        (Ok(id), Ok(language), Ok(code), Ok(arguments)) => {
            match (&language, code) {
                (Some(l), Some(c)) => {
                    return Ok(InteractionContent::CodeExecutionCall { id, language: language_of(l.as_str()), code: c });
                },
                _ => {},
            }
            match arguments {
                Some(args) => match args.get("code") {
                    Some(JsonValue::String(c)) => {
                        let lang = match args.get("language") {
                            Some(lv) => match read_unit_tag(lv) {
                                Some(t) => language_of(t.as_str()),
                                None => CodeExecutionLanguage::Python,
                            },
                            None => CodeExecutionLanguage::Python,
                        };
                        Ok(InteractionContent::CodeExecutionCall { id, language: lang, code: c.clone() })
                    },
                    _ => Ok(InteractionContent::Unknown {
                        content_type: String::from_str("code_execution_call"),
                        data: v.deep_clone(),
                    }),
                },
                None => Ok(InteractionContent::Unknown {
                    content_type: String::from_str("code_execution_call"),
                    data: v.deep_clone(),
                }),
            }
        },
        _ => Err(()),
    }
}

fn decode_code_result(f: &Fields) -> (r: Result<InteractionContent, ()>)
    ensures
        view_res_content(r) == dec_code_result(f.src()),
{
    if !check_arity(f, 5) {
        return Err(());
    }
    let call_id = read_string(f, "call_id", 0);
    let outcome = read_default_opt_tag(f, "outcome", 1);
    let output = read_default_opt_string(f, "output", 2);
    let is_error = read_default_opt_bool(f, "is_error", 3);
    let result = read_default_opt_string(f, "result", 4);
    match (call_id, outcome, output, is_error, result) {
        (Ok(call_id), Ok(outcome), Ok(output), Ok(is_error), Ok(result)) => {
            let outcome = match outcome {
                Some(t) => outcome_of(t.as_str()),
                None => match is_error {
                    Some(true) => CodeExecutionOutcome::Failed,
                    Some(false) => CodeExecutionOutcome::Success,
                    None => CodeExecutionOutcome::Unspecified,
                },
            };
            let output = match output {
                Some(o) => o,
                None => match result {
                    Some(r) => r,
                    None => String::new(),
                },
            };
            Ok(InteractionContent::CodeExecutionResult { call_id, outcome, output })
        },
        _ => Err(()),
    }
}

fn decode_single_string(f: &Fields, name: &str) -> (r: Result<String, ()>)
    ensures
        crate::fields::view_res_str(r) == dec_single_string(f.src(), name@),
{
    if !check_arity(f, 1) {
        return Err(());
    }
    read_string(f, name, 0)
}

fn decode_single_value(f: &Fields, name: &str) -> (r: Result<JsonValue, ()>)
    ensures
        crate::fields::view_res_json(r) == dec_single_value(f.src(), name@),
{
    if !check_arity(f, 1) {
        return Err(());
    }
    read_value(f, name, 0)
}

fn decode_url_result(f: &Fields) -> (r: Result<InteractionContent, ()>)
    ensures
        view_res_content(r) == dec_url_result(f.src()),
{
    if !check_arity(f, 2) {
        return Err(());
    }
    let url = read_string(f, "url", 0);
    let content = read_opt_string(f, "content", 1);
    match (url, content) {
        (Ok(url), Ok(content)) => Ok(InteractionContent::UrlContextResult { url, content }),
        _ => Err(()),
    }
}

fn decode_known(v: &JsonValue) -> (r: Result<InteractionContent, ()>)
    ensures
        view_res_content(r) == known_content(v@),
{
    let (t, f) = match content_tag_and_fields(v) {
        Some(x) => x,
        None => return Err(()),
    };
    if crate::json::str_eq(t, "text") {
        decode_text(&f)
    } else if crate::json::str_eq(t, "thought") {
        decode_thought(&f)
    } else if crate::json::str_eq(t, "thought_signature") {
        decode_thought_signature(&f)
    } else if crate::json::str_eq(t, "image") || crate::json::str_eq(t, "audio")
        || crate::json::str_eq(t, "video") || crate::json::str_eq(t, "document") {
        decode_media(t, &f)
    } else if crate::json::str_eq(t, "function_call") {
        decode_function_call(&f)
    } else if crate::json::str_eq(t, "function_result") {
        decode_function_result(&f)
    } else if crate::json::str_eq(t, "code_execution_call") {
        decode_code_call(v, &f)
    } else if crate::json::str_eq(t, "code_execution_result") {
        decode_code_result(&f)
    } else if crate::json::str_eq(t, "google_search_call") {
        match decode_single_string(&f, "query") {
            Ok(query) => Ok(InteractionContent::GoogleSearchCall { query }),
            Err(_) => Err(()),
        }
    } else if crate::json::str_eq(t, "google_search_result") {
        match decode_single_value(&f, "results") {
            Ok(results) => Ok(InteractionContent::GoogleSearchResult { results }),
            Err(_) => Err(()),
        }
    } else if crate::json::str_eq(t, "url_context_call") {
        match decode_single_string(&f, "url") {
            Ok(url) => Ok(InteractionContent::UrlContextCall { url }),
            Err(_) => Err(()),
        }
    } else if crate::json::str_eq(t, "url_context_result") {
        decode_url_result(&f)
    } else {
        Err(())
    }
}

impl InteractionContent {
    /// Decodes content from JSON.
    ///
    /// A value that decodes as one of the known content types becomes that
    /// variant; anything else (an unknown type name, a missing type, or a
    /// known type with fields of the wrong shape) is kept whole as `Unknown`,
    /// filed under its `type` string or `<missing type>`.
    pub fn from_json(v: &JsonValue) -> (r: InteractionContent)
        ensures
            r@ == content_from_json(v@),
    {
        match decode_known(v) {
            Ok(c) => c,
            Err(_) => {
                let content_type = match v.get("type") {
                    Some(JsonValue::String(s)) => s.clone(),
                    _ => String::from_str("<missing type>"),
                };
                InteractionContent::Unknown { content_type, data: v.deep_clone() }
            },
        }
    }
}

/// Whether content is of a kind that its JSON encoding gives back exactly:
/// any known variant, except text whose annotation list is present but
/// empty (the encoding leaves an empty list out).
pub open spec fn encodes_faithfully(c: ContentModel) -> bool {
    &&& !(c is Unknown)
    &&& !(c matches ContentModel::Text { annotations: Some(a), .. } && a.len() == 0)
}

/// Two texts differ where one of their characters differs.
proof fn lemma_differ_at(a: Seq<char>, b: Seq<char>, i: int)
    requires
        0 <= i < a.len(),
        i < b.len(),
        a[i] != b[i],
    ensures
        a != b,
{
}

/// The lengths of the content type names, and the distinctness of those
/// of equal length.
proof fn lemma_tag_facts()
    ensures
        "text"@.len() == 4,
        "thought"@.len() == 7,
        "thought_signature"@.len() == 17,
        "image"@.len() == 5,
        "audio"@.len() == 5,
        "video"@.len() == 5,
        "document"@.len() == 8,
        "function_call"@.len() == 13,
        "function_result"@.len() == 15,
        "code_execution_call"@.len() == 19,
        "code_execution_result"@.len() == 21,
        "google_search_call"@.len() == 18,
        "google_search_result"@.len() == 20,
        "url_context_call"@.len() == 16,
        "url_context_result"@.len() == 18,
        "image"@ != "audio"@,
        "image"@ != "video"@,
        "audio"@ != "video"@,
        "google_search_call"@ != "url_context_result"@,
{
    reveal_strlit("text");
    reveal_strlit("thought");
    reveal_strlit("thought_signature");
    reveal_strlit("image");
    reveal_strlit("audio");
    reveal_strlit("video");
    reveal_strlit("document");
    reveal_strlit("function_call");
    reveal_strlit("function_result");
    reveal_strlit("code_execution_call");
    reveal_strlit("code_execution_result");
    reveal_strlit("google_search_call");
    reveal_strlit("google_search_result");
    reveal_strlit("url_context_call");
    reveal_strlit("url_context_result");
    assert("text"@.len() == 4);
    assert("thought"@.len() == 7);
    assert("thought_signature"@.len() == 17);
    assert("image"@.len() == 5);
    assert("audio"@.len() == 5);
    assert("video"@.len() == 5);
    assert("document"@.len() == 8);
    assert("function_call"@.len() == 13);
    assert("function_result"@.len() == 15);
    assert("code_execution_call"@.len() == 19);
    assert("code_execution_result"@.len() == 21);
    assert("google_search_call"@.len() == 18);
    assert("google_search_result"@.len() == 20);
    assert("url_context_call"@.len() == 16);
    assert("url_context_result"@.len() == 18);
    lemma_differ_at("image"@, "audio"@, 0);
    lemma_differ_at("image"@, "video"@, 0);
    lemma_differ_at("audio"@, "video"@, 0);
    lemma_differ_at("google_search_call"@, "url_context_result"@, 0);
}

/// The lengths of the field names and wire names, and the distinctness of
/// those of equal length that share a record.
proof fn lemma_key_facts()
    ensures
        "type"@.len() == 4,
        "text"@.len() == 4,
        "annotations"@.len() == 11,
        "signature"@.len() == 9,
        "data"@.len() == 4,
        "uri"@.len() == 3,
        "mime_type"@.len() == 9,
        "id"@.len() == 2,
        "name"@.len() == 4,
        "arguments"@.len() == 9,
        "thoughtSignature"@.len() == 16,
        "call_id"@.len() == 7,
        "result"@.len() == 6,
        "language"@.len() == 8,
        "code"@.len() == 4,
        "outcome"@.len() == 7,
        "output"@.len() == 6,
        "is_error"@.len() == 8,
        "query"@.len() == 5,
        "results"@.len() == 7,
        "url"@.len() == 3,
        "content"@.len() == 7,
        "start_index"@.len() == 11,
        "end_index"@.len() == 9,
        "source"@.len() == 6,
        "PYTHON"@.len() == 6,
        "UNSPECIFIED"@.len() == 11,
        "OUTCOME_OK"@.len() == 10,
        "OUTCOME_FAILED"@.len() == 14,
        "OUTCOME_DEADLINE_EXCEEDED"@.len() == 25,
        "type"@ != "text"@,
        "type"@ != "data"@,
        "type"@ != "name"@,
        "type"@ != "code"@,
        "result"@ != "output"@,
        "call_id"@ != "outcome"@,
        "UNSPECIFIED"@ != "PYTHON"@,
{
    reveal_strlit("type");
    reveal_strlit("text");
    reveal_strlit("annotations");
    reveal_strlit("signature");
    reveal_strlit("data");
    reveal_strlit("uri");
    reveal_strlit("mime_type");
    reveal_strlit("id");
    reveal_strlit("name");
    reveal_strlit("arguments");
    reveal_strlit("thoughtSignature");
    reveal_strlit("call_id");
    reveal_strlit("result");
    reveal_strlit("language");
    reveal_strlit("code");
    reveal_strlit("outcome");
    reveal_strlit("output");
    reveal_strlit("is_error");
    reveal_strlit("query");
    reveal_strlit("results");
    reveal_strlit("url");
    reveal_strlit("content");
    reveal_strlit("start_index");
    reveal_strlit("end_index");
    reveal_strlit("source");
    reveal_strlit("PYTHON");
    reveal_strlit("UNSPECIFIED");
    reveal_strlit("OUTCOME_OK");
    reveal_strlit("OUTCOME_FAILED");
    reveal_strlit("OUTCOME_DEADLINE_EXCEEDED");
    assert("type"@.len() == 4);
    assert("text"@.len() == 4);
    assert("annotations"@.len() == 11);
    assert("signature"@.len() == 9);
    assert("data"@.len() == 4);
    assert("uri"@.len() == 3);
    assert("mime_type"@.len() == 9);
    assert("id"@.len() == 2);
    assert("name"@.len() == 4);
    assert("arguments"@.len() == 9);
    assert("thoughtSignature"@.len() == 16);
    assert("call_id"@.len() == 7);
    assert("result"@.len() == 6);
    assert("language"@.len() == 8);
    assert("code"@.len() == 4);
    assert("outcome"@.len() == 7);
    assert("output"@.len() == 6);
    assert("is_error"@.len() == 8);
    assert("query"@.len() == 5);
    assert("results"@.len() == 7);
    assert("url"@.len() == 3);
    assert("content"@.len() == 7);
    assert("start_index"@.len() == 11);
    assert("end_index"@.len() == 9);
    assert("source"@.len() == 6);
    assert("PYTHON"@.len() == 6);
    assert("UNSPECIFIED"@.len() == 11);
    assert("OUTCOME_OK"@.len() == 10);
    assert("OUTCOME_FAILED"@.len() == 14);
    assert("OUTCOME_DEADLINE_EXCEEDED"@.len() == 25);
    lemma_differ_at("type"@, "text"@, 1);
    lemma_differ_at("type"@, "data"@, 0);
    lemma_differ_at("type"@, "name"@, 0);
    lemma_differ_at("type"@, "code"@, 0);
    lemma_differ_at("result"@, "output"@, 0);
    lemma_differ_at("call_id"@, "outcome"@, 0);
}

proof fn lemma_rt_thought(text: Option<Seq<char>>)
    ensures
        content_from_json(content_json((ContentModel::Thought { text }))) == (ContentModel::Thought { text }),
{
    lemma_tag_facts();
    lemma_key_facts();
    reveal_with_fuel(crate::json::fields_get, 3);
    let c = ContentModel::Thought { text };
    let v = content_json(c);
    let src = Src::Named(v->Object_0);
    assert(content_tag_and_src(v) == Some(("thought"@, src)));
    assert(dec_thought(src) == Ok::<_, ()>(c));
}

proof fn lemma_rt_signature(signature: Seq<char>)
    ensures
        content_from_json(content_json((ContentModel::ThoughtSignature { signature }))) == (ContentModel::ThoughtSignature { signature }),
{
    lemma_tag_facts();
    lemma_key_facts();
    reveal_with_fuel(crate::json::fields_get, 3);
    let c = ContentModel::ThoughtSignature { signature };
    let v = content_json(c);
    let src = Src::Named(v->Object_0);
    assert(content_tag_and_src(v) == Some(("thought_signature"@, src)));
    assert(dec_thought_signature(src) == Ok::<_, ()>(c));
}

proof fn lemma_rt_media(tag: Seq<char>, data: Option<Seq<char>>, uri: Option<Seq<char>>, mime_type: Option<Seq<char>>)
    requires
        is_media_tag(tag),
    ensures
        content_from_json(media_json(tag, data, uri, mime_type)) == media_content(tag, (data, uri, mime_type)),
{
    lemma_tag_facts();
    lemma_key_facts();
    reveal_with_fuel(crate::json::fields_get, 5);
    let v = media_json(tag, data, uri, mime_type);
    let src = Src::Named(v->Object_0);
    assert(content_tag_and_src(v) == Some((tag, src)));
    assert(dec_media(src) == Ok::<_, ()>((data, uri, mime_type)));
}

proof fn lemma_rt_function_call(id: Option<Seq<char>>, name: Seq<char>, args: Json, thought_signature: Option<Seq<char>>)
    ensures
        content_from_json(content_json((ContentModel::FunctionCall { id, name, args, thought_signature })))
            == (ContentModel::FunctionCall { id, name, args, thought_signature }),
{
    lemma_tag_facts();
    lemma_key_facts();
    reveal_with_fuel(crate::json::fields_get, 6);
    let c = ContentModel::FunctionCall { id, name, args, thought_signature };
    let v = content_json(c);
    let src = Src::Named(v->Object_0);
    assert(content_tag_and_src(v) == Some(("function_call"@, src)));
    assert(dec_function_call(src) == Ok::<_, ()>(c));
}

proof fn lemma_rt_function_result(name: Seq<char>, call_id: Seq<char>, result: Json)
    ensures
        content_from_json(content_json((ContentModel::FunctionResult { name, call_id, result })))
            == (ContentModel::FunctionResult { name, call_id, result }),
{
    lemma_tag_facts();
    lemma_key_facts();
    reveal_with_fuel(crate::json::fields_get, 5);
    let c = ContentModel::FunctionResult { name, call_id, result };
    let v = content_json(c);
    let src = Src::Named(v->Object_0);
    assert(content_tag_and_src(v) == Some(("function_result"@, src)));
    assert(dec_function_result(src) == Ok::<_, ()>(c));
}

proof fn lemma_rt_code_call(id: Seq<char>, language: CodeExecutionLanguage, code: Seq<char>)
    ensures
        content_from_json(content_json((ContentModel::CodeExecutionCall { id, language, code })))
            == (ContentModel::CodeExecutionCall { id, language, code }),
{
    lemma_tag_facts();
    lemma_key_facts();
    reveal_with_fuel(crate::json::fields_get, 5);
    let c = ContentModel::CodeExecutionCall { id, language, code };
    let v = content_json(c);
    let src = Src::Named(v->Object_0);
    assert(content_tag_and_src(v) == Some(("code_execution_call"@, src)));
    assert(dec_default_opt_tag(src, "language"@, 1) == Ok::<_, ()>(Some(language_wire_name(language))));
    assert(language_from_wire(language_wire_name(language)) == language);
    assert(dec_code_call(v, src) == Ok::<_, ()>(c));
}

proof fn lemma_rt_code_result(call_id: Seq<char>, outcome: CodeExecutionOutcome, output: Seq<char>)
    ensures
        content_from_json(content_json((ContentModel::CodeExecutionResult { call_id, outcome, output })))
            == (ContentModel::CodeExecutionResult { call_id, outcome, output }),
{
    lemma_tag_facts();
    lemma_key_facts();
    reveal_with_fuel(crate::json::fields_get, 5);
    let c = ContentModel::CodeExecutionResult { call_id, outcome, output };
    let v = content_json(c);
    let src = Src::Named(v->Object_0);
    assert(content_tag_and_src(v) == Some(("code_execution_result"@, src)));
    assert(outcome_from_wire(outcome_wire_name(outcome)) == outcome);
    assert(dec_code_result(src) == Ok::<_, ()>(c));
}

proof fn lemma_rt_search_and_url(c: ContentModel)
    requires
        c is GoogleSearchCall || c is GoogleSearchResult || c is UrlContextCall || c is UrlContextResult,
    ensures
        content_from_json(content_json(c)) == c,
{
    lemma_tag_facts();
    lemma_key_facts();
    reveal_with_fuel(crate::json::fields_get, 4);
    let v = content_json(c);
    let src = Src::Named(v->Object_0);
    match c {
        ContentModel::GoogleSearchCall { query } => {
            assert(content_tag_and_src(v) == Some(("google_search_call"@, src)));
            assert(dec_single_string(src, "query"@) == Ok::<_, ()>(query));
        },
        ContentModel::GoogleSearchResult { results } => {
            assert(content_tag_and_src(v) == Some(("google_search_result"@, src)));
            assert(dec_single_value(src, "results"@) == Ok::<_, ()>(results));
        },
        ContentModel::UrlContextCall { url } => {
            assert(content_tag_and_src(v) == Some(("url_context_call"@, src)));
            assert(dec_single_string(src, "url"@) == Ok::<_, ()>(url));
        },
        ContentModel::UrlContextResult { url, content } => {
            assert(content_tag_and_src(v) == Some(("url_context_result"@, src)));
            assert(dec_url_result(src) == Ok::<_, ()>(c));
        },
        _ => {},
    }
}

/// Decoding the encoding of an annotation gives it back.
pub proof fn lemma_annotation_roundtrip(a: AnnotationModel)
    ensures
        annotation_from_json(annotation_json(a)) == Ok::<_, ()>(a),
{
    lemma_key_facts();
    reveal_with_fuel(crate::json::fields_get, 4);
    let v = annotation_json(a);
    let src = Src::Named(v->Object_0);
    assert(crate::fields::record_src(v) == Some(src));
    assert(dec_default_usize(src, "start_index"@, 0) == Ok::<_, ()>(a.start_index));
    assert(dec_default_usize(src, "end_index"@, 1) == Ok::<_, ()>(a.end_index));
    assert(dec_opt_string(src, "source"@, 2) == Ok::<_, ()>(a.source));
}

proof fn lemma_annotations_roundtrip(a: Seq<AnnotationModel>)
    ensures
        annotations_from_json(Seq::new(a.len(), |i: int| annotation_json(a[i]))) == Ok::<_, ()>(a),
    decreases a.len(),
{
    let items = Seq::new(a.len(), |i: int| annotation_json(a[i]));
    if a.len() > 0 {
        lemma_annotations_roundtrip(a.drop_last());
        assert(items.drop_last() =~= Seq::new(a.drop_last().len(), |i: int| annotation_json(a.drop_last()[i])));
        lemma_annotation_roundtrip(a.last());
        assert(a.drop_last().push(a.last()) =~= a);
    } else {
        assert(a =~= Seq::<AnnotationModel>::empty());
    }
}

proof fn lemma_rt_text(text: Option<Seq<char>>, annotations: Option<Seq<AnnotationModel>>)
    requires
        !(annotations matches Some(a) && a.len() == 0),
    ensures
        content_from_json(content_json((ContentModel::Text { text, annotations }))) == (ContentModel::Text { text, annotations }),
{
    lemma_tag_facts();
    lemma_key_facts();
    reveal_with_fuel(crate::json::fields_get, 4);
    let c = ContentModel::Text { text, annotations };
    let v = content_json(c);
    let src = Src::Named(v->Object_0);
    assert(content_tag_and_src(v) == Some(("text"@, src)));
    match annotations {
        Some(a) => {
            lemma_annotations_roundtrip(a);
        },
        None => {},
    }
    assert(dec_default_opt_annotations(src, "annotations"@, 1) == Ok::<_, ()>(annotations));
    assert(dec_text(src) == Ok::<_, ()>(c));
}

/// Decoding the encoding of content gives the content back, for every
/// content that [`encodes_faithfully`].
pub proof fn lemma_content_roundtrip(c: ContentModel)
    requires
        encodes_faithfully(c),
    ensures
        content_from_json(content_json(c)) == c,
{
    match c {
        ContentModel::Text { text, annotations } => lemma_rt_text(text, annotations),
        ContentModel::Thought { text } => lemma_rt_thought(text),
        ContentModel::ThoughtSignature { signature } => lemma_rt_signature(signature),
        ContentModel::Image { data, uri, mime_type } => {
            reveal_strlit("image");
            lemma_rt_media("image"@, data, uri, mime_type);
        },
        ContentModel::Audio { data, uri, mime_type } => {
            lemma_tag_facts();
            lemma_rt_media("audio"@, data, uri, mime_type);
        },
        ContentModel::Video { data, uri, mime_type } => {
            lemma_tag_facts();
            lemma_rt_media("video"@, data, uri, mime_type);
        },
        ContentModel::Document { data, uri, mime_type } => {
            lemma_tag_facts();
            lemma_rt_media("document"@, data, uri, mime_type);
        },
        ContentModel::FunctionCall { id, name, args, thought_signature } => lemma_rt_function_call(
            id,
            name,
            args,
            thought_signature,
        ),
        ContentModel::FunctionResult { name, call_id, result } => lemma_rt_function_result(name, call_id, result),
        ContentModel::CodeExecutionCall { id, language, code } => lemma_rt_code_call(id, language, code),
        ContentModel::CodeExecutionResult { call_id, outcome, output } => lemma_rt_code_result(call_id, outcome, output),
        ContentModel::Unknown { .. } => {},
        _ => lemma_rt_search_and_url(c),
    }
}

/// The content type names the library decodes.
pub open spec fn is_known_content_type(t: Seq<char>) -> bool {
    t == "text"@ || t == "thought"@ || t == "thought_signature"@ || is_media_tag(t) || t
        == "function_call"@ || t == "function_result"@ || t == "code_execution_call"@ || t
        == "code_execution_result"@ || t == "google_search_call"@ || t == "google_search_result"@
        || t == "url_context_call"@ || t == "url_context_result"@
}

pub(crate) proof fn lemma_without_key_concat(a: Seq<(Seq<char>, Json)>, b: Seq<(Seq<char>, Json)>, k: Seq<char>)
    ensures
        without_key(a + b, k) == without_key(a, k) + without_key(b, k),
    decreases b.len(),
{
    if b.len() == 0 {
        assert(a + b =~= a);
        assert(without_key(a, k) + without_key(b, k) =~= without_key(a, k));
    } else {
        lemma_without_key_concat(a, b.drop_last(), k);
        assert((a + b).drop_last() =~= a + b.drop_last());
        assert((a + b).last() == b.last());
        if b.last().0 == k {
        } else {
            assert(without_key(a, k) + without_key(b.drop_last(), k).push(b.last()) =~= (without_key(a, k)
                + without_key(b.drop_last(), k)).push(b.last()));
        }
    }
}

pub(crate) proof fn lemma_without_key_idempotent(a: Seq<(Seq<char>, Json)>, k: Seq<char>)
    ensures
        without_key(without_key(a, k), k) == without_key(a, k),
    decreases a.len(),
{
    if a.len() > 0 {
        lemma_without_key_idempotent(a.drop_last(), k);
        let r = without_key(a.drop_last(), k);
        if a.last().0 != k {
            assert(r.push(a.last()).drop_last() =~= r);
        }
    }
}

/// Content of an unknown type survives a round trip through JSON: decoding
/// its encoding and encoding again gives the same JSON, whenever its type
/// name is not one the library decodes.
pub proof fn lemma_unknown_content_stable(content_type: Seq<char>, data: Json)
    requires
        !is_known_content_type(content_type),
    ensures
        content_json(content_from_json(content_json((ContentModel::Unknown { content_type, data }))))
            == content_json((ContentModel::Unknown { content_type, data })),
{
    lemma_key_facts();
    reveal_with_fuel(crate::json::fields_get, 2);
    let c = ContentModel::Unknown { content_type, data };
    let v = content_json(c);
    let uf = unknown_fields(data);
    assert(v->Object_0 == type_entry(content_type) + uf);
    assert(content_tag_and_src(v) == Some((content_type, Src::Named(v->Object_0))));
    assert(known_content(v) is Err);
    assert(unknown_type_name(v) == content_type);
    lemma_without_key_concat(type_entry(content_type), uf, "type"@);
    assert(type_entry(content_type).drop_last() =~= Seq::<(Seq<char>, Json)>::empty());
    reveal_with_fuel(without_key, 2);
    assert(without_key(type_entry(content_type), "type"@) =~= Seq::<(Seq<char>, Json)>::empty());
    match data {
        Json::Object(fields) => {
            lemma_without_key_idempotent(fields, "type"@);
        },
        Json::Null => {},
        _ => {
            assert(seq![("data"@, data)].drop_last() =~= Seq::<(Seq<char>, Json)>::empty());
        },
    }
    assert(without_key(uf, "type"@) == uf);
    assert(Seq::<(Seq<char>, Json)>::empty() + uf =~= uf);
}

/// An outcome field that is absent or null.
pub open spec fn no_outcome_field(v: Json) -> bool {
    json_get(v, "outcome"@) is None || json_get(v, "outcome"@) == Some(Json::Null)
}

/// A code execution result read from an object without an `outcome` field
/// takes its outcome from the older `is_error` flag: failed when it is
/// true, success when it is false, and unspecified when there is no flag.
pub proof fn lemma_code_result_outcome(v: Json)
    ensures
        content_from_json(v) matches ContentModel::CodeExecutionResult { outcome, .. } ==> (v is Object
            && no_outcome_field(v) ==> {
            &&& json_get(v, "is_error"@) == Some(Json::Bool(true)) ==> outcome == CodeExecutionOutcome::Failed
            &&& json_get(v, "is_error"@) == Some(Json::Bool(false)) ==> outcome == CodeExecutionOutcome::Success
            &&& (json_get(v, "is_error"@) is None || json_get(v, "is_error"@) == Some(Json::Null)) ==> outcome
                == CodeExecutionOutcome::Unspecified
        }),
{
    lemma_tag_facts();
    lemma_key_facts();
    if content_from_json(v) is CodeExecutionResult && v is Object {
        assert(known_content(v) is Ok);
        let (t, src) = content_tag_and_src(v)->0;
        assert(src == Src::Named(v->Object_0));
        assert(t == "code_execution_result"@);
        assert(known_content(v) == dec_code_result(src));
    }
}

/// A record in the older form, a call id, an `is_error` flag and a `result`
/// text, is read as a code execution result that failed when the flag is
/// true and succeeded when it is false, with that id and that text as its
/// output.
pub proof fn lemma_code_result_from_flag(call_id: Seq<char>, is_error: bool, result: Seq<char>)
    ensures
        content_from_json(Json::Object(seq![
            ("type"@, Json::Str("code_execution_result"@)),
            ("call_id"@, Json::Str(call_id)),
            ("is_error"@, Json::Bool(is_error)),
            ("result"@, Json::Str(result)),
        ])) == (ContentModel::CodeExecutionResult {
            call_id,
            outcome: if is_error {
                CodeExecutionOutcome::Failed
            } else {
                CodeExecutionOutcome::Success
            },
            output: result,
        }),
{
    lemma_tag_facts();
    lemma_key_facts();
    reveal_with_fuel(crate::json::fields_get, 5);
    let v = Json::Object(seq![
        ("type"@, Json::Str("code_execution_result"@)),
        ("call_id"@, Json::Str(call_id)),
        ("is_error"@, Json::Bool(is_error)),
        ("result"@, Json::Str(result)),
    ]);
    let src = Src::Named(v->Object_0);
    assert(content_tag_and_src(v) == Some(("code_execution_result"@, src)));
    assert(dec_code_result(src) == Ok::<_, ()>(ContentModel::CodeExecutionResult {
        call_id,
        outcome: if is_error {
            CodeExecutionOutcome::Failed
        } else {
            CodeExecutionOutcome::Success
        },
        output: result,
    }));
}

} // verus!
