//! Responses of the Interactions API: the status of an interaction, token
//! usage, the response itself and a summary of the content it holds.

use vstd::prelude::*;
use vstd::string::*;
use crate::json::{Json, JsonNumber, JsonValue, Num, entries_view, object_of, push_entry};
use crate::fields::{
    Fields, Src, arity_ok, check_arity, read_unit_tag, record_fields, record_src, src_field,
    strings_view, unit_tag,
};
use crate::text::{decimal, join, join_strings, usize_to_decimal};
use crate::order::{insert_sorted, strictly_sorted};
use crate::models::content::{ContentModel, InteractionContent};
use crate::models::request::contents_view;
use crate::models::shared::{Tool, ToolModel, tool_from_json, tool_json};
use crate::models::request::{contents_from_json, contents_from_array, contents_json, contents_to_json};
use crate::models::metadata::{
    GroundingMetadata, GroundingMetadataModel, UrlContextMetadata, UrlContextMetadataModel,
    grounding_from_json, url_context_from_json, grounding_json, url_context_json,
};
use crate::fields::{dec_opt_string, read_opt_string, view_opt_str};

verus! {

/// Status of an interaction.
#[derive(Clone, Copy, Debug, PartialEq, Eq)]
pub enum InteractionStatus {
    Completed,
    InProgress,
    RequiresAction,
    Failed,
    Cancelled,
}

/// The wire name of a status.
pub open spec fn status_wire_name(s: InteractionStatus) -> Seq<char> {
    match s {
        InteractionStatus::Completed => "completed"@,
        InteractionStatus::InProgress => "in_progress"@,
        InteractionStatus::RequiresAction => "requires_action"@,
        InteractionStatus::Failed => "failed"@,
        InteractionStatus::Cancelled => "cancelled"@,
    }
}

/// Decoding of a status from its variant name; any other name is an error.
pub open spec fn interaction_status_from_json(v: Json) -> Result<InteractionStatus, ()> {
    match unit_tag(v) {
        Some(t) => if t == "completed"@ {
            Ok(InteractionStatus::Completed)
        } else if t == "in_progress"@ {
            Ok(InteractionStatus::InProgress)
        } else if t == "requires_action"@ {
            Ok(InteractionStatus::RequiresAction)
        } else if t == "failed"@ {
            Ok(InteractionStatus::Failed)
        } else if t == "cancelled"@ {
            Ok(InteractionStatus::Cancelled)
        } else {
            Err(())
        },
        None => Err(()),
    }
}

impl InteractionStatus {
    pub fn to_json(&self) -> (r: JsonValue)
        ensures
            r@ == Json::Str(status_wire_name(*self)),
    {
        let name = match self {
            InteractionStatus::Completed => "completed",
            InteractionStatus::InProgress => "in_progress",
            InteractionStatus::RequiresAction => "requires_action",
            InteractionStatus::Failed => "failed",
            InteractionStatus::Cancelled => "cancelled",
        };
        JsonValue::String(String::from_str(name))
    }

    pub fn from_json(v: &JsonValue) -> (r: Result<InteractionStatus, ()>)
        ensures
            r == interaction_status_from_json(v@),
    {
        match read_unit_tag(v) {
            Some(t) => {
                if crate::json::str_eq(t.as_str(), "completed") {
                    Ok(InteractionStatus::Completed)
                } else if crate::json::str_eq(t.as_str(), "in_progress") {
                    Ok(InteractionStatus::InProgress)
                } else if crate::json::str_eq(t.as_str(), "requires_action") {
                    Ok(InteractionStatus::RequiresAction)
                } else if crate::json::str_eq(t.as_str(), "failed") {
                    Ok(InteractionStatus::Failed)
                } else if crate::json::str_eq(t.as_str(), "cancelled") {
                    Ok(InteractionStatus::Cancelled)
                } else {
                    Err(())
                }
            },
            None => Err(()),
        }
    }
}

/// Token usage of an interaction; every count may be absent.
#[derive(Clone, Copy, Debug, PartialEq)]
pub struct UsageMetadata {
    pub total_input_tokens: Option<i32>,
    pub total_output_tokens: Option<i32>,
    pub total_tokens: Option<i32>,
    pub total_cached_tokens: Option<i32>,
    pub total_reasoning_tokens: Option<i32>,
    pub total_tool_use_tokens: Option<i32>,
}

/// Usage with no count at all.
pub open spec fn empty_usage() -> UsageMetadata {
    UsageMetadata {
        total_input_tokens: None,
        total_output_tokens: None,
        total_tokens: None,
        total_cached_tokens: None,
        total_reasoning_tokens: None,
        total_tool_use_tokens: None,
    }
}

impl Default for UsageMetadata {
    fn default() -> (r: Self)
        ensures
            r == empty_usage(),
    {
        UsageMetadata {
            total_input_tokens: None,
            total_output_tokens: None,
            total_tokens: None,
            total_cached_tokens: None,
            total_reasoning_tokens: None,
            total_tool_use_tokens: None,
        }
    }
}

/// The JSON number of an `i32`.
pub open spec fn i32_json(n: i32) -> Json {
    if n >= 0 {
        Json::Number(Num::PosInt(n as u64))
    } else {
        Json::Number(Num::NegInt(n as i64))
    }
}

/// The entry `key: n` when the count is present; nothing when absent.
pub open spec fn opt_count_entry(key: Seq<char>, o: Option<i32>) -> Seq<(Seq<char>, Json)> {
    match o {
        Some(n) => seq![(key, i32_json(n))],
        None => Seq::empty(),
    }
}

/// The JSON object of usage; absent counts are left out.
pub open spec fn usage_json(u: UsageMetadata) -> Json {
    Json::Object(
        opt_count_entry("total_input_tokens"@, u.total_input_tokens)
            + opt_count_entry("total_output_tokens"@, u.total_output_tokens)
            + opt_count_entry("total_tokens"@, u.total_tokens)
            + opt_count_entry("total_cached_tokens"@, u.total_cached_tokens)
            + opt_count_entry("total_reasoning_tokens"@, u.total_reasoning_tokens)
            + opt_count_entry("total_tool_use_tokens"@, u.total_tool_use_tokens),
    )
}

/// An optional count that defaults to `None`: null, or an integer that fits
/// in an `i32`.
pub open spec fn dec_default_opt_i32(src: Src, name: Seq<char>, pos: int) -> Result<Option<i32>, ()> {
    match src_field(src, name, pos) {
        None => Ok(None),
        Some(Json::Null) => Ok(None),
        Some(Json::Number(Num::PosInt(u))) => if u <= i32::MAX {
            Ok(Some(u as i32))
        } else {
            Err(())
        },
        Some(Json::Number(Num::NegInt(n))) => if n >= i32::MIN {
            Ok(Some(n as i32))
        } else {
            Err(())
        },
        Some(_) => Err(()),
    }
}

/// Decoding of usage from an object or an array; absent counts are `None`.
pub open spec fn usage_from_json(j: Json) -> Result<UsageMetadata, ()> {
    match record_src(j) {
        None => Err(()),
        Some(src) => if !arity_ok(src, 6) {
            Err(())
        } else {
            match (
                dec_default_opt_i32(src, "total_input_tokens"@, 0),
                dec_default_opt_i32(src, "total_output_tokens"@, 1),
                dec_default_opt_i32(src, "total_tokens"@, 2),
                dec_default_opt_i32(src, "total_cached_tokens"@, 3),
                dec_default_opt_i32(src, "total_reasoning_tokens"@, 4),
                dec_default_opt_i32(src, "total_tool_use_tokens"@, 5),
            ) {
                (Ok(a), Ok(b), Ok(c), Ok(d), Ok(e), Ok(f)) => Ok(
                    UsageMetadata {
                        total_input_tokens: a,
                        total_output_tokens: b,
                        total_tokens: c,
                        total_cached_tokens: d,
                        total_reasoning_tokens: e,
                        total_tool_use_tokens: f,
                    },
                ),
                _ => Err(()),
            }
        },
    }
}

fn i32_to_json(n: i32) -> (r: JsonValue)
    ensures
        r@ == i32_json(n),
{
    if n >= 0 {
        JsonValue::Number(JsonNumber::PosInt(n as u64))
    } else {
        JsonValue::Number(JsonNumber::NegInt(n as i64))
    }
}

fn push_opt_count(e: &mut Vec<(String, JsonValue)>, key: &str, o: Option<i32>)
    ensures
        entries_view(final(e)@) == entries_view(old(e)@) + opt_count_entry(key@, o),
{
    match o {
        Some(n) => push_entry(e, key, i32_to_json(n)),
        None => {
            proof {
                assert(entries_view(e@) =~= entries_view(e@) + opt_count_entry(key@, o));
            }
        },
    }
}

fn read_default_opt_i32(f: &Fields, name: &str, pos: usize) -> (r: Result<Option<i32>, ()>)
    ensures
        r == dec_default_opt_i32(f.src(), name@, pos as int),
{
    match f.field(name, pos) {
        None => Ok(None),
        Some(JsonValue::Null) => Ok(None),
        Some(JsonValue::Number(JsonNumber::PosInt(u))) => {
            if *u <= 2147483647u64 {
                Ok(Some(*u as i32))
            } else {
                Err(())
            }
        },
        Some(JsonValue::Number(JsonNumber::NegInt(n))) => {
            if *n >= -2147483648i64 {
                Ok(Some(*n as i32))
            } else {
                Err(())
            }
        },
        Some(_) => Err(()),
    }
}

impl UsageMetadata {
    /// Whether any count is present.
    pub fn has_data(&self) -> (b: bool)
        ensures
            b == (self.total_tokens is Some || self.total_input_tokens is Some
                || self.total_output_tokens is Some || self.total_cached_tokens is Some
                || self.total_reasoning_tokens is Some || self.total_tool_use_tokens is Some),
    {
        self.total_tokens.is_some() || self.total_input_tokens.is_some()
            || self.total_output_tokens.is_some() || self.total_cached_tokens.is_some()
            || self.total_reasoning_tokens.is_some() || self.total_tool_use_tokens.is_some()
    }

    pub fn to_json(&self) -> (r: JsonValue)
        ensures
            r@ == usage_json(*self),
    {
        let mut e: Vec<(String, JsonValue)> = Vec::new();
        proof {
            assert(entries_view(e@) =~= Seq::<(Seq<char>, Json)>::empty());
        }
        push_opt_count(&mut e, "total_input_tokens", self.total_input_tokens);
        push_opt_count(&mut e, "total_output_tokens", self.total_output_tokens);
        push_opt_count(&mut e, "total_tokens", self.total_tokens);
        push_opt_count(&mut e, "total_cached_tokens", self.total_cached_tokens);
        push_opt_count(&mut e, "total_reasoning_tokens", self.total_reasoning_tokens);
        push_opt_count(&mut e, "total_tool_use_tokens", self.total_tool_use_tokens);
        proof {
            assert(entries_view(e@) =~= usage_json(*self)->Object_0);
        }
        object_of(e)
    }

    pub fn from_json(v: &JsonValue) -> (r: Result<UsageMetadata, ()>)
        ensures
            r == usage_from_json(v@),
    {
        let f = match record_fields(v) {
            Some(f) => f,
            None => return Err(()),
        };
        if !check_arity(&f, 6) {
            return Err(());
        }
        match (
            read_default_opt_i32(&f, "total_input_tokens", 0),
            read_default_opt_i32(&f, "total_output_tokens", 1),
            read_default_opt_i32(&f, "total_tokens", 2),
            read_default_opt_i32(&f, "total_cached_tokens", 3),
            read_default_opt_i32(&f, "total_reasoning_tokens", 4),
            read_default_opt_i32(&f, "total_tool_use_tokens", 5),
        ) {
            (Ok(a), Ok(b), Ok(c), Ok(d), Ok(e), Ok(g)) => Ok(
                UsageMetadata {
                    total_input_tokens: a,
                    total_output_tokens: b,
                    total_tokens: c,
                    total_cached_tokens: d,
                    total_reasoning_tokens: e,
                    total_tool_use_tokens: g,
                },
            ),
            _ => Err(()),
        }
    }
}

/// How many items of each kind of content a response holds, and the names
/// of the unknown content types met, sorted by their bytes, each once.
#[derive(Clone, Debug, PartialEq)]
pub struct ContentSummary {
    pub text_count: usize,
    pub thought_count: usize,
    pub image_count: usize,
    pub audio_count: usize,
    pub video_count: usize,
    pub document_count: usize,
    pub function_call_count: usize,
    pub function_result_count: usize,
    pub code_execution_call_count: usize,
    pub code_execution_result_count: usize,
    pub google_search_call_count: usize,
    pub google_search_result_count: usize,
    pub url_context_call_count: usize,
    pub url_context_result_count: usize,
    pub unknown_count: usize,
    pub unknown_types: Vec<String>,
}

impl Default for ContentSummary {
    fn default() -> (r: Self)
        ensures
            r.text_count == 0,
            r.thought_count == 0,
            r.image_count == 0,
            r.audio_count == 0,
            r.video_count == 0,
            r.document_count == 0,
            r.function_call_count == 0,
            r.function_result_count == 0,
            r.code_execution_call_count == 0,
            r.code_execution_result_count == 0,
            r.google_search_call_count == 0,
            r.google_search_result_count == 0,
            r.url_context_call_count == 0,
            r.url_context_result_count == 0,
            r.unknown_count == 0,
            r.unknown_types@.len() == 0,
    {
        ContentSummary {
            text_count: 0,
            thought_count: 0,
            image_count: 0,
            audio_count: 0,
            video_count: 0,
            document_count: 0,
            function_call_count: 0,
            function_result_count: 0,
            code_execution_call_count: 0,
            code_execution_result_count: 0,
            google_search_call_count: 0,
            google_search_result_count: 0,
            url_context_call_count: 0,
            url_context_result_count: 0,
            unknown_count: 0,
            unknown_types: Vec::new(),
        }
    }
}

/// `"<n> <label>"` when the count is not zero; nothing otherwise.
pub open spec fn count_part(n: usize, label: Seq<char>) -> Seq<Seq<char>> {
    if n > 0 {
        seq![decimal(n as nat) + " "@ + label]
    } else {
        Seq::empty()
    }
}

/// `"<n> unknown"`, followed by the unknown type names in brackets when
/// there are any, when the count is not zero; nothing otherwise.
pub open spec fn unknown_part(n: usize, types: Seq<Seq<char>>) -> Seq<Seq<char>> {
    if n > 0 {
        seq![
            decimal(n as nat) + " unknown"@ + if types.len() > 0 {
                " ("@ + join(types, ", "@) + ")"@
            } else {
                Seq::empty()
            },
        ]
    } else {
        Seq::empty()
    }
}

/// The parts of a summary's text, in a fixed order of kinds.
pub open spec fn summary_parts(s: ContentSummary) -> Seq<Seq<char>> {
    count_part(s.text_count, "text"@)
        + count_part(s.thought_count, "thought"@)
        + count_part(s.image_count, "image"@)
        + count_part(s.audio_count, "audio"@)
        + count_part(s.video_count, "video"@)
        + count_part(s.document_count, "document"@)
        + count_part(s.function_call_count, "function_call"@)
        + count_part(s.function_result_count, "function_result"@)
        + count_part(s.code_execution_call_count, "code_execution_call"@)
        + count_part(s.code_execution_result_count, "code_execution_result"@)
        + count_part(s.google_search_call_count, "google_search_call"@)
        + count_part(s.google_search_result_count, "google_search_result"@)
        + count_part(s.url_context_call_count, "url_context_call"@)
        + count_part(s.url_context_result_count, "url_context_result"@)
        + unknown_part(s.unknown_count, strings_view(s.unknown_types@))
}

/// The text of a summary: its parts separated by commas, or `empty` when
/// every count is zero.
pub open spec fn summary_text(s: ContentSummary) -> Seq<char> {
    if summary_parts(s).len() == 0 {
        "empty"@
    } else {
        join(summary_parts(s), ", "@)
    }
}

fn push_count_part(parts: &mut Vec<String>, n: usize, label: &str)
    ensures
        strings_view(final(parts)@) == strings_view(old(parts)@) + count_part(n, label@),
{
    let ghost before = strings_view(parts@);
    if n > 0 {
        let mut part = usize_to_decimal(n);
        part.append(" ");
        part.append(label);
        parts.push(part);
        proof {
            assert(strings_view(parts@) =~= before + count_part(n, label@));
        }
    } else {
        proof {
            assert(strings_view(parts@) =~= before + count_part(n, label@));
        }
    }
}

impl ContentSummary {
    /// The text of this summary, such as `2 text, 1 thought` or `empty`.
    pub fn to_string(&self) -> (r: String)
        ensures
            r@ == summary_text(*self),
    {
        let mut parts: Vec<String> = Vec::new();
        proof {
            assert(strings_view(parts@) =~= Seq::<Seq<char>>::empty());
        }
        push_count_part(&mut parts, self.text_count, "text");
        push_count_part(&mut parts, self.thought_count, "thought");
        push_count_part(&mut parts, self.image_count, "image");
        push_count_part(&mut parts, self.audio_count, "audio");
        push_count_part(&mut parts, self.video_count, "video");
        push_count_part(&mut parts, self.document_count, "document");
        push_count_part(&mut parts, self.function_call_count, "function_call");
        push_count_part(&mut parts, self.function_result_count, "function_result");
        push_count_part(&mut parts, self.code_execution_call_count, "code_execution_call");
        push_count_part(&mut parts, self.code_execution_result_count, "code_execution_result");
        push_count_part(&mut parts, self.google_search_call_count, "google_search_call");
        push_count_part(&mut parts, self.google_search_result_count, "google_search_result");
        push_count_part(&mut parts, self.url_context_call_count, "url_context_call");
        push_count_part(&mut parts, self.url_context_result_count, "url_context_result");
        let ghost before = strings_view(parts@);
        if self.unknown_count > 0 {
            let mut part = usize_to_decimal(self.unknown_count);
            part.append(" unknown");
            if self.unknown_types.len() > 0 {
                part.append(" (");
                part.append(join_strings(&self.unknown_types, ", ").as_str());
                part.append(")");
                proof {
                    assert(part@ =~= unknown_part(self.unknown_count, strings_view(self.unknown_types@))[0]);
                }
            } else {
                proof {
                    assert(part@ =~= unknown_part(self.unknown_count, strings_view(self.unknown_types@))[0]);
                }
            }
            parts.push(part);
        }
        proof {
            assert(strings_view(parts@) =~= before + unknown_part(self.unknown_count, strings_view(self.unknown_types@)));
            assert(strings_view(parts@) =~= summary_parts(*self));
        }
        if parts.len() == 0 {
            String::from_str("empty")
        } else {
            join_strings(&parts, ", ")
        }
    }
}

/// A created or retrieved interaction.
#[derive(Debug)]
pub struct InteractionResponse {
    pub id: Option<String>,
    pub model: Option<String>,
    pub agent: Option<String>,
    pub input: Vec<InteractionContent>,
    pub outputs: Vec<InteractionContent>,
    pub status: InteractionStatus,
    pub usage: Option<UsageMetadata>,
    pub tools: Option<Vec<Tool>>,
    pub previous_interaction_id: Option<String>,
    pub grounding_metadata: Option<GroundingMetadata>,
    pub url_context_metadata: Option<UrlContextMetadata>,
}

/// The text of the first output that is text with a value.
pub open spec fn first_text(outs: Seq<ContentModel>) -> Option<Seq<char>>
    decreases outs.len(),
{
    if outs.len() == 0 {
        None
    } else {
        match outs[0] {
            ContentModel::Text { text: Some(t), .. } => Some(t),
            _ => first_text(outs.drop_first()),
        }
    }
}

/// The text an output contributes to the concatenation of all text.
pub open spec fn text_piece(c: ContentModel) -> Seq<char> {
    match c {
        ContentModel::Text { text: Some(t), .. } => t,
        _ => Seq::empty(),
    }
}

/// The texts of all text outputs, concatenated in order.
pub open spec fn all_text_of(outs: Seq<ContentModel>) -> Seq<char>
    decreases outs.len(),
{
    if outs.len() == 0 {
        Seq::empty()
    } else {
        all_text_of(outs.drop_last()) + text_piece(outs.last())
    }
}

pub open spec fn is_text_with_value(c: ContentModel) -> bool {
    c matches ContentModel::Text { text: Some(_), .. }
}

pub open spec fn is_thought_with_value(c: ContentModel) -> bool {
    c matches ContentModel::Thought { text: Some(_) }
}

/// A function call of the outputs: its id, name, arguments and thought signature.
pub struct FunctionCallInfo<'a> {
    pub id: Option<&'a str>,
    pub name: &'a str,
    pub args: &'a JsonValue,
    pub thought_signature: Option<&'a str>,
}

pub open spec fn opt_ref_view(o: Option<&str>) -> Option<Seq<char>> {
    match o {
        Some(s) => Some(s@),
        None => None,
    }
}

pub open spec fn call_info_view(c: FunctionCallInfo) -> (Option<Seq<char>>, Seq<char>, Json, Option<Seq<char>>) {
    (opt_ref_view(c.id), c.name@, c.args@, opt_ref_view(c.thought_signature))
}

/// The function calls among the outputs, in order.
pub open spec fn calls_of(outs: Seq<ContentModel>) -> Seq<(Option<Seq<char>>, Seq<char>, Json, Option<Seq<char>>)>
    decreases outs.len(),
{
    if outs.len() == 0 {
        Seq::empty()
    } else {
        match outs.last() {
            ContentModel::FunctionCall { id, name, args, thought_signature } => calls_of(outs.drop_last()).push(
                (id, name, args, thought_signature),
            ),
            _ => calls_of(outs.drop_last()),
        }
    }
}

/// The texts of the thoughts among the outputs that have one, in order.
pub open spec fn thoughts_of(outs: Seq<ContentModel>) -> Seq<Seq<char>>
    decreases outs.len(),
{
    if outs.len() == 0 {
        Seq::empty()
    } else {
        match outs.last() {
            ContentModel::Thought { text: Some(t) } => thoughts_of(outs.drop_last()).push(t),
            _ => thoughts_of(outs.drop_last()),
        }
    }
}

/// The unknown outputs, by type name and data, in order.
pub open spec fn unknowns_of(outs: Seq<ContentModel>) -> Seq<(Seq<char>, Json)>
    decreases outs.len(),
{
    if outs.len() == 0 {
        Seq::empty()
    } else {
        match outs.last() {
            ContentModel::Unknown { content_type, data } => unknowns_of(outs.drop_last()).push((content_type, data)),
            _ => unknowns_of(outs.drop_last()),
        }
    }
}

/// The kind under which an output is counted in a summary: text, thought
/// (signatures included), image, audio, video, document, function call,
/// function result, code execution call and result, Google Search call and
/// result, URL context call and result, and unknown, numbered in that order.
pub open spec fn kind_index(c: ContentModel) -> int {
    match c {
        ContentModel::Text { .. } => 0,
        ContentModel::Thought { .. } => 1,
        ContentModel::ThoughtSignature { .. } => 1,
        ContentModel::Image { .. } => 2,
        ContentModel::Audio { .. } => 3,
        ContentModel::Video { .. } => 4,
        ContentModel::Document { .. } => 5,
        ContentModel::FunctionCall { .. } => 6,
        ContentModel::FunctionResult { .. } => 7,
        ContentModel::CodeExecutionCall { .. } => 8,
        ContentModel::CodeExecutionResult { .. } => 9,
        ContentModel::GoogleSearchCall { .. } => 10,
        ContentModel::GoogleSearchResult { .. } => 11,
        ContentModel::UrlContextCall { .. } => 12,
        ContentModel::UrlContextResult { .. } => 13,
        ContentModel::Unknown { .. } => 14,
    }
}

/// How many outputs are of kind `k`.
pub open spec fn count_kind(outs: Seq<ContentModel>, k: int) -> nat
    decreases outs.len(),
{
    if outs.len() == 0 {
        0
    } else {
        count_kind(outs.drop_last(), k) + if kind_index(outs.last()) == k {
            1nat
        } else {
            0nat
        }
    }
}

/// Whether some output is unknown content of type `name`.
pub open spec fn has_unknown_named(outs: Seq<ContentModel>, name: Seq<char>) -> bool {
    exists|i: int| 0 <= i < outs.len() && (#[trigger] outs[i] matches ContentModel::Unknown { content_type, .. } && content_type == name)
}

/// A summary that counts the kinds of `outs` and lists their unknown type
/// names sorted and without repetition.
pub open spec fn summarizes(s: ContentSummary, outs: Seq<ContentModel>) -> bool {
    &&& s.text_count == count_kind(outs, 0)
    &&& s.thought_count == count_kind(outs, 1)
    &&& s.image_count == count_kind(outs, 2)
    &&& s.audio_count == count_kind(outs, 3)
    &&& s.video_count == count_kind(outs, 4)
    &&& s.document_count == count_kind(outs, 5)
    &&& s.function_call_count == count_kind(outs, 6)
    &&& s.function_result_count == count_kind(outs, 7)
    &&& s.code_execution_call_count == count_kind(outs, 8)
    &&& s.code_execution_result_count == count_kind(outs, 9)
    &&& s.google_search_call_count == count_kind(outs, 10)
    &&& s.google_search_result_count == count_kind(outs, 11)
    &&& s.url_context_call_count == count_kind(outs, 12)
    &&& s.url_context_result_count == count_kind(outs, 13)
    &&& s.unknown_count == count_kind(outs, 14)
    &&& strictly_sorted(strings_view(s.unknown_types@))
    &&& forall|n: Seq<char>| #[trigger] strings_view(s.unknown_types@).contains(n) <==> has_unknown_named(outs, n)
}

proof fn lemma_count_step(outs: Seq<ContentModel>, i: int, k: int)
    requires
        0 <= i < outs.len(),
    ensures
        count_kind(outs.subrange(0, i + 1), k) == count_kind(outs.subrange(0, i), k) + if kind_index(outs[i]) == k {
            1nat
        } else {
            0nat
        },
{
    assert(outs.subrange(0, i + 1).drop_last() =~= outs.subrange(0, i));
}

proof fn lemma_count_bounded(outs: Seq<ContentModel>, k: int)
    ensures
        count_kind(outs, k) <= outs.len(),
    decreases outs.len(),
{
    if outs.len() > 0 {
        lemma_count_bounded(outs.drop_last(), k);
    }
}

fn kind_of(c: &InteractionContent) -> (k: usize)
    ensures
        k == kind_index(c@),
{
    match c {
        InteractionContent::Text { .. } => 0,
        InteractionContent::Thought { .. } => 1,
        InteractionContent::ThoughtSignature { .. } => 1,
        InteractionContent::Image { .. } => 2,
        InteractionContent::Audio { .. } => 3,
        InteractionContent::Video { .. } => 4,
        InteractionContent::Document { .. } => 5,
        InteractionContent::FunctionCall { .. } => 6,
        InteractionContent::FunctionResult { .. } => 7,
        InteractionContent::CodeExecutionCall { .. } => 8,
        InteractionContent::CodeExecutionResult { .. } => 9,
        InteractionContent::GoogleSearchCall { .. } => 10,
        InteractionContent::GoogleSearchResult { .. } => 11,
        InteractionContent::UrlContextCall { .. } => 12,
        InteractionContent::UrlContextResult { .. } => 13,
        InteractionContent::Unknown { .. } => 14,
    }
}

impl InteractionResponse {
    /// The text of the first text output that has one.
    pub fn text(&self) -> (r: Option<&str>)
        ensures
            opt_ref_view(r) == first_text(contents_view(self.outputs@)),
    {
        let ghost outs = contents_view(self.outputs@);
        let mut i: usize = 0;
        proof {
            assert(outs.subrange(0, outs.len() as int) =~= outs);
        }
        while i < self.outputs.len()
            invariant
                outs == contents_view(self.outputs@),
                i <= outs.len(),
                first_text(outs) == first_text(outs.subrange(i as int, outs.len() as int)),
            decreases outs.len() - i,
        {
            proof {
                assert(outs.subrange(i as int, outs.len() as int).drop_first()
                    =~= outs.subrange(i + 1, outs.len() as int));
            }
            match &self.outputs[i] {
                InteractionContent::Text { text: Some(t), .. } => {
                    return Some(t.as_str());
                },
                _ => {},
            }
            i = i + 1;
        }
        None
    }

    /// All text outputs concatenated in order.
    pub fn all_text(&self) -> (r: String)
        ensures
            r@ == all_text_of(contents_view(self.outputs@)),
    {
        let ghost outs = contents_view(self.outputs@);
        let mut out = String::new();
        let mut i: usize = 0;
        proof {
            assert(outs.subrange(0, 0) =~= Seq::<ContentModel>::empty());
        }
        while i < self.outputs.len()
            invariant
                outs == contents_view(self.outputs@),
                i <= outs.len(),
                out@ == all_text_of(outs.subrange(0, i as int)),
            decreases outs.len() - i,
        {
            proof {
                assert(outs.subrange(0, i + 1).drop_last() =~= outs.subrange(0, i as int));
            }
            match &self.outputs[i] {
                InteractionContent::Text { text: Some(t), .. } => {
                    out.append(t.as_str());
                },
                _ => {
                    proof {
                        assert(out@ =~= out@ + Seq::<char>::empty());
                    }
                },
            }
            i = i + 1;
        }
        proof {
            assert(outs.subrange(0, outs.len() as int) =~= outs);
        }
        out
    }

    /// The function calls among the outputs, in order.
    pub fn function_calls(&self) -> (r: Vec<FunctionCallInfo<'_>>)
        ensures
            Seq::new(r@.len(), |i: int| call_info_view(r@[i])) == calls_of(contents_view(self.outputs@)),
    {
        let ghost outs = contents_view(self.outputs@);
        let mut out: Vec<FunctionCallInfo<'_>> = Vec::new();
        let mut i: usize = 0;
        proof {
            assert(outs.subrange(0, 0) =~= Seq::<ContentModel>::empty());
            assert(Seq::new(out@.len(), |j: int| call_info_view(out@[j])) =~= calls_of(outs.subrange(0, 0)));
        }
        while i < self.outputs.len()
            invariant
                outs == contents_view(self.outputs@),
                i <= outs.len(),
                Seq::new(out@.len(), |j: int| call_info_view(out@[j])) == calls_of(outs.subrange(0, i as int)),
            decreases outs.len() - i,
        {
            proof {
                assert(outs.subrange(0, i + 1).drop_last() =~= outs.subrange(0, i as int));
            }
            let ghost before = out@;
            match &self.outputs[i] {
                InteractionContent::FunctionCall { id, name, args, thought_signature } => {
                    let id_ref: Option<&str> = match id {
                        Some(s) => Some(s.as_str()),
                        None => None,
                    };
                    let sig_ref: Option<&str> = match thought_signature {
                        Some(s) => Some(s.as_str()),
                        None => None,
                    };
                    out.push(FunctionCallInfo { id: id_ref, name: name.as_str(), args, thought_signature: sig_ref });
                    proof {
                        assert(Seq::new(out@.len(), |j: int| call_info_view(out@[j]))
                            =~= Seq::new(before.len(), |j: int| call_info_view(before[j])).push(call_info_view(out@.last())));
                    }
                },
                _ => {},
            }
            i = i + 1;
        }
        proof {
            assert(outs.subrange(0, outs.len() as int) =~= outs);
        }
        out
    }

    /// Whether some output is text with a value.
    pub fn has_text(&self) -> (b: bool)
        ensures
            b == exists|i: int| 0 <= i < self.outputs@.len() && is_text_with_value(#[trigger] self.outputs@[i]@),
    {
        let mut i: usize = 0;
        while i < self.outputs.len()
            invariant
                i <= self.outputs@.len(),
                forall|j: int| 0 <= j < i ==> !is_text_with_value(#[trigger] self.outputs@[j]@),
            decreases self.outputs@.len() - i,
        {
            if let InteractionContent::Text { text: Some(_), .. } = &self.outputs[i] {
                proof {
                    assert(is_text_with_value(self.outputs@[i as int]@));
                }
                return true;
            }
            i = i + 1;
        }
        false
    }

    /// Whether some output is a function call.
    pub fn has_function_calls(&self) -> (b: bool)
        ensures
            b == exists|i: int| 0 <= i < self.outputs@.len() && (#[trigger] self.outputs@[i]@ is FunctionCall),
    {
        let mut i: usize = 0;
        while i < self.outputs.len()
            invariant
                i <= self.outputs@.len(),
                forall|j: int| 0 <= j < i ==> !(#[trigger] self.outputs@[j]@ is FunctionCall),
            decreases self.outputs@.len() - i,
        {
            if let InteractionContent::FunctionCall { .. } = &self.outputs[i] {
                proof {
                    assert(self.outputs@[i as int]@ is FunctionCall);
                }
                return true;
            }
            i = i + 1;
        }
        false
    }

    /// Whether some output is a thought with a value.
    pub fn has_thoughts(&self) -> (b: bool)
        ensures
            b == exists|i: int| 0 <= i < self.outputs@.len() && is_thought_with_value(#[trigger] self.outputs@[i]@),
    {
        let mut i: usize = 0;
        while i < self.outputs.len()
            invariant
                i <= self.outputs@.len(),
                forall|j: int| 0 <= j < i ==> !is_thought_with_value(#[trigger] self.outputs@[j]@),
            decreases self.outputs@.len() - i,
        {
            if let InteractionContent::Thought { text: Some(_) } = &self.outputs[i] {
                proof {
                    assert(is_thought_with_value(self.outputs@[i as int]@));
                }
                return true;
            }
            i = i + 1;
        }
        false
    }

    /// The texts of the thoughts among the outputs that have one, in order.
    pub fn thoughts(&self) -> (r: Vec<&str>)
        ensures
            Seq::new(r@.len(), |i: int| r@[i]@) == thoughts_of(contents_view(self.outputs@)),
    {
        let ghost outs = contents_view(self.outputs@);
        let mut out: Vec<&str> = Vec::new();
        let mut i: usize = 0;
        proof {
            assert(outs.subrange(0, 0) =~= Seq::<ContentModel>::empty());
            assert(Seq::new(out@.len(), |j: int| out@[j]@) =~= thoughts_of(outs.subrange(0, 0)));
        }
        while i < self.outputs.len()
            invariant
                outs == contents_view(self.outputs@),
                i <= outs.len(),
                Seq::new(out@.len(), |j: int| out@[j]@) == thoughts_of(outs.subrange(0, i as int)),
            decreases outs.len() - i,
        {
            proof {
                assert(outs.subrange(0, i + 1).drop_last() =~= outs.subrange(0, i as int));
            }
            let ghost before = out@;
            if let InteractionContent::Thought { text: Some(t) } = &self.outputs[i] {
                out.push(t.as_str());
                proof {
                    assert(Seq::new(out@.len(), |j: int| out@[j]@)
                        =~= Seq::new(before.len(), |j: int| before[j]@).push(out@.last()@));
                }
            }
            i = i + 1;
        }
        proof {
            assert(outs.subrange(0, outs.len() as int) =~= outs);
        }
        out
    }

    /// Whether some output is of a content type this library does not know.
    pub fn has_unknown(&self) -> (b: bool)
        ensures
            b == exists|i: int| 0 <= i < self.outputs@.len() && (#[trigger] self.outputs@[i]@ is Unknown),
    {
        let mut i: usize = 0;
        while i < self.outputs.len()
            invariant
                i <= self.outputs@.len(),
                forall|j: int| 0 <= j < i ==> !(#[trigger] self.outputs@[j]@ is Unknown),
            decreases self.outputs@.len() - i,
        {
            if let InteractionContent::Unknown { .. } = &self.outputs[i] {
                proof {
                    assert(self.outputs@[i as int]@ is Unknown);
                }
                return true;
            }
            i = i + 1;
        }
        false
    }

    /// The unknown outputs, by type name and data, in order.
    pub fn unknown_content(&self) -> (r: Vec<(&str, &JsonValue)>)
        ensures
            Seq::new(r@.len(), |i: int| (r@[i].0@, r@[i].1@)) == unknowns_of(contents_view(self.outputs@)),
    {
        let ghost outs = contents_view(self.outputs@);
        let mut out: Vec<(&str, &JsonValue)> = Vec::new();
        let mut i: usize = 0;
        proof {
            assert(outs.subrange(0, 0) =~= Seq::<ContentModel>::empty());
            assert(Seq::new(out@.len(), |j: int| (out@[j].0@, out@[j].1@)) =~= unknowns_of(outs.subrange(0, 0)));
        }
        while i < self.outputs.len()
            invariant
                outs == contents_view(self.outputs@),
                i <= outs.len(),
                Seq::new(out@.len(), |j: int| (out@[j].0@, out@[j].1@)) == unknowns_of(outs.subrange(0, i as int)),
            decreases outs.len() - i,
        {
            proof {
                assert(outs.subrange(0, i + 1).drop_last() =~= outs.subrange(0, i as int));
            }
            let ghost before = out@;
            match &self.outputs[i] {
                InteractionContent::Unknown { content_type, data } => {
                    out.push((content_type.as_str(), data));
                    proof {
                        assert(Seq::new(out@.len(), |j: int| (out@[j].0@, out@[j].1@))
                            =~= Seq::new(before.len(), |j: int| (before[j].0@, before[j].1@)).push((content_type@, data@)));
                    }
                },
                _ => {},
            }
            i = i + 1;
        }
        proof {
            assert(outs.subrange(0, outs.len() as int) =~= outs);
        }
        out
    }

    /// Counts the outputs of each kind and collects the unknown type names,
    /// sorted by their bytes and each named once.
    pub fn content_summary(&self) -> (r: ContentSummary)
        ensures
            summarizes(r, contents_view(self.outputs@)),
    {
        let ghost outs = contents_view(self.outputs@);
        let mut counts: Vec<usize> = vec![0, 0, 0, 0, 0, 0, 0, 0, 0, 0, 0, 0, 0, 0, 0];
        let mut types: Vec<String> = Vec::new();
        proof {
            assert(outs.subrange(0, 0) =~= Seq::<ContentModel>::empty());
        }
        let mut i: usize = 0;
        while i < self.outputs.len()
            invariant
                outs == contents_view(self.outputs@),
                i <= outs.len(),
                counts@.len() == 15,
                forall|k: int| 0 <= k < 15 ==> #[trigger] counts@[k] == count_kind(outs.subrange(0, i as int), k),
                strictly_sorted(strings_view(types@)),
                forall|n: Seq<char>| #[trigger] strings_view(types@).contains(n)
                    <==> has_unknown_named(outs.subrange(0, i as int), n),
            decreases outs.len() - i,
        {
            let k = kind_of(&self.outputs[i]);
            proof {
                assert forall|m: int| 0 <= m < 15 implies count_kind(outs.subrange(0, i + 1), m)
                    == count_kind(outs.subrange(0, i as int), m) + if kind_index(outs[i as int]) == m {
                        1nat
                    } else {
                        0nat
                    } by {
                    lemma_count_step(outs, i as int, m);
                }
                lemma_count_bounded(outs.subrange(0, i as int), k as int);
            }
            let c = counts[k];
            counts.set(k, c + 1);
            let ghost prefix = outs.subrange(0, i as int);
            let ghost next = outs.subrange(0, i + 1);
            match &self.outputs[i] {
                InteractionContent::Unknown { content_type, .. } => {
                    let ghost name = content_type@;
                    insert_sorted(&mut types, content_type.clone());
                    proof {
                        assert forall|n: Seq<char>| has_unknown_named(next, n) <==> has_unknown_named(prefix, n) || n == name by {
                            if has_unknown_named(next, n) {
                                let j = choose|j: int| 0 <= j < next.len() && (#[trigger] next[j] matches ContentModel::Unknown { content_type, .. } && content_type == n);
                                if j < i {
                                    assert(prefix[j] == next[j]);
                                }
                            }
                            if has_unknown_named(prefix, n) {
                                let j = choose|j: int| 0 <= j < prefix.len() && (#[trigger] prefix[j] matches ContentModel::Unknown { content_type, .. } && content_type == n);
                                assert(next[j] == prefix[j]);
                            }
                            if n == name {
                                assert(next[i as int] == outs[i as int]);
                            }
                        }
                    }
                },
                _ => {
                    proof {
                        assert forall|n: Seq<char>| has_unknown_named(next, n) <==> has_unknown_named(prefix, n) by {
                            if has_unknown_named(next, n) {
                                let j = choose|j: int| 0 <= j < next.len() && (#[trigger] next[j] matches ContentModel::Unknown { content_type, .. } && content_type == n);
                                if j < i {
                                    assert(prefix[j] == next[j]);
                                } else {
                                    assert(next[j] == outs[i as int]);
                                }
                            }
                            if has_unknown_named(prefix, n) {
                                let j = choose|j: int| 0 <= j < prefix.len() && (#[trigger] prefix[j] matches ContentModel::Unknown { content_type, .. } && content_type == n);
                                assert(next[j] == prefix[j]);
                            }
                        }
                    }
                },
            }
            i = i + 1;
        }
        proof {
            assert(outs.subrange(0, outs.len() as int) =~= outs);
        }
        ContentSummary {
            text_count: counts[0],
            thought_count: counts[1],
            image_count: counts[2],
            audio_count: counts[3],
            video_count: counts[4],
            document_count: counts[5],
            function_call_count: counts[6],
            function_result_count: counts[7],
            code_execution_call_count: counts[8],
            code_execution_result_count: counts[9],
            google_search_call_count: counts[10],
            google_search_result_count: counts[11],
            url_context_call_count: counts[12],
            url_context_result_count: counts[13],
            unknown_count: counts[14],
            unknown_types: types,
        }
    }
}

/// How many outputs are of a kind numbered below `m`.
pub open spec fn kinds_below(outs: Seq<ContentModel>, m: int) -> nat
    decreases m,
{
    if m <= 0 {
        0
    } else {
        kinds_below(outs, m - 1) + count_kind(outs, m - 1)
    }
}

proof fn lemma_kinds_below_step(outs: Seq<ContentModel>, m: int)
    requires
        outs.len() > 0,
        m >= 0,
    ensures
        kinds_below(outs, m) == kinds_below(outs.drop_last(), m) + if 0 <= kind_index(outs.last()) < m {
            1nat
        } else {
            0nat
        },
    decreases m,
{
    if m > 0 {
        lemma_kinds_below_step(outs, m - 1);
    }
}

proof fn lemma_kinds_cover(outs: Seq<ContentModel>)
    ensures
        kinds_below(outs, 15) == outs.len(),
    decreases outs.len(),
{
    if outs.len() > 0 {
        lemma_kinds_cover(outs.drop_last());
        lemma_kinds_below_step(outs, 15);
    } else {
        assert(kinds_below(outs, 15) == 0) by {
            reveal_with_fuel(kinds_below, 16);
        }
    }
}

/// Every output is counted under exactly one kind: the counts of a summary
/// add up to the number of outputs.
pub proof fn lemma_summary_counts_every_output(s: ContentSummary, outs: Seq<ContentModel>)
    requires
        summarizes(s, outs),
    ensures
        s.text_count + s.thought_count + s.image_count + s.audio_count + s.video_count + s.document_count
            + s.function_call_count + s.function_result_count + s.code_execution_call_count
            + s.code_execution_result_count + s.google_search_call_count + s.google_search_result_count
            + s.url_context_call_count + s.url_context_result_count + s.unknown_count == outs.len(),
{
    lemma_kinds_cover(outs);
    reveal_with_fuel(kinds_below, 16);
}

/// A summary reads `empty` exactly when every count is zero.
pub proof fn lemma_summary_text_empty(s: ContentSummary)
    ensures
        summary_parts(s).len() == 0 <==> (s.text_count == 0 && s.thought_count == 0 && s.image_count == 0
            && s.audio_count == 0 && s.video_count == 0 && s.document_count == 0 && s.function_call_count == 0
            && s.function_result_count == 0 && s.code_execution_call_count == 0
            && s.code_execution_result_count == 0 && s.google_search_call_count == 0
            && s.google_search_result_count == 0 && s.url_context_call_count == 0
            && s.url_context_result_count == 0 && s.unknown_count == 0),
        summary_parts(s).len() == 0 ==> summary_text(s) == "empty"@,
{
}

/// Two lists that are both strictly sorted and hold the same names are the
/// same list: the unknown type names of a summary are determined by the
/// outputs.
pub proof fn lemma_sorted_names_unique(a: Seq<Seq<char>>, b: Seq<Seq<char>>)
    requires
        strictly_sorted(a),
        strictly_sorted(b),
        forall|n: Seq<char>| a.contains(n) <==> b.contains(n),
    ensures
        a == b,
    decreases a.len() + b.len(),
{
    if a.len() == 0 {
        if b.len() > 0 {
            assert(b.contains(b[0]));
        }
        assert(a =~= b);
    } else if b.len() == 0 {
        assert(a.contains(a[0]));
    } else {
        // the first items are the least, so they are equal
        assert(a.contains(a[0]));
        assert(b.contains(b[0]));
        let ja = choose|j: int| 0 <= j < b.len() && b[j] == a[0];
        let jb = choose|j: int| 0 <= j < a.len() && a[j] == b[0];
        if ja > 0 {
            assert(crate::order::name_less(b[0], b[ja]));
            if jb > 0 {
                assert(crate::order::name_less(a[0], a[jb]));
                crate::order::lemma_name_order(a[0], b[0], a[0]);
            }
        }
        if jb > 0 {
            assert(crate::order::name_less(a[0], a[jb]));
            if ja > 0 {
                crate::order::lemma_name_order(a[0], b[0], a[0]);
            }
        }
        assert(a[0] == b[0]);
        let ra = a.drop_first();
        let rb = b.drop_first();
        assert forall|n: Seq<char>| ra.contains(n) <==> rb.contains(n) by {
            if ra.contains(n) {
                let k = choose|k: int| 0 <= k < ra.len() && ra[k] == n;
                assert(a[k + 1] == n);
                assert(a.contains(n));
                crate::order::lemma_name_order(a[0], n, n);
                let m = choose|m: int| 0 <= m < b.len() && b[m] == n;
                if m == 0 {
                    assert(crate::order::name_less(a[0], a[k + 1]));
                }
                assert(rb[m - 1] == n);
            }
            if rb.contains(n) {
                let k = choose|k: int| 0 <= k < rb.len() && rb[k] == n;
                assert(b[k + 1] == n);
                assert(b.contains(n));
                crate::order::lemma_name_order(b[0], n, n);
                let m = choose|m: int| 0 <= m < a.len() && a[m] == n;
                if m == 0 {
                    assert(crate::order::name_less(b[0], b[k + 1]));
                }
                assert(ra[m - 1] == n);
            }
        }
        lemma_sorted_names_unique(ra, rb);
        assert(a =~= b) by {
            assert forall|i: int| 0 <= i < a.len() implies a[i] == b[i] by {
                if i > 0 {
                    assert(a[i] == ra[i - 1]);
                    assert(b[i] == rb[i - 1]);
                }
            }
        }
    }
}

/// The mathematical form of a response.
pub struct ResponseModel {
    pub id: Option<Seq<char>>,
    pub model: Option<Seq<char>>,
    pub agent: Option<Seq<char>>,
    pub input: Seq<ContentModel>,
    pub outputs: Seq<ContentModel>,
    pub status: InteractionStatus,
    pub usage: Option<UsageMetadata>,
    pub tools: Option<Seq<ToolModel>>,
    pub previous_interaction_id: Option<Seq<char>>,
    pub grounding_metadata: Option<GroundingMetadataModel>,
    pub url_context_metadata: Option<UrlContextMetadataModel>,
}

pub open spec fn tools_view(v: Seq<Tool>) -> Seq<ToolModel> {
    Seq::new(v.len(), |i: int| v[i]@)
}

impl View for InteractionResponse {
    type V = ResponseModel;

    open spec fn view(&self) -> ResponseModel {
        ResponseModel {
            id: view_opt_str(self.id),
            model: view_opt_str(self.model),
            agent: view_opt_str(self.agent),
            input: contents_view(self.input@),
            outputs: contents_view(self.outputs@),
            status: self.status,
            usage: self.usage,
            tools: match self.tools {
                Some(t) => Some(tools_view(t@)),
                None => None,
            },
            previous_interaction_id: view_opt_str(self.previous_interaction_id),
            grounding_metadata: match self.grounding_metadata {
                Some(g) => Some(g@),
                None => None,
            },
            url_context_metadata: match self.url_context_metadata {
                Some(m) => Some(m@),
                None => None,
            },
        }
    }
}

/// A list of contents that defaults to the empty list.
pub open spec fn dec_default_contents(src: Src, name: Seq<char>, pos: int) -> Result<Seq<ContentModel>, ()> {
    match src_field(src, name, pos) {
        None => Ok(Seq::empty()),
        Some(Json::Array(items)) => Ok(contents_from_json(items)),
        Some(_) => Err(()),
    }
}

/// The required status field.
pub open spec fn dec_status(src: Src, name: Seq<char>, pos: int) -> Result<InteractionStatus, ()> {
    match src_field(src, name, pos) {
        None => Err(()),
        Some(v) => interaction_status_from_json(v),
    }
}

/// An optional field without a default: absent by name or null is `None`,
/// absent by position is an error, anything else is decoded by `dec`.
pub open spec fn dec_opt_with<T>(src: Src, name: Seq<char>, pos: int, dec: spec_fn(Json) -> Result<T, ()>) -> Result<Option<T>, ()> {
    match src_field(src, name, pos) {
        None => if src is Named {
            Ok(None)
        } else {
            Err(())
        },
        Some(Json::Null) => Ok(None),
        Some(v) => match dec(v) {
            Ok(x) => Ok(Some(x)),
            Err(_) => Err(()),
        },
    }
}

/// A list of tools; every item decodes.
pub open spec fn tools_from_json(v: Json) -> Result<Seq<ToolModel>, ()> {
    match v {
        Json::Array(items) => Ok(Seq::new(items.len(), |i: int| tool_from_json(items[i]))),
        _ => Err(()),
    }
}

/// Decoding of a response from an object (camelCase keys) or an array.
pub open spec fn response_from_json(j: Json) -> Result<ResponseModel, ()> {
    match record_src(j) {
        None => Err(()),
        Some(src) => if !arity_ok(src, 11) {
            Err(())
        } else {
            match (
                dec_opt_string(src, "id"@, 0),
                dec_opt_string(src, "model"@, 1),
                dec_opt_string(src, "agent"@, 2),
                dec_default_contents(src, "input"@, 3),
                dec_default_contents(src, "outputs"@, 4),
                dec_status(src, "status"@, 5),
            ) {
                (Ok(id), Ok(model), Ok(agent), Ok(input), Ok(outputs), Ok(status)) => match (
                    dec_opt_with(src, "usage"@, 6, |u: Json| usage_from_json(u)),
                    dec_opt_with(src, "tools"@, 7, |t: Json| tools_from_json(t)),
                    dec_opt_string(src, "previousInteractionId"@, 8),
                    dec_opt_with(src, "groundingMetadata"@, 9, |g: Json| grounding_from_json(g)),
                    dec_opt_with(src, "urlContextMetadata"@, 10, |m: Json| url_context_from_json(m)),
                ) {
                    (Ok(usage), Ok(tools), Ok(previous_interaction_id), Ok(grounding_metadata), Ok(url_context_metadata)) => Ok(
                        ResponseModel {
                            id,
                            model,
                            agent,
                            input,
                            outputs,
                            status,
                            usage,
                            tools,
                            previous_interaction_id,
                            grounding_metadata,
                            url_context_metadata,
                        },
                    ),
                    _ => Err(()),
                },
                _ => Err(()),
            }
        },
    }
}

pub open spec fn view_res_response(r: Result<InteractionResponse, ()>) -> Result<ResponseModel, ()> {
    match r {
        Ok(x) => Ok(x@),
        Err(_) => Err(()),
    }
}

fn read_default_contents(f: &Fields, name: &str, pos: usize) -> (r: Result<Vec<InteractionContent>, ()>)
    ensures
        match r {
            Ok(v) => dec_default_contents(f.src(), name@, pos as int) == Ok::<_, ()>(contents_view(v@)),
            Err(_) => dec_default_contents(f.src(), name@, pos as int) is Err,
        },
{
    match f.field(name, pos) {
        None => {
            let v: Vec<InteractionContent> = Vec::new();
            proof {
                assert(contents_view(v@) =~= Seq::<ContentModel>::empty());
            }
            Ok(v)
        },
        Some(JsonValue::Array(items)) => {
            proof {
                crate::json::lemma_array_view(*items);
            }
            Ok(contents_from_array(items))
        },
        Some(_) => Err(()),
    }
}

fn read_status(f: &Fields, name: &str, pos: usize) -> (r: Result<InteractionStatus, ()>)
    ensures
        r == dec_status(f.src(), name@, pos as int),
{
    match f.field(name, pos) {
        None => Err(()),
        Some(v) => InteractionStatus::from_json(v),
    }
}

fn read_opt_usage(f: &Fields, name: &str, pos: usize) -> (r: Result<Option<UsageMetadata>, ()>)
    ensures
        r == dec_opt_with(f.src(), name@, pos as int, |u: Json| usage_from_json(u)),
{
    match f.field(name, pos) {
        None => if f.is_positional() {
            Err(())
        } else {
            Ok(None)
        },
        Some(JsonValue::Null) => Ok(None),
        Some(v) => match UsageMetadata::from_json(v) {
            Ok(u) => Ok(Some(u)),
            Err(_) => Err(()),
        },
    }
}

fn tools_from_array(items: &Vec<JsonValue>) -> (r: Vec<Tool>)
    ensures
        tools_view(r@) == Seq::new(items@.len(), |i: int| tool_from_json(items@[i]@)),
{
    let mut out: Vec<Tool> = Vec::new();
    let mut i: usize = 0;
    while i < items.len()
        invariant
            i <= items@.len(),
            out@.len() == i,
            forall|j: int| 0 <= j < i ==> out@[j]@ == tool_from_json(items@[j]@),
        decreases items@.len() - i,
    {
        out.push(Tool::from_json(&items[i]));
        i = i + 1;
    }
    proof {
        assert(tools_view(out@) =~= Seq::new(items@.len(), |i: int| tool_from_json(items@[i]@)));
    }
    out
}

fn read_opt_tools(f: &Fields, name: &str, pos: usize) -> (r: Result<Option<Vec<Tool>>, ()>)
    ensures
        match r {
            Ok(Some(t)) => dec_opt_with(f.src(), name@, pos as int, |t: Json| tools_from_json(t))
                == Ok::<_, ()>(Some(tools_view(t@))),
            Ok(None) => dec_opt_with(f.src(), name@, pos as int, |t: Json| tools_from_json(t)) == Ok::<
                Option<Seq<ToolModel>>,
                (),
            >(None),
            Err(_) => dec_opt_with(f.src(), name@, pos as int, |t: Json| tools_from_json(t)) is Err,
        },
{
    match f.field(name, pos) {
        None => if f.is_positional() {
            Err(())
        } else {
            Ok(None)
        },
        Some(JsonValue::Null) => Ok(None),
        Some(JsonValue::Array(items)) => {
            proof {
                crate::json::lemma_array_view(*items);
            }
            let t = tools_from_array(items);
            proof {
                assert(Seq::new(items@.len(), |i: int| tool_from_json(items@[i]@)) =~= Seq::new(crate::json::values_view(items@).len(), |i: int| tool_from_json(crate::json::values_view(items@)[i])));
            }
            Ok(Some(t))
        },
        Some(_) => Err(()),
    }
}

fn read_opt_grounding(f: &Fields, name: &str, pos: usize) -> (r: Result<Option<GroundingMetadata>, ()>)
    ensures
        match r {
            Ok(Some(g)) => dec_opt_with(f.src(), name@, pos as int, |g: Json| grounding_from_json(g))
                == Ok::<_, ()>(Some(g@)),
            Ok(None) => dec_opt_with(f.src(), name@, pos as int, |g: Json| grounding_from_json(g)) == Ok::<
                Option<GroundingMetadataModel>,
                (),
            >(None),
            Err(_) => dec_opt_with(f.src(), name@, pos as int, |g: Json| grounding_from_json(g)) is Err,
        },
{
    match f.field(name, pos) {
        None => if f.is_positional() {
            Err(())
        } else {
            Ok(None)
        },
        Some(JsonValue::Null) => Ok(None),
        Some(v) => match GroundingMetadata::from_json(v) {
            Ok(g) => Ok(Some(g)),
            Err(_) => Err(()),
        },
    }
}

fn read_opt_url_context(f: &Fields, name: &str, pos: usize) -> (r: Result<Option<UrlContextMetadata>, ()>)
    ensures
        match r {
            Ok(Some(m)) => dec_opt_with(f.src(), name@, pos as int, |m: Json| url_context_from_json(m))
                == Ok::<_, ()>(Some(m@)),
            Ok(None) => dec_opt_with(f.src(), name@, pos as int, |m: Json| url_context_from_json(m)) == Ok::<
                Option<UrlContextMetadataModel>,
                (),
            >(None),
            Err(_) => dec_opt_with(f.src(), name@, pos as int, |m: Json| url_context_from_json(m)) is Err,
        },
{
    match f.field(name, pos) {
        None => if f.is_positional() {
            Err(())
        } else {
            Ok(None)
        },
        Some(JsonValue::Null) => Ok(None),
        Some(v) => match UrlContextMetadata::from_json(v) {
            Ok(m) => Ok(Some(m)),
            Err(_) => Err(()),
        },
    }
}

impl InteractionResponse {
    /// Decodes a response from an object or an array.
    pub fn from_json(v: &JsonValue) -> (r: Result<InteractionResponse, ()>)
        ensures
            view_res_response(r) == response_from_json(v@),
    {
        let f = match record_fields(v) {
            Some(f) => f,
            None => return Err(()),
        };
        if !check_arity(&f, 11) {
            return Err(());
        }
        let id = read_opt_string(&f, "id", 0);
        let model = read_opt_string(&f, "model", 1);
        let agent = read_opt_string(&f, "agent", 2);
        let input = read_default_contents(&f, "input", 3);
        let outputs = read_default_contents(&f, "outputs", 4);
        let status = read_status(&f, "status", 5);
        let (id, model, agent, input, outputs, status) = match (id, model, agent, input, outputs, status) {
            (Ok(a), Ok(b), Ok(c), Ok(d), Ok(e), Ok(g)) => (a, b, c, d, e, g),
            _ => return Err(()),
        };
        let usage = read_opt_usage(&f, "usage", 6);
        let tools = read_opt_tools(&f, "tools", 7);
        let previous = read_opt_string(&f, "previousInteractionId", 8);
        let grounding = read_opt_grounding(&f, "groundingMetadata", 9);
        let url_context = read_opt_url_context(&f, "urlContextMetadata", 10);
        match (usage, tools, previous, grounding, url_context) {
            (Ok(usage), Ok(tools), Ok(previous_interaction_id), Ok(grounding_metadata), Ok(url_context_metadata)) => Ok(
                InteractionResponse {
                    id,
                    model,
                    agent,
                    input,
                    outputs,
                    status,
                    usage,
                    tools,
                    previous_interaction_id,
                    grounding_metadata,
                    url_context_metadata,
                },
            ),
            _ => Err(()),
        }
    }
}

/// The entry `key: v` when the value is present; nothing when absent.
pub open spec fn opt_json_entry(key: Seq<char>, o: Option<Json>) -> Seq<(Seq<char>, Json)> {
    match o {
        Some(v) => seq![(key, v)],
        None => Seq::empty(),
    }
}

pub open spec fn opt_str_json(o: Option<Seq<char>>) -> Option<Json> {
    match o {
        Some(s) => Some(Json::Str(s)),
        None => None,
    }
}

/// The JSON array of a list of tools.
pub open spec fn tools_json(t: Seq<ToolModel>) -> Json {
    Json::Array(Seq::new(t.len(), |i: int| tool_json(t[i])))
}

/// The JSON object of a response (camelCase keys); absent members are left
/// out, the input and output lists are always written.
pub open spec fn response_json(r: ResponseModel) -> Json {
    Json::Object(
        opt_json_entry("id"@, opt_str_json(r.id))
            + opt_json_entry("model"@, opt_str_json(r.model))
            + opt_json_entry("agent"@, opt_str_json(r.agent))
            + seq![("input"@, contents_json(r.input)), ("outputs"@, contents_json(r.outputs))]
            + seq![("status"@, Json::Str(status_wire_name(r.status)))]
            + opt_json_entry("usage"@, match r.usage {
                Some(u) => Some(usage_json(u)),
                None => None,
            })
            + opt_json_entry("tools"@, match r.tools {
                Some(t) => Some(tools_json(t)),
                None => None,
            })
            + opt_json_entry("previousInteractionId"@, opt_str_json(r.previous_interaction_id))
            + opt_json_entry("groundingMetadata"@, match r.grounding_metadata {
                Some(g) => Some(grounding_json(g)),
                None => None,
            })
            + opt_json_entry("urlContextMetadata"@, match r.url_context_metadata {
                Some(m) => Some(url_context_json(m)),
                None => None,
            }),
    )
}

fn push_opt_json(e: &mut Vec<(String, JsonValue)>, key: &str, o: Option<JsonValue>)
    ensures
        entries_view(final(e)@) == entries_view(old(e)@) + opt_json_entry(key@, match o {
            Some(v) => Some(v@),
            None => None,
        }),
{
    match o {
        Some(v) => push_entry(e, key, v),
        None => {
            proof {
                assert(entries_view(e@) =~= entries_view(e@) + Seq::<(Seq<char>, Json)>::empty());
            }
        },
    }
}

fn opt_string_json(o: &Option<String>) -> (r: Option<JsonValue>)
    ensures
        match r {
            Some(v) => Some(v@),
            None => None,
        } == opt_str_json(view_opt_str(*o)),
{
    match o {
        Some(s) => Some(JsonValue::String(s.clone())),
        None => None,
    }
}

fn tools_to_json(t: &Vec<Tool>) -> (r: JsonValue)
    ensures
        r@ == tools_json(tools_view(t@)),
{
    let mut items: Vec<JsonValue> = Vec::new();
    let mut i: usize = 0;
    while i < t.len()
        invariant
            i <= t@.len(),
            items@.len() == i,
            forall|j: int| 0 <= j < i ==> items@[j]@ == tool_json(t@[j]@),
        decreases t@.len() - i,
    {
        items.push(t[i].to_json());
        i = i + 1;
    }
    let r = crate::json::array_of(items);
    proof {
        assert(crate::json::values_view(items@) =~= tools_json(tools_view(t@))->Array_0);
    }
    r
}

impl InteractionResponse {
    /// The JSON object of this response.
    pub fn to_json(&self) -> (r: JsonValue)
        ensures
            r@ == response_json(self@),
    {
        let mut e: Vec<(String, JsonValue)> = Vec::new();
        proof {
            assert(entries_view(e@) =~= Seq::<(Seq<char>, Json)>::empty());
        }
        push_opt_json(&mut e, "id", opt_string_json(&self.id));
        push_opt_json(&mut e, "model", opt_string_json(&self.model));
        push_opt_json(&mut e, "agent", opt_string_json(&self.agent));
        let ghost before = entries_view(e@);
        push_entry(&mut e, "input", contents_to_json(&self.input));
        push_entry(&mut e, "outputs", contents_to_json(&self.outputs));
        proof {
            assert(entries_view(e@) =~= before + seq![
                ("input"@, contents_json(contents_view(self.input@))),
                ("outputs"@, contents_json(contents_view(self.outputs@))),
            ]);
        }
        push_entry(&mut e, "status", self.status.to_json());
        let usage = match &self.usage {
            Some(u) => Some(u.to_json()),
            None => None,
        };
        push_opt_json(&mut e, "usage", usage);
        let tools = match &self.tools {
            Some(t) => Some(tools_to_json(t)),
            None => None,
        };
        push_opt_json(&mut e, "tools", tools);
        push_opt_json(&mut e, "previousInteractionId", opt_string_json(&self.previous_interaction_id));
        let grounding = match &self.grounding_metadata {
            Some(g) => Some(g.to_json()),
            None => None,
        };
        push_opt_json(&mut e, "groundingMetadata", grounding);
        let url_context = match &self.url_context_metadata {
            Some(m) => Some(m.to_json()),
            None => None,
        };
        push_opt_json(&mut e, "urlContextMetadata", url_context);
        proof {
            assert(entries_view(e@) =~= response_json(self@)->Object_0);
        }
        object_of(e)
    }
}

/// The first of two lookups that finds something.
pub open spec fn pick(a: Option<Json>, b: Option<Json>) -> Option<Json> {
    match a {
        Some(v) => Some(v),
        None => b,
    }
}

proof fn lemma_get_concat(a: Seq<(Seq<char>, Json)>, b: Seq<(Seq<char>, Json)>, k: Seq<char>)
    ensures
        crate::json::fields_get(a + b, k) == pick(crate::json::fields_get(a, k), crate::json::fields_get(b, k)),
{
    crate::json::lemma_fields_get_concat(a, b, k);
}

proof fn lemma_get_single(key: Seq<char>, v: Json, k: Seq<char>)
    ensures
        crate::json::fields_get(seq![(key, v)], k) == if key == k {
            Some(v)
        } else {
            None
        },
{
    reveal_with_fuel(crate::json::fields_get, 2);
}

proof fn lemma_get_opt(key: Seq<char>, o: Option<Json>, k: Seq<char>)
    ensures
        crate::json::fields_get(opt_json_entry(key, o), k) == if key == k {
            o
        } else {
            None
        },
{
    match o {
        Some(v) => lemma_get_single(key, v, k),
        None => {},
    }
}

proof fn lemma_get_count(key: Seq<char>, o: Option<i32>, k: Seq<char>)
    ensures
        crate::json::fields_get(opt_count_entry(key, o), k) == if key == k {
            match o {
                Some(n) => Some(i32_json(n)),
                None => None,
            }
        } else {
            None
        },
{
    match o {
        Some(n) => lemma_get_single(key, i32_json(n), k),
        None => {},
    }
}

proof fn lemma_differ_at(a: Seq<char>, b: Seq<char>, i: int)
    requires
        0 <= i < a.len(),
        i < b.len(),
        a[i] != b[i],
    ensures
        a != b,
{
}

proof fn lemma_usage_keys()
    ensures
        "total_input_tokens"@.len() == 18,
        "total_output_tokens"@.len() == 19,
        "total_tokens"@.len() == 12,
        "total_cached_tokens"@.len() == 19,
        "total_reasoning_tokens"@.len() == 22,
        "total_tool_use_tokens"@.len() == 21,
        "total_output_tokens"@ != "total_cached_tokens"@,
{
    reveal_strlit("total_input_tokens");
    reveal_strlit("total_output_tokens");
    reveal_strlit("total_tokens");
    reveal_strlit("total_cached_tokens");
    reveal_strlit("total_reasoning_tokens");
    reveal_strlit("total_tool_use_tokens");
    assert("total_output_tokens"@.len() == 19);
    assert("total_cached_tokens"@.len() == 19);
    assert("total_output_tokens"@[6] == 'o');
    assert("total_cached_tokens"@[6] == 'c');
    lemma_differ_at("total_output_tokens"@, "total_cached_tokens"@, 6);
}

proof fn lemma_i32_roundtrip(src: Src, name: Seq<char>, pos: int, o: Option<i32>)
    requires
        src is Named,
        src_field(src, name, pos) == match o {
            Some(n) => Some(i32_json(n)),
            None => None,
        },
    ensures
        dec_default_opt_i32(src, name, pos) == Ok::<_, ()>(o),
{
}

pub open spec fn count_json(o: Option<i32>) -> Option<Json> {
    match o {
        Some(n) => Some(i32_json(n)),
        None => None,
    }
}

pub open spec fn keyed(key: Seq<char>, k: Seq<char>, o: Option<Json>) -> Option<Json> {
    if key == k {
        o
    } else {
        None
    }
}

proof fn lemma_usage_field(u: UsageMetadata, k: Seq<char>)
    ensures
        crate::json::fields_get(usage_json(u)->Object_0, k) == pick(pick(pick(pick(pick(
            keyed("total_input_tokens"@, k, count_json(u.total_input_tokens)),
            keyed("total_output_tokens"@, k, count_json(u.total_output_tokens)),
        ), keyed("total_tokens"@, k, count_json(u.total_tokens))), keyed("total_cached_tokens"@, k, count_json(u.total_cached_tokens))),
            keyed("total_reasoning_tokens"@, k, count_json(u.total_reasoning_tokens))),
            keyed("total_tool_use_tokens"@, k, count_json(u.total_tool_use_tokens)),
        ),
{
    let e1 = opt_count_entry("total_input_tokens"@, u.total_input_tokens);
    let e2 = opt_count_entry("total_output_tokens"@, u.total_output_tokens);
    let e3 = opt_count_entry("total_tokens"@, u.total_tokens);
    let e4 = opt_count_entry("total_cached_tokens"@, u.total_cached_tokens);
    let e5 = opt_count_entry("total_reasoning_tokens"@, u.total_reasoning_tokens);
    let e6 = opt_count_entry("total_tool_use_tokens"@, u.total_tool_use_tokens);
    lemma_get_concat(e1 + e2 + e3 + e4 + e5, e6, k);
    lemma_get_concat(e1 + e2 + e3 + e4, e5, k);
    lemma_get_concat(e1 + e2 + e3, e4, k);
    lemma_get_concat(e1 + e2, e3, k);
    lemma_get_concat(e1, e2, k);
    lemma_get_count("total_input_tokens"@, u.total_input_tokens, k);
    lemma_get_count("total_output_tokens"@, u.total_output_tokens, k);
    lemma_get_count("total_tokens"@, u.total_tokens, k);
    lemma_get_count("total_cached_tokens"@, u.total_cached_tokens, k);
    lemma_get_count("total_reasoning_tokens"@, u.total_reasoning_tokens, k);
    lemma_get_count("total_tool_use_tokens"@, u.total_tool_use_tokens, k);
}

/// Decoding the encoding of usage gives it back.
pub proof fn lemma_usage_roundtrip(u: UsageMetadata)
    ensures
        usage_from_json(usage_json(u)) == Ok::<_, ()>(u),
{
    lemma_usage_keys();
    let fs = usage_json(u)->Object_0;
    let src = Src::Named(fs);
    lemma_usage_field(u, "total_input_tokens"@);
    lemma_usage_field(u, "total_output_tokens"@);
    lemma_usage_field(u, "total_tokens"@);
    lemma_usage_field(u, "total_cached_tokens"@);
    lemma_usage_field(u, "total_reasoning_tokens"@);
    lemma_usage_field(u, "total_tool_use_tokens"@);
    lemma_i32_roundtrip(src, "total_input_tokens"@, 0, u.total_input_tokens);
    lemma_i32_roundtrip(src, "total_output_tokens"@, 1, u.total_output_tokens);
    lemma_i32_roundtrip(src, "total_tokens"@, 2, u.total_tokens);
    lemma_i32_roundtrip(src, "total_cached_tokens"@, 3, u.total_cached_tokens);
    lemma_i32_roundtrip(src, "total_reasoning_tokens"@, 4, u.total_reasoning_tokens);
    lemma_i32_roundtrip(src, "total_tool_use_tokens"@, 5, u.total_tool_use_tokens);
}

proof fn lemma_response_keys()
    ensures
        "id"@.len() == 2,
        "model"@.len() == 5,
        "agent"@.len() == 5,
        "input"@.len() == 5,
        "outputs"@.len() == 7,
        "status"@.len() == 6,
        "usage"@.len() == 5,
        "tools"@.len() == 5,
        "previousInteractionId"@.len() == 21,
        "groundingMetadata"@.len() == 17,
        "urlContextMetadata"@.len() == 18,
        "model"@[0] == 'm',
        "agent"@[0] == 'a',
        "input"@[0] == 'i',
        "usage"@[0] == 'u',
        "tools"@[0] == 't',
{
    reveal_strlit("id");
    reveal_strlit("model");
    reveal_strlit("agent");
    reveal_strlit("input");
    reveal_strlit("outputs");
    reveal_strlit("status");
    reveal_strlit("usage");
    reveal_strlit("tools");
    reveal_strlit("previousInteractionId");
    reveal_strlit("groundingMetadata");
    reveal_strlit("urlContextMetadata");
    assert("model"@.len() == 5 && "agent"@.len() == 5 && "input"@.len() == 5);
    assert("usage"@.len() == 5 && "tools"@.len() == 5);
}

/// Every status decodes from its wire name.
pub proof fn lemma_status_names()
    ensures
        forall|s: InteractionStatus| interaction_status_from_json(Json::Str(#[trigger] status_wire_name(s))) == Ok::<_, ()>(s),
{
    reveal_strlit("completed");
    reveal_strlit("in_progress");
    reveal_strlit("requires_action");
    reveal_strlit("failed");
    reveal_strlit("cancelled");
    assert("completed"@.len() == 9 && "cancelled"@.len() == 9);
    assert("in_progress"@.len() == 11 && "requires_action"@.len() == 15 && "failed"@.len() == 6);
    assert("completed"@[0] == 'c' && "cancelled"@[1] == 'a' && "completed"@[1] == 'o');
    lemma_differ_at("completed"@, "cancelled"@, 1);
}

/// The JSON value of an optional member.
pub open spec fn opt_usage_json(o: Option<UsageMetadata>) -> Option<Json> {
    match o {
        Some(u) => Some(usage_json(u)),
        None => None,
    }
}

pub open spec fn opt_tools_json(o: Option<Seq<ToolModel>>) -> Option<Json> {
    match o {
        Some(t) => Some(tools_json(t)),
        None => None,
    }
}

pub open spec fn opt_grounding_json(o: Option<GroundingMetadataModel>) -> Option<Json> {
    match o {
        Some(g) => Some(grounding_json(g)),
        None => None,
    }
}

pub open spec fn opt_url_context_json(o: Option<UrlContextMetadataModel>) -> Option<Json> {
    match o {
        Some(m) => Some(url_context_json(m)),
        None => None,
    }
}

/// What looking a key up in a response's encoding gives.
pub open spec fn response_lookup(r: ResponseModel, k: Seq<char>) -> Option<Json> {
    if k == "id"@ {
        opt_str_json(r.id)
    } else if k == "model"@ {
        opt_str_json(r.model)
    } else if k == "agent"@ {
        opt_str_json(r.agent)
    } else if k == "input"@ {
        Some(contents_json(r.input))
    } else if k == "outputs"@ {
        Some(contents_json(r.outputs))
    } else if k == "status"@ {
        Some(Json::Str(status_wire_name(r.status)))
    } else if k == "usage"@ {
        opt_usage_json(r.usage)
    } else if k == "tools"@ {
        opt_tools_json(r.tools)
    } else if k == "previousInteractionId"@ {
        opt_str_json(r.previous_interaction_id)
    } else if k == "groundingMetadata"@ {
        opt_grounding_json(r.grounding_metadata)
    } else if k == "urlContextMetadata"@ {
        opt_url_context_json(r.url_context_metadata)
    } else {
        None
    }
}

proof fn lemma_response_field(r: ResponseModel, k: Seq<char>)
    ensures
        crate::json::fields_get(response_json(r)->Object_0, k) == response_lookup(r, k),
{
    lemma_response_keys();
    let s1 = opt_json_entry("id"@, opt_str_json(r.id));
    let s2 = opt_json_entry("model"@, opt_str_json(r.model));
    let s3 = opt_json_entry("agent"@, opt_str_json(r.agent));
    let s4 = seq![("input"@, contents_json(r.input)), ("outputs"@, contents_json(r.outputs))];
    let s5 = seq![("status"@, Json::Str(status_wire_name(r.status)))];
    let s6 = opt_json_entry("usage"@, opt_usage_json(r.usage));
    let s7 = opt_json_entry("tools"@, opt_tools_json(r.tools));
    let s8 = opt_json_entry("previousInteractionId"@, opt_str_json(r.previous_interaction_id));
    let s9 = opt_json_entry("groundingMetadata"@, opt_grounding_json(r.grounding_metadata));
    let s10 = opt_json_entry("urlContextMetadata"@, opt_url_context_json(r.url_context_metadata));
    assert(response_json(r)->Object_0 == s1 + s2 + s3 + s4 + s5 + s6 + s7 + s8 + s9 + s10);
    lemma_get_concat(s1 + s2 + s3 + s4 + s5 + s6 + s7 + s8 + s9, s10, k);
    lemma_get_concat(s1 + s2 + s3 + s4 + s5 + s6 + s7 + s8, s9, k);
    lemma_get_concat(s1 + s2 + s3 + s4 + s5 + s6 + s7, s8, k);
    lemma_get_concat(s1 + s2 + s3 + s4 + s5 + s6, s7, k);
    lemma_get_concat(s1 + s2 + s3 + s4 + s5, s6, k);
    lemma_get_concat(s1 + s2 + s3 + s4, s5, k);
    lemma_get_concat(s1 + s2 + s3, s4, k);
    lemma_get_concat(s1 + s2, s3, k);
    lemma_get_concat(s1, s2, k);
    lemma_get_opt("id"@, opt_str_json(r.id), k);
    lemma_get_opt("model"@, opt_str_json(r.model), k);
    lemma_get_opt("agent"@, opt_str_json(r.agent), k);
    lemma_get_opt("usage"@, opt_usage_json(r.usage), k);
    lemma_get_opt("tools"@, opt_tools_json(r.tools), k);
    lemma_get_opt("previousInteractionId"@, opt_str_json(r.previous_interaction_id), k);
    lemma_get_opt("groundingMetadata"@, opt_grounding_json(r.grounding_metadata), k);
    lemma_get_opt("urlContextMetadata"@, opt_url_context_json(r.url_context_metadata), k);
    lemma_get_single("status"@, Json::Str(status_wire_name(r.status)), k);
    reveal_with_fuel(crate::json::fields_get, 3);
}

/// A response whose every part comes back from its encoding: its contents
/// encode faithfully and its tools are of known types.
pub open spec fn response_encodes_faithfully(r: ResponseModel) -> bool {
    &&& forall|i: int| 0 <= i < r.input.len() ==> crate::models::content::encodes_faithfully(#[trigger] r.input[i])
    &&& forall|i: int| 0 <= i < r.outputs.len() ==> crate::models::content::encodes_faithfully(#[trigger] r.outputs[i])
    &&& r.tools matches Some(t) ==> forall|i: int| 0 <= i < t.len() ==> !(#[trigger] t[i] is Unknown)
}

/// Decoding the encoding of a response gives it back.
pub proof fn lemma_response_roundtrip(r: ResponseModel)
    requires
        response_encodes_faithfully(r),
    ensures
        response_from_json(response_json(r)) == Ok::<_, ()>(r),
{
    lemma_response_keys();
    lemma_status_names();
    let fs = response_json(r)->Object_0;
    let src = Src::Named(fs);
    lemma_response_field(r, "id"@);
    lemma_response_field(r, "model"@);
    lemma_response_field(r, "agent"@);
    lemma_response_field(r, "input"@);
    lemma_response_field(r, "outputs"@);
    lemma_response_field(r, "status"@);
    lemma_response_field(r, "usage"@);
    lemma_response_field(r, "tools"@);
    lemma_response_field(r, "previousInteractionId"@);
    lemma_response_field(r, "groundingMetadata"@);
    lemma_response_field(r, "urlContextMetadata"@);
    crate::models::request::lemma_contents_roundtrip(r.input);
    crate::models::request::lemma_contents_roundtrip(r.outputs);
    assert(dec_default_contents(src, "input"@, 3) == Ok::<_, ()>(r.input));
    assert(dec_default_contents(src, "outputs"@, 4) == Ok::<_, ()>(r.outputs));
    assert(dec_status(src, "status"@, 5) == Ok::<_, ()>(r.status));
    match r.usage {
        Some(u) => {
            lemma_usage_roundtrip(u);
        },
        None => {},
    }
    assert(dec_opt_with(src, "usage"@, 6, |u: Json| usage_from_json(u)) == Ok::<_, ()>(r.usage));
    match r.tools {
        Some(t) => {
            let items = tools_json(t)->Array_0;
            assert forall|i: int| 0 <= i < t.len() implies tool_from_json(items[i]) == t[i] by {
                crate::models::shared::lemma_tool_roundtrip(t[i]);
            }
            assert(Seq::new(items.len(), |i: int| tool_from_json(items[i])) =~= t);
        },
        None => {},
    }
    assert(dec_opt_with(src, "tools"@, 7, |t: Json| tools_from_json(t)) == Ok::<_, ()>(r.tools));
    match r.grounding_metadata {
        Some(g) => {
            crate::models::metadata::lemma_grounding_roundtrip(g);
        },
        None => {},
    }
    assert(dec_opt_with(src, "groundingMetadata"@, 9, |g: Json| grounding_from_json(g)) == Ok::<_, ()>(r.grounding_metadata));
    match r.url_context_metadata {
        Some(m) => {
            crate::models::metadata::lemma_url_context_roundtrip(m);
        },
        None => {},
    }
    assert(dec_opt_with(src, "urlContextMetadata"@, 10, |m: Json| url_context_from_json(m)) == Ok::<_, ()>(r.url_context_metadata));
    assert(dec_opt_string(src, "id"@, 0) == Ok::<_, ()>(r.id));
    assert(dec_opt_string(src, "model"@, 1) == Ok::<_, ()>(r.model));
    assert(dec_opt_string(src, "agent"@, 2) == Ok::<_, ()>(r.agent));
    assert(dec_opt_string(src, "previousInteractionId"@, 8) == Ok::<_, ()>(r.previous_interaction_id));
}

/// Counting the outputs of kind `k` is counting those that `p` picks, when
/// `p` picks exactly the outputs of that kind.
proof fn lemma_count_is_filter(outs: Seq<ContentModel>, k: int, p: spec_fn(ContentModel) -> bool)
    requires
        forall|c: ContentModel| #[trigger] p(c) <==> kind_index(c) == k,
    ensures
        count_kind(outs, k) == outs.filter(p).len(),
    decreases outs.len(),
{
    reveal_with_fuel(Seq::<ContentModel>::filter, 1);
    if outs.len() > 0 {
        lemma_count_is_filter(outs.drop_last(), k, p);
        assert(p(outs.last()) <==> kind_index(outs.last()) == k);
    }
}

/// Each count of a summary counts exactly the outputs of its own kind:
/// texts, thoughts (with thought signatures), images, audio, video,
/// documents, function calls and results, code execution calls and
/// results, Google Search calls and results, URL context calls and
/// results, and unknown content.
pub proof fn lemma_summary_counts_by_variant(s: ContentSummary, outs: Seq<ContentModel>)
    requires
        summarizes(s, outs),
    ensures
        s.text_count == outs.filter(|c: ContentModel| c is Text).len(),
        s.thought_count == outs.filter(|c: ContentModel| c is Thought || c is ThoughtSignature).len(),
        s.image_count == outs.filter(|c: ContentModel| c is Image).len(),
        s.audio_count == outs.filter(|c: ContentModel| c is Audio).len(),
        s.video_count == outs.filter(|c: ContentModel| c is Video).len(),
        s.document_count == outs.filter(|c: ContentModel| c is Document).len(),
        s.function_call_count == outs.filter(|c: ContentModel| c is FunctionCall).len(),
        s.function_result_count == outs.filter(|c: ContentModel| c is FunctionResult).len(),
        s.code_execution_call_count == outs.filter(|c: ContentModel| c is CodeExecutionCall).len(),
        s.code_execution_result_count == outs.filter(|c: ContentModel| c is CodeExecutionResult).len(),
        s.google_search_call_count == outs.filter(|c: ContentModel| c is GoogleSearchCall).len(),
        s.google_search_result_count == outs.filter(|c: ContentModel| c is GoogleSearchResult).len(),
        s.url_context_call_count == outs.filter(|c: ContentModel| c is UrlContextCall).len(),
        s.url_context_result_count == outs.filter(|c: ContentModel| c is UrlContextResult).len(),
        s.unknown_count == outs.filter(|c: ContentModel| c is Unknown).len(),
{
    lemma_count_is_filter(outs, 0, |c: ContentModel| c is Text);
    lemma_count_is_filter(outs, 1, |c: ContentModel| c is Thought || c is ThoughtSignature);
    lemma_count_is_filter(outs, 2, |c: ContentModel| c is Image);
    lemma_count_is_filter(outs, 3, |c: ContentModel| c is Audio);
    lemma_count_is_filter(outs, 4, |c: ContentModel| c is Video);
    lemma_count_is_filter(outs, 5, |c: ContentModel| c is Document);
    lemma_count_is_filter(outs, 6, |c: ContentModel| c is FunctionCall);
    lemma_count_is_filter(outs, 7, |c: ContentModel| c is FunctionResult);
    lemma_count_is_filter(outs, 8, |c: ContentModel| c is CodeExecutionCall);
    lemma_count_is_filter(outs, 9, |c: ContentModel| c is CodeExecutionResult);
    lemma_count_is_filter(outs, 10, |c: ContentModel| c is GoogleSearchCall);
    lemma_count_is_filter(outs, 11, |c: ContentModel| c is GoogleSearchResult);
    lemma_count_is_filter(outs, 12, |c: ContentModel| c is UrlContextCall);
    lemma_count_is_filter(outs, 13, |c: ContentModel| c is UrlContextResult);
    lemma_count_is_filter(outs, 14, |c: ContentModel| c is Unknown);
}

} // verus!
