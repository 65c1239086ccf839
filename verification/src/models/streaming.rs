//! Streaming: the events the API sends over server-sent events, and the
//! chunks a stream hands to its consumer.

use vstd::prelude::*;
use vstd::string::*;
use crate::json::{Json, JsonNumber, JsonValue, Num, entries_view, json_get, object_of, push_entry, push_str_entry};
use crate::fields::{
    Fields, Src, arity_ok, check_arity, dec_opt_string, dec_string, read_opt_string, read_string,
    record_fields, record_src, src_field, view_opt_str,
};
use crate::models::content::{ContentModel, InteractionContent, content_from_json};
use crate::models::response::{
    InteractionResponse, InteractionStatus, ResponseModel, dec_opt_with, interaction_status_from_json,
    response_from_json, response_json, status_wire_name,
};
use crate::models::content::content_json;

verus! {

/// The error object of an `error` event.
#[derive(Debug)]
pub struct StreamError {
    pub message: String,
    pub code: Option<String>,
}

pub struct StreamErrorModel {
    pub message: Seq<char>,
    pub code: Option<Seq<char>>,
}

impl View for StreamError {
    type V = StreamErrorModel;

    open spec fn view(&self) -> StreamErrorModel {
        StreamErrorModel { message: self.message@, code: view_opt_str(self.code) }
    }
}

/// One event of an interaction stream.
#[derive(Debug)]
pub struct InteractionStreamEvent {
    /// `interaction.start`, `interaction.status_update`, `content.start`,
    /// `content.delta`, `content.stop`, `interaction.complete` or `error`.
    pub event_type: String,
    pub interaction: Option<InteractionResponse>,
    pub delta: Option<InteractionContent>,
    pub interaction_id: Option<String>,
    pub status: Option<InteractionStatus>,
    pub index: Option<usize>,
    pub content: Option<InteractionContent>,
    pub error: Option<StreamError>,
}

pub struct EventModel {
    pub event_type: Seq<char>,
    pub interaction: Option<ResponseModel>,
    pub delta: Option<ContentModel>,
    pub interaction_id: Option<Seq<char>>,
    pub status: Option<InteractionStatus>,
    pub index: Option<usize>,
    pub content: Option<ContentModel>,
    pub error: Option<StreamErrorModel>,
}

impl View for InteractionStreamEvent {
    type V = EventModel;

    open spec fn view(&self) -> EventModel {
        EventModel {
            event_type: self.event_type@,
            interaction: match self.interaction {
                Some(r) => Some(r@),
                None => None,
            },
            delta: match self.delta {
                Some(c) => Some(c@),
                None => None,
            },
            interaction_id: view_opt_str(self.interaction_id),
            status: self.status,
            index: self.index,
            content: match self.content {
                Some(c) => Some(c@),
                None => None,
            },
            error: match self.error {
                Some(e) => Some(e@),
                None => None,
            },
        }
    }
}

/// A piece of an interaction stream, as handed to the consumer.
#[derive(Debug)]
pub enum StreamChunk {
    /// The interaction has started; its id is known from here on.
    Start { interaction: InteractionResponse },
    /// The interaction's status changed.
    StatusUpdate { interaction_id: String, status: InteractionStatus },
    /// A content block begins, at an index, of a known type when it is
    /// text, thought or a function call.
    ContentStart { index: usize, content_type: Option<String> },
    /// Incremental content.
    Delta(InteractionContent),
    /// A content block ends.
    ContentStop { index: usize },
    /// The complete interaction (the last event).
    Complete(InteractionResponse),
    /// The stream reported an error.
    Error { message: String, code: Option<String> },
    /// A chunk type this library does not know, kept with its data.
    Unknown { chunk_type: String, data: JsonValue },
}

pub enum ChunkModel {
    Start { interaction: ResponseModel },
    StatusUpdate { interaction_id: Seq<char>, status: InteractionStatus },
    ContentStart { index: usize, content_type: Option<Seq<char>> },
    Delta(ContentModel),
    ContentStop { index: usize },
    Complete(ResponseModel),
    Error { message: Seq<char>, code: Option<Seq<char>> },
    Unknown { chunk_type: Seq<char>, data: Json },
}

impl View for StreamChunk {
    type V = ChunkModel;

    open spec fn view(&self) -> ChunkModel {
        match self {
            StreamChunk::Start { interaction } => ChunkModel::Start { interaction: interaction@ },
            StreamChunk::StatusUpdate { interaction_id, status } => ChunkModel::StatusUpdate {
                interaction_id: interaction_id@,
                status: *status,
            },
            StreamChunk::ContentStart { index, content_type } => ChunkModel::ContentStart {
                index: *index,
                content_type: view_opt_str(*content_type),
            },
            StreamChunk::Delta(c) => ChunkModel::Delta(c@),
            StreamChunk::ContentStop { index } => ChunkModel::ContentStop { index: *index },
            StreamChunk::Complete(r) => ChunkModel::Complete(r@),
            StreamChunk::Error { message, code } => ChunkModel::Error { message: message@, code: view_opt_str(*code) },
            StreamChunk::Unknown { chunk_type, data } => ChunkModel::Unknown { chunk_type: chunk_type@, data: data@ },
        }
    }
}

/// The type name given to a content block that starts: only text, thought
/// and function calls are named.
pub open spec fn started_content_type(c: Option<ContentModel>) -> Option<Seq<char>> {
    match c {
        Some(ContentModel::Text { .. }) => Some("text"@),
        Some(ContentModel::Thought { .. }) => Some("thought"@),
        Some(ContentModel::FunctionCall { .. }) => Some("function_call"@),
        _ => None,
    }
}

/// The chunk an event gives, if any.
///
/// Each event type yields its chunk when the fields it needs are present
/// and nothing otherwise; an `error` event without an error object yields
/// a generic error; an event of another type yields its delta, if it has
/// one (an interaction it carries is not taken as the final response).
pub open spec fn chunk_for_event(e: EventModel) -> Option<ChunkModel> {
    let t = e.event_type;
    if t == "interaction.start"@ {
        match e.interaction {
            Some(r) => Some(ChunkModel::Start { interaction: r }),
            None => None,
        }
    } else if t == "interaction.status_update"@ {
        match (e.interaction_id, e.status) {
            (Some(id), Some(s)) => Some(ChunkModel::StatusUpdate { interaction_id: id, status: s }),
            _ => None,
        }
    } else if t == "content.start"@ {
        match e.index {
            Some(i) => Some(ChunkModel::ContentStart { index: i, content_type: started_content_type(e.content) }),
            None => None,
        }
    } else if t == "content.delta"@ {
        match e.delta {
            Some(d) => Some(ChunkModel::Delta(d)),
            None => None,
        }
    } else if t == "content.stop"@ {
        match e.index {
            Some(i) => Some(ChunkModel::ContentStop { index: i }),
            None => None,
        }
    } else if t == "interaction.complete"@ {
        match e.interaction {
            Some(r) => Some(ChunkModel::Complete(r)),
            None => None,
        }
    } else if t == "error"@ {
        match e.error {
            Some(err) => Some(ChunkModel::Error { message: err.message, code: err.code }),
            None => Some(ChunkModel::Error { message: "Unknown streaming error"@, code: None }),
        }
    } else {
        match e.delta {
            Some(d) => Some(ChunkModel::Delta(d)),
            None => None,
        }
    }
}

pub open spec fn view_opt_chunk(o: Option<StreamChunk>) -> Option<ChunkModel> {
    match o {
        Some(c) => Some(c@),
        None => None,
    }
}

/// Turns a stream event into the chunk it gives, if any.
pub fn event_to_chunk(event: InteractionStreamEvent) -> (r: Option<StreamChunk>)
    ensures
        view_opt_chunk(r) == chunk_for_event(event@),
{
    let t = event.event_type.as_str();
    if crate::json::str_eq(t, "interaction.start") {
        match event.interaction {
            Some(interaction) => Some(StreamChunk::Start { interaction }),
            None => None,
        }
    } else if crate::json::str_eq(t, "interaction.status_update") {
        match (event.interaction_id, event.status) {
            (Some(interaction_id), Some(status)) => Some(StreamChunk::StatusUpdate { interaction_id, status }),
            _ => None,
        }
    } else if crate::json::str_eq(t, "content.start") {
        match event.index {
            Some(index) => {
                let content_type = match &event.content {
                    Some(InteractionContent::Text { .. }) => Some(String::from_str("text")),
                    Some(InteractionContent::Thought { .. }) => Some(String::from_str("thought")),
                    Some(InteractionContent::FunctionCall { .. }) => Some(String::from_str("function_call")),
                    _ => None,
                };
                Some(StreamChunk::ContentStart { index, content_type })
            },
            None => None,
        }
    } else if crate::json::str_eq(t, "content.delta") {
        match event.delta {
            Some(d) => Some(StreamChunk::Delta(d)),
            None => None,
        }
    } else if crate::json::str_eq(t, "content.stop") {
        match event.index {
            Some(index) => Some(StreamChunk::ContentStop { index }),
            None => None,
        }
    } else if crate::json::str_eq(t, "interaction.complete") {
        match event.interaction {
            Some(interaction) => Some(StreamChunk::Complete(interaction)),
            None => None,
        }
    } else if crate::json::str_eq(t, "error") {
        match event.error {
            Some(err) => Some(StreamChunk::Error { message: err.message, code: err.code }),
            None => Some(StreamChunk::Error { message: String::from_str("Unknown streaming error"), code: None }),
        }
    } else {
        match event.delta {
            Some(d) => Some(StreamChunk::Delta(d)),
            None => None,
        }
    }
}

impl StreamChunk {
    pub fn is_unknown(&self) -> (b: bool)
        ensures
            b == (self@ is Unknown),
    {
        match self {
            StreamChunk::Unknown { .. } => true,
            _ => false,
        }
    }

    pub fn unknown_chunk_type(&self) -> (r: Option<&str>)
        ensures
            match r {
                Some(s) => self@ matches ChunkModel::Unknown { chunk_type, .. } && s@ == chunk_type,
                None => !(self@ is Unknown),
            },
    {
        match self {
            StreamChunk::Unknown { chunk_type, .. } => Some(chunk_type.as_str()),
            _ => None,
        }
    }

    pub fn unknown_data(&self) -> (r: Option<&JsonValue>)
        ensures
            match r {
                Some(d) => self@ matches ChunkModel::Unknown { data, .. } && d@ == data,
                None => !(self@ is Unknown),
            },
    {
        match self {
            StreamChunk::Unknown { data, .. } => Some(data),
            _ => None,
        }
    }
}

/// Decoding of a stream error: a required message and an optional code.
pub open spec fn stream_error_from_json(j: Json) -> Result<StreamErrorModel, ()> {
    match record_src(j) {
        None => Err(()),
        Some(src) => if !arity_ok(src, 2) {
            Err(())
        } else {
            match (dec_string(src, "message"@, 0), dec_opt_string(src, "code"@, 1)) {
                (Ok(message), Ok(code)) => Ok(StreamErrorModel { message, code }),
                _ => Err(()),
            }
        },
    }
}

/// Decoding of an index: a non-negative integer that fits in a `usize`.
pub open spec fn index_from_json(j: Json) -> Result<usize, ()> {
    match j {
        Json::Number(Num::PosInt(u)) => if u <= usize::MAX {
            Ok(u as usize)
        } else {
            Err(())
        },
        _ => Err(()),
    }
}

/// Decoding of a stream event from an object (snake_case keys) or an array.
pub open spec fn event_from_json(j: Json) -> Result<EventModel, ()> {
    match record_src(j) {
        None => Err(()),
        Some(src) => if !arity_ok(src, 8) {
            Err(())
        } else {
            match (
                dec_string(src, "event_type"@, 0),
                dec_opt_with(src, "interaction"@, 1, |r: Json| response_from_json(r)),
                dec_opt_with(src, "delta"@, 2, |c: Json| Ok::<ContentModel, ()>(content_from_json(c))),
                dec_opt_string(src, "interaction_id"@, 3),
            ) {
                (Ok(event_type), Ok(interaction), Ok(delta), Ok(interaction_id)) => match (
                    dec_opt_with(src, "status"@, 4, |s: Json| interaction_status_from_json(s)),
                    dec_opt_with(src, "index"@, 5, |i: Json| index_from_json(i)),
                    dec_opt_with(src, "content"@, 6, |c: Json| Ok::<ContentModel, ()>(content_from_json(c))),
                    dec_opt_with(src, "error"@, 7, |e: Json| stream_error_from_json(e)),
                ) {
                    (Ok(status), Ok(index), Ok(content), Ok(error)) => Ok(
                        EventModel { event_type, interaction, delta, interaction_id, status, index, content, error },
                    ),
                    _ => Err(()),
                },
                _ => Err(()),
            }
        },
    }
}

pub open spec fn view_res_event(r: Result<InteractionStreamEvent, ()>) -> Result<EventModel, ()> {
    match r {
        Ok(e) => Ok(e@),
        Err(_) => Err(()),
    }
}

impl StreamError {
    pub fn from_json(v: &JsonValue) -> (r: Result<StreamError, ()>)
        ensures
            match r {
                Ok(e) => stream_error_from_json(v@) == Ok::<_, ()>(e@),
                Err(_) => stream_error_from_json(v@) is Err,
            },
    {
        let f = match record_fields(v) {
            Some(f) => f,
            None => return Err(()),
        };
        if !check_arity(&f, 2) {
            return Err(());
        }
        match (read_string(&f, "message", 0), read_opt_string(&f, "code", 1)) {
            (Ok(message), Ok(code)) => Ok(StreamError { message, code }),
            _ => Err(()),
        }
    }
}

/// Reads an optional field without a default, decoded by `dec`: absent by
/// name or null is `None`, absent by position an error.
fn opt_field<'a>(f: &Fields<'a>, name: &str, pos: usize) -> (r: Result<Option<&'a JsonValue>, ()>)
    ensures
        match r {
            Ok(Some(v)) => src_field(f.src(), name@, pos as int) == Some(v@) && !(v@ is Null),
            Ok(None) => (src_field(f.src(), name@, pos as int) is None && f.src() is Named)
                || src_field(f.src(), name@, pos as int) == Some(Json::Null),
            Err(_) => src_field(f.src(), name@, pos as int) is None && f.src() is Positional,
        },
{
    match f.field(name, pos) {
        None => if f.is_positional() {
            Err(())
        } else {
            Ok(None)
        },
        Some(JsonValue::Null) => Ok(None),
        Some(v) => Ok(Some(v)),
    }
}

fn index_of_json(v: &JsonValue) -> (r: Result<usize, ()>)
    ensures
        r == index_from_json(v@),
{
    match v {
        JsonValue::Number(JsonNumber::PosInt(u)) => {
            if *u <= usize::MAX as u64 {
                Ok(*u as usize)
            } else {
                Err(())
            }
        },
        _ => Err(()),
    }
}

impl InteractionStreamEvent {
    /// Decodes an event from an object or an array.
    pub fn from_json(v: &JsonValue) -> (r: Result<InteractionStreamEvent, ()>)
        ensures
            view_res_event(r) == event_from_json(v@),
    {
        let f = match record_fields(v) {
            Some(f) => f,
            None => return Err(()),
        };
        if !check_arity(&f, 8) {
            return Err(());
        }
        let event_type = match read_string(&f, "event_type", 0) {
            Ok(t) => t,
            Err(_) => return Err(()),
        };
        let interaction = match opt_field(&f, "interaction", 1) {
            Ok(Some(x)) => match InteractionResponse::from_json(x) {
                Ok(r) => Some(r),
                Err(_) => return Err(()),
            },
            Ok(None) => None,
            Err(_) => return Err(()),
        };
        let delta = match opt_field(&f, "delta", 2) {
            Ok(Some(x)) => Some(InteractionContent::from_json(x)),
            Ok(None) => None,
            Err(_) => return Err(()),
        };
        let interaction_id = match read_opt_string(&f, "interaction_id", 3) {
            Ok(x) => x,
            Err(_) => return Err(()),
        };
        let status = match opt_field(&f, "status", 4) {
            Ok(Some(x)) => match InteractionStatus::from_json(x) {
                Ok(s) => Some(s),
                Err(_) => return Err(()),
            },
            Ok(None) => None,
            Err(_) => return Err(()),
        };
        let index = match opt_field(&f, "index", 5) {
            Ok(Some(x)) => match index_of_json(x) {
                Ok(i) => Some(i),
                Err(_) => return Err(()),
            },
            Ok(None) => None,
            Err(_) => return Err(()),
        };
        let content = match opt_field(&f, "content", 6) {
            Ok(Some(x)) => Some(InteractionContent::from_json(x)),
            Ok(None) => None,
            Err(_) => return Err(()),
        };
        let error = match opt_field(&f, "error", 7) {
            Ok(Some(x)) => match StreamError::from_json(x) {
                Ok(e) => Some(e),
                Err(_) => return Err(()),
            },
            Ok(None) => None,
            Err(_) => return Err(()),
        };
        Ok(InteractionStreamEvent { event_type, interaction, delta, interaction_id, status, index, content, error })
    }
}

/// The record of a status update: the interaction id and the status.
pub open spec fn status_update_json(id: Seq<char>, status: InteractionStatus) -> Json {
    Json::Object(seq![("interaction_id"@, Json::Str(id)), ("status"@, Json::Str(status_wire_name(status)))])
}

/// The record of a content start: the index, and the content type when known.
pub open spec fn content_start_json(index: usize, content_type: Option<Seq<char>>) -> Json {
    Json::Object(
        seq![("index"@, Json::Number(Num::PosInt(index as u64)))] + match content_type {
            Some(t) => seq![("content_type"@, Json::Str(t))],
            None => Seq::empty(),
        },
    )
}

/// The record of an error: the message, and the code when known.
pub open spec fn error_json(message: Seq<char>, code: Option<Seq<char>>) -> Json {
    Json::Object(
        seq![("message"@, Json::Str(message))] + match code {
            Some(c) => seq![("code"@, Json::Str(c))],
            None => Seq::empty(),
        },
    )
}

/// A chunk tagged with its type, with its data.
pub open spec fn tagged(tag: Seq<char>, data: Json) -> Json {
    Json::Object(seq![("chunk_type"@, Json::Str(tag)), ("data"@, data)])
}

/// The JSON encoding of a chunk: `chunk_type` and `data`; an unknown chunk
/// keeps its type and writes its data unless it is null.
pub open spec fn chunk_json(c: ChunkModel) -> Json {
    match c {
        ChunkModel::Delta(d) => tagged("delta"@, content_json(d)),
        ChunkModel::Complete(r) => tagged("complete"@, response_json(r)),
        ChunkModel::Start { interaction } => tagged("start"@, response_json(interaction)),
        ChunkModel::StatusUpdate { interaction_id, status } => tagged("status_update"@, status_update_json(interaction_id, status)),
        ChunkModel::ContentStart { index, content_type } => tagged("content_start"@, content_start_json(index, content_type)),
        ChunkModel::ContentStop { index } => tagged("content_stop"@, content_start_json(index, None)),
        ChunkModel::Error { message, code } => tagged("error"@, error_json(message, code)),
        ChunkModel::Unknown { chunk_type, data } => Json::Object(
            seq![("chunk_type"@, Json::Str(chunk_type))] + if data is Null {
                Seq::empty()
            } else {
                seq![("data"@, data)]
            },
        ),
    }
}

/// The type of a chunk: its `chunk_type` string, or a placeholder when it
/// is not a string or is missing.
pub open spec fn chunk_tag(v: Json) -> Seq<char> {
    match json_get(v, "chunk_type"@) {
        Some(Json::Str(s)) => s,
        Some(_) => "<non-string chunk_type>"@,
        None => "<missing chunk_type>"@,
    }
}

/// The data of a chunk, null when missing.
pub open spec fn chunk_data(v: Json) -> Json {
    match json_get(v, "data"@) {
        Some(d) => d,
        None => Json::Null,
    }
}

/// Decoding of a chunk. Only `delta` and `complete` chunks are decoded;
/// a chunk of any other type (a non-string or missing `chunk_type` counts
/// as `<non-string chunk_type>` or `<missing chunk_type>`) is kept as an
/// unknown chunk with its data, null when absent.
pub open spec fn chunk_from_json(v: Json) -> Result<ChunkModel, ()> {
    let t = chunk_tag(v);
    let data = chunk_data(v);
    if t == "delta"@ {
        Ok(ChunkModel::Delta(content_from_json(data)))
    } else if t == "complete"@ {
        match response_from_json(data) {
            Ok(r) => Ok(ChunkModel::Complete(r)),
            Err(_) => Err(()),
        }
    } else {
        Ok(ChunkModel::Unknown { chunk_type: t, data })
    }
}

pub open spec fn view_res_chunk(r: Result<StreamChunk, ()>) -> Result<ChunkModel, ()> {
    match r {
        Ok(c) => Ok(c@),
        Err(_) => Err(()),
    }
}

fn tagged_json(tag: &str, data: JsonValue) -> (r: JsonValue)
    ensures
        r@ == tagged(tag@, data@),
{
    let mut e: Vec<(String, JsonValue)> = Vec::new();
    push_str_entry(&mut e, "chunk_type", tag);
    push_entry(&mut e, "data", data);
    proof {
        assert(entries_view(e@) =~= tagged(tag@, data@)->Object_0);
    }
    object_of(e)
}

fn content_start_to_json(index: usize, content_type: &Option<String>) -> (r: JsonValue)
    ensures
        r@ == content_start_json(index, view_opt_str(*content_type)),
{
    let mut e: Vec<(String, JsonValue)> = Vec::new();
    push_entry(&mut e, "index", JsonValue::Number(JsonNumber::PosInt(index as u64)));
    match content_type {
        Some(t) => push_str_entry(&mut e, "content_type", t.as_str()),
        None => {},
    }
    proof {
        assert(entries_view(e@) =~= content_start_json(index, view_opt_str(*content_type))->Object_0);
    }
    object_of(e)
}

fn error_to_json(message: &String, code: &Option<String>) -> (r: JsonValue)
    ensures
        r@ == error_json(message@, view_opt_str(*code)),
{
    let mut e: Vec<(String, JsonValue)> = Vec::new();
    push_str_entry(&mut e, "message", message.as_str());
    match code {
        Some(c) => push_str_entry(&mut e, "code", c.as_str()),
        None => {},
    }
    proof {
        assert(entries_view(e@) =~= error_json(message@, view_opt_str(*code))->Object_0);
    }
    object_of(e)
}

impl StreamChunk {
    /// The JSON encoding of this chunk.
    pub fn to_json(&self) -> (r: JsonValue)
        ensures
            r@ == chunk_json(self@),
    {
        match self {
            StreamChunk::Delta(d) => tagged_json("delta", d.to_json()),
            StreamChunk::Complete(r) => tagged_json("complete", r.to_json()),
            StreamChunk::Start { interaction } => tagged_json("start", interaction.to_json()),
            StreamChunk::StatusUpdate { interaction_id, status } => {
                let mut e: Vec<(String, JsonValue)> = Vec::new();
                push_str_entry(&mut e, "interaction_id", interaction_id.as_str());
                push_entry(&mut e, "status", status.to_json());
                proof {
                    assert(entries_view(e@) =~= status_update_json(interaction_id@, *status)->Object_0);
                }
                tagged_json("status_update", object_of(e))
            },
            StreamChunk::ContentStart { index, content_type } => tagged_json("content_start", content_start_to_json(*index, content_type)),
            StreamChunk::ContentStop { index } => tagged_json("content_stop", content_start_to_json(*index, &None)),
            StreamChunk::Error { message, code } => tagged_json("error", error_to_json(message, code)),
            StreamChunk::Unknown { chunk_type, data } => {
                let mut e: Vec<(String, JsonValue)> = Vec::new();
                push_str_entry(&mut e, "chunk_type", chunk_type.as_str());
                if !data.is_null() {
                    push_entry(&mut e, "data", data.deep_clone());
                }
                proof {
                    assert(entries_view(e@) =~= chunk_json(self@)->Object_0);
                }
                object_of(e)
            },
        }
    }
}

impl StreamChunk {
    /// Decodes a chunk from its JSON encoding.
    pub fn from_json(v: &JsonValue) -> (r: Result<StreamChunk, ()>)
        ensures
            view_res_chunk(r) == chunk_from_json(v@),
    {
        let tag: String = match v.get("chunk_type") {
            Some(JsonValue::String(s)) => s.clone(),
            Some(_) => String::from_str("<non-string chunk_type>"),
            None => String::from_str("<missing chunk_type>"),
        };
        let data: JsonValue = match v.get("data") {
            Some(d) => d.deep_clone(),
            None => JsonValue::Null,
        };
        proof {
            assert(tag@ == chunk_tag(v@));
            assert(data@ == chunk_data(v@));
        }
        let t = tag.as_str();
        if crate::json::str_eq(t, "delta") {
            Ok(StreamChunk::Delta(InteractionContent::from_json(&data)))
        } else if crate::json::str_eq(t, "complete") {
            match InteractionResponse::from_json(&data) {
                Ok(r) => Ok(StreamChunk::Complete(r)),
                Err(_) => Err(()),
            }
        } else {
            Ok(StreamChunk::Unknown { chunk_type: tag, data })
        }
    }
}

proof fn lemma_chunk_literals()
    ensures
        "chunk_type"@.len() == 10,
        "data"@.len() == 4,
        "delta"@.len() == 5,
        "complete"@.len() == 8,
        "start"@.len() == 5,
        "status_update"@.len() == 13,
        "content_start"@.len() == 13,
        "content_stop"@.len() == 12,
        "error"@.len() == 5,
        "delta"@[0] == 'd',
        "start"@[0] == 's',
        "error"@[0] == 'e',
        "status_update"@[0] == 's',
        "content_start"@[0] == 'c',
        "interaction_id"@.len() == 14,
        "status"@.len() == 6,
        "index"@.len() == 5,
        "content_type"@.len() == 12,
        "message"@.len() == 7,
        "code"@.len() == 4,
{
    reveal_strlit("chunk_type");
    reveal_strlit("data");
    reveal_strlit("delta");
    reveal_strlit("complete");
    reveal_strlit("start");
    reveal_strlit("status_update");
    reveal_strlit("content_start");
    reveal_strlit("content_stop");
    reveal_strlit("error");
    reveal_strlit("interaction_id");
    reveal_strlit("status");
    reveal_strlit("index");
    reveal_strlit("content_type");
    reveal_strlit("message");
    reveal_strlit("code");
    assert("delta"@.len() == 5 && "start"@.len() == 5 && "error"@.len() == 5);
    assert("status_update"@.len() == 13 && "content_start"@.len() == 13);
}

/// The chunk types this library knows.
pub open spec fn is_known_chunk_type(t: Seq<char>) -> bool {
    t == "delta"@ || t == "complete"@
}

/// A chunk that comes back from its encoding: deltas and complete
/// responses that encode faithfully, and unknown chunks whose type is not a
/// known one. The stream's other chunks are not decoded back (see
/// [`lemma_stream_chunks_read_as_unknown`]).
pub open spec fn chunk_encodes_faithfully(c: ChunkModel) -> bool {
    match c {
        ChunkModel::Delta(d) => crate::models::content::encodes_faithfully(d),
        ChunkModel::Complete(r) => crate::models::response::response_encodes_faithfully(r),
        ChunkModel::Unknown { chunk_type, .. } => !is_known_chunk_type(chunk_type),
        _ => false,
    }
}

proof fn lemma_tagged_parts(tag: Seq<char>, data: Json)
    ensures
        chunk_tag(tagged(tag, data)) == tag,
        chunk_data(tagged(tag, data)) == data,
{
    lemma_chunk_literals();
    reveal_with_fuel(crate::json::fields_get, 3);
}

proof fn lemma_unknown_parts(t: Seq<char>, data: Json)
    ensures
        chunk_tag(chunk_json(ChunkModel::Unknown { chunk_type: t, data })) == t,
        chunk_data(chunk_json(ChunkModel::Unknown { chunk_type: t, data })) == data,
{
    lemma_chunk_literals();
    reveal_with_fuel(crate::json::fields_get, 3);
}

/// Decoding the encoding of a chunk gives it back.
pub proof fn lemma_chunk_roundtrip(c: ChunkModel)
    requires
        chunk_encodes_faithfully(c),
    ensures
        chunk_from_json(chunk_json(c)) == Ok::<_, ()>(c),
{
    lemma_chunk_literals();
    match c {
        ChunkModel::Delta(d) => {
            lemma_tagged_parts("delta"@, content_json(d));
            crate::models::content::lemma_content_roundtrip(d);
        },
        ChunkModel::Complete(r) => {
            lemma_tagged_parts("complete"@, response_json(r));
            crate::models::response::lemma_response_roundtrip(r);
        },
        ChunkModel::Unknown { chunk_type, data } => {
            lemma_unknown_parts(chunk_type, data);
        },
        _ => {},
    }
}

/// The chunks that the stream produces beyond deltas and complete
/// responses (start, status update, content start and stop, error) are read
/// back as unknown chunks of their type, holding their data.
pub proof fn lemma_stream_chunks_read_as_unknown(c: ChunkModel)
    requires
        !(c is Delta || c is Complete || c is Unknown),
    ensures
        chunk_from_json(chunk_json(c)) == Ok::<_, ()>(
            ChunkModel::Unknown { chunk_type: chunk_tag(chunk_json(c)), data: chunk_data(chunk_json(c)) },
        ),
        !is_known_chunk_type(chunk_tag(chunk_json(c))),
{
    lemma_chunk_literals();
    match c {
        ChunkModel::Start { interaction } => lemma_tagged_parts("start"@, response_json(interaction)),
        ChunkModel::StatusUpdate { interaction_id, status } => lemma_tagged_parts(
            "status_update"@,
            status_update_json(interaction_id, status),
        ),
        ChunkModel::ContentStart { index, content_type } => lemma_tagged_parts(
            "content_start"@,
            content_start_json(index, content_type),
        ),
        ChunkModel::ContentStop { index } => lemma_tagged_parts("content_stop"@, content_start_json(index, None)),
        ChunkModel::Error { message, code } => lemma_tagged_parts("error"@, error_json(message, code)),
        _ => {},
    }
}

proof fn lemma_event_literals()
    ensures
        "interaction.start"@.len() == 17,
        "interaction.status_update"@.len() == 25,
        "content.start"@.len() == 13,
        "content.delta"@.len() == 13,
        "content.stop"@.len() == 12,
        "interaction.complete"@.len() == 20,
        "error"@.len() == 5,
        "content.start"@ != "content.delta"@,
{
    reveal_strlit("interaction.start");
    reveal_strlit("interaction.status_update");
    reveal_strlit("content.start");
    reveal_strlit("content.delta");
    reveal_strlit("content.stop");
    reveal_strlit("interaction.complete");
    reveal_strlit("error");
    assert("content.start"@.len() == 13 && "content.delta"@.len() == 13);
    assert("content.start"@[8] == 's' && "content.delta"@[8] == 'd');
    assert("content.start"@ != "content.delta"@) by {
        assert("content.start"@[8] != "content.delta"@[8]);
    }
}

/// Only an `interaction.complete` event gives the complete response, and it
/// gives the interaction the event carries; an event of any other type,
/// whatever interaction it carries, never ends the stream with a response.
pub proof fn lemma_only_complete_event_completes(e: EventModel)
    ensures
        chunk_for_event(e) matches Some(ChunkModel::Complete(r)) ==> e.event_type == "interaction.complete"@
            && e.interaction == Some(r),
        e.event_type == "interaction.complete"@ && e.interaction is Some ==> chunk_for_event(e) == Some(
            ChunkModel::Complete(e.interaction->0),
        ),
{
    lemma_event_literals();
}

/// An `error` event always gives an error chunk.
pub proof fn lemma_error_event_reported(e: EventModel)
    requires
        e.event_type == "error"@,
    ensures
        chunk_for_event(e) matches Some(ChunkModel::Error { .. }),
{
    lemma_event_literals();
}

/// What each kind of event gives when it carries what it is for: an
/// `interaction.start` event with an interaction gives the start chunk with
/// exactly that interaction (so its id is known early); a status update
/// with an id and a status gives that update; a `content.start` or
/// `content.stop` event with an index gives the start or stop of that
/// block; a `content.delta` event with a delta gives that delta; an
/// `interaction.complete` event with an interaction gives it as the
/// complete response.
pub proof fn lemma_event_chunks(e: EventModel)
    ensures
        e.event_type == "interaction.start"@ && e.interaction is Some ==> chunk_for_event(e) == Some(
            ChunkModel::Start { interaction: e.interaction->0 },
        ),
        e.event_type == "interaction.status_update"@ && e.interaction_id is Some && e.status is Some
            ==> chunk_for_event(e) == Some(
            ChunkModel::StatusUpdate { interaction_id: e.interaction_id->0, status: e.status->0 },
        ),
        e.event_type == "content.start"@ && e.index is Some ==> (chunk_for_event(e) matches Some(
            ChunkModel::ContentStart { index, .. },
        ) && index == e.index->0),
        e.event_type == "content.delta"@ && e.delta is Some ==> chunk_for_event(e) == Some(
            ChunkModel::Delta(e.delta->0),
        ),
        e.event_type == "content.stop"@ && e.index is Some ==> chunk_for_event(e) == Some(
            ChunkModel::ContentStop { index: e.index->0 },
        ),
        e.event_type == "interaction.complete"@ && e.interaction is Some ==> chunk_for_event(e) == Some(
            ChunkModel::Complete(e.interaction->0),
        ),
{
    lemma_event_literals();
}

} // verus!
