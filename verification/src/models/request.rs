//! Request-side types: roles, turns, conversation input and thinking levels.

use vstd::prelude::*;
use vstd::string::*;
use crate::json::{Json, JsonValue, entries_view, json_get, object_of, push_entry, push_str_entry, values_view};
use crate::fields::{Src, arity_ok, check_arity, record_fields, record_src, src_field};
use crate::models::content::{ContentModel, InteractionContent, content_from_json, content_json};

verus! {

/// The author of a turn in a conversation.
#[derive(Debug, PartialEq)]
pub enum Role {
    /// The user.
    User,
    /// The model.
    Model,
    /// A role this library does not know, kept with its JSON value.
    Unknown { role_type: String, data: JsonValue },
}

pub enum RoleModel {
    User,
    Model,
    Unknown { role_type: Seq<char>, data: Json },
}

impl View for Role {
    type V = RoleModel;

    open spec fn view(&self) -> RoleModel {
        match self {
            Role::User => RoleModel::User,
            Role::Model => RoleModel::Model,
            Role::Unknown { role_type, data } => RoleModel::Unknown { role_type: role_type@, data: data@ },
        }
    }
}

/// The wire text (and display text) of a role.
pub open spec fn role_name(r: RoleModel) -> Seq<char> {
    match r {
        RoleModel::User => "user"@,
        RoleModel::Model => "model"@,
        RoleModel::Unknown { role_type, .. } => role_type,
    }
}

/// Decoding of a role: a string is required.
pub open spec fn role_from_json(v: Json) -> Result<RoleModel, ()> {
    match v {
        Json::Str(s) => Ok(
            if s == "user"@ {
                RoleModel::User
            } else if s == "model"@ {
                RoleModel::Model
            } else {
                RoleModel::Unknown { role_type: s, data: Json::Str(s) }
            },
        ),
        _ => Err(()),
    }
}

impl Role {
    pub fn is_unknown(&self) -> (b: bool)
        ensures
            b == (self@ is Unknown),
    {
        match self {
            Role::Unknown { .. } => true,
            _ => false,
        }
    }

    pub fn unknown_role_type(&self) -> (r: Option<&str>)
        ensures
            match r {
                Some(s) => self@ matches RoleModel::Unknown { role_type, .. } && s@ == role_type,
                None => !(self@ is Unknown),
            },
    {
        match self {
            Role::Unknown { role_type, .. } => Some(role_type.as_str()),
            _ => None,
        }
    }

    pub fn unknown_data(&self) -> (r: Option<&JsonValue>)
        ensures
            match r {
                Some(d) => self@ matches RoleModel::Unknown { data, .. } && d@ == data,
                None => !(self@ is Unknown),
            },
    {
        match self {
            Role::Unknown { data, .. } => Some(data),
            _ => None,
        }
    }

    /// The display text of this role.
    pub fn to_string(&self) -> (s: String)
        ensures
            s@ == role_name(self@),
    {
        match self {
            Role::User => String::from_str("user"),
            Role::Model => String::from_str("model"),
            Role::Unknown { role_type, .. } => role_type.clone(),
        }
    }

    /// The JSON encoding of this role: a string.
    pub fn to_json(&self) -> (r: JsonValue)
        ensures
            r@ == Json::Str(role_name(self@)),
    {
        JsonValue::String(self.to_string())
    }

    /// Decodes a role; anything but a string is an error.
    pub fn from_json(v: &JsonValue) -> (r: Result<Role, ()>)
        ensures
            match r {
                Ok(role) => role_from_json(v@) == Ok::<_, ()>(role@),
                Err(_) => role_from_json(v@) is Err,
            },
    {
        match v {
            JsonValue::String(s) => {
                if crate::json::str_eq(s.as_str(), "user") {
                    Ok(Role::User)
                } else if crate::json::str_eq(s.as_str(), "model") {
                    Ok(Role::Model)
                } else {
                    Ok(Role::Unknown { role_type: s.clone(), data: JsonValue::String(s.clone()) })
                }
            },
            _ => Err(()),
        }
    }

    /// A copy of this role.
    pub fn duplicate(&self) -> (r: Role)
        ensures
            r@ == self@,
    {
        match self {
            Role::User => Role::User,
            Role::Model => Role::Model,
            Role::Unknown { role_type, data } => Role::Unknown { role_type: role_type.clone(), data: data.deep_clone() },
        }
    }
}

pub open spec fn contents_view(v: Seq<InteractionContent>) -> Seq<ContentModel> {
    Seq::new(v.len(), |i: int| v[i]@)
}

/// The content of a turn: plain text, or a list of content parts.
#[derive(Debug)]
pub enum TurnContent {
    Text(String),
    Parts(Vec<InteractionContent>),
}

pub enum TurnContentModel {
    Text(Seq<char>),
    Parts(Seq<ContentModel>),
}

impl View for TurnContent {
    type V = TurnContentModel;

    open spec fn view(&self) -> TurnContentModel {
        match self {
            TurnContent::Text(s) => TurnContentModel::Text(s@),
            TurnContent::Parts(p) => TurnContentModel::Parts(contents_view(p@)),
        }
    }
}

impl From<String> for TurnContent {
    fn from(s: String) -> (r: TurnContent) {
        TurnContent::Text(s)
    }
}

impl vstd::std_specs::convert::FromSpecImpl<String> for TurnContent {
    open spec fn obeys_from_spec() -> bool {
        true
    }

    open spec fn from_spec(s: String) -> TurnContent {
        TurnContent::Text(s)
    }
}

impl From<Vec<InteractionContent>> for TurnContent {
    fn from(parts: Vec<InteractionContent>) -> (r: TurnContent) {
        TurnContent::Parts(parts)
    }
}

impl vstd::std_specs::convert::FromSpecImpl<Vec<InteractionContent>> for TurnContent {
    open spec fn obeys_from_spec() -> bool {
        true
    }

    open spec fn from_spec(parts: Vec<InteractionContent>) -> TurnContent {
        TurnContent::Parts(parts)
    }
}

/// The JSON array of a list of contents.
pub open spec fn contents_json(v: Seq<ContentModel>) -> Json {
    Json::Array(Seq::new(v.len(), |i: int| content_json(v[i])))
}

/// The JSON encoding of turn content: a string, or an array of contents.
pub open spec fn turn_content_json(c: TurnContentModel) -> Json {
    match c {
        TurnContentModel::Text(s) => Json::Str(s),
        TurnContentModel::Parts(p) => contents_json(p),
    }
}

/// Decoding of a list of contents (never fails: every item decodes).
pub open spec fn contents_from_json(items: Seq<Json>) -> Seq<ContentModel> {
    Seq::new(items.len(), |i: int| content_from_json(items[i]))
}

/// Decoding of turn content: a string is text, an array is a list of parts,
/// anything else is an error.
pub open spec fn turn_content_from_json(v: Json) -> Result<TurnContentModel, ()> {
    match v {
        Json::Str(s) => Ok(TurnContentModel::Text(s)),
        Json::Array(items) => Ok(TurnContentModel::Parts(contents_from_json(items))),
        _ => Err(()),
    }
}

/// The JSON array of a list of contents.
pub fn contents_to_json(v: &Vec<InteractionContent>) -> (r: JsonValue)
    ensures
        r@ == contents_json(contents_view(v@)),
{
    let mut items: Vec<JsonValue> = Vec::new();
    let mut i: usize = 0;
    while i < v.len()
        invariant
            i <= v@.len(),
            items@.len() == i,
            forall|j: int| 0 <= j < i ==> items@[j]@ == content_json(v@[j]@),
        decreases v@.len() - i,
    {
        items.push(v[i].to_json());
        i = i + 1;
    }
    let r = crate::json::array_of(items);
    proof {
        assert(values_view(items@) =~= contents_json(contents_view(v@))->Array_0);
    }
    r
}

/// Decodes every item of a JSON array as content.
pub fn contents_from_array(items: &Vec<JsonValue>) -> (r: Vec<InteractionContent>)
    ensures
        contents_view(r@) == contents_from_json(values_view(items@)),
{
    let mut out: Vec<InteractionContent> = Vec::new();
    let mut i: usize = 0;
    while i < items.len()
        invariant
            i <= items@.len(),
            out@.len() == i,
            forall|j: int| 0 <= j < i ==> out@[j]@ == content_from_json(items@[j]@),
        decreases items@.len() - i,
    {
        out.push(InteractionContent::from_json(&items[i]));
        i = i + 1;
    }
    proof {
        assert(contents_view(out@) =~= contents_from_json(values_view(items@)));
    }
    out
}

impl TurnContent {
    /// The text, if this is text content.
    pub fn text(&self) -> (r: Option<&str>)
        ensures
            match r {
                Some(s) => self@ == TurnContentModel::Text(s@),
                None => !(self@ is Text),
            },
    {
        match self {
            TurnContent::Text(t) => Some(t.as_str()),
            TurnContent::Parts(_) => None,
        }
    }

    /// The parts, if this is a list of parts.
    pub fn parts(&self) -> (r: Option<&[InteractionContent]>)
        ensures
            match r {
                Some(p) => self@ == TurnContentModel::Parts(contents_view(p@)),
                None => !(self@ is Parts),
            },
    {
        match self {
            TurnContent::Parts(p) => Some(p.as_slice()),
            TurnContent::Text(_) => None,
        }
    }

    pub fn is_text(&self) -> (b: bool)
        ensures
            b == (self@ is Text),
    {
        match self {
            TurnContent::Text(_) => true,
            _ => false,
        }
    }

    pub fn is_parts(&self) -> (b: bool)
        ensures
            b == (self@ is Parts),
    {
        match self {
            TurnContent::Parts(_) => true,
            _ => false,
        }
    }

    /// The JSON encoding of this content.
    pub fn to_json(&self) -> (r: JsonValue)
        ensures
            r@ == turn_content_json(self@),
    {
        match self {
            TurnContent::Text(s) => JsonValue::String(s.clone()),
            TurnContent::Parts(p) => contents_to_json(p),
        }
    }

    /// Decodes turn content: a string or an array.
    pub fn from_json(v: &JsonValue) -> (r: Result<TurnContent, ()>)
        ensures
            match r {
                Ok(c) => turn_content_from_json(v@) == Ok::<_, ()>(c@),
                Err(_) => turn_content_from_json(v@) is Err,
            },
    {
        match v {
            JsonValue::String(s) => Ok(TurnContent::Text(s.clone())),
            JsonValue::Array(items) => {
                proof {
                    crate::json::lemma_array_view(*items);
                }
                Ok(TurnContent::Parts(contents_from_array(items)))
            },
            _ => Err(()),
        }
    }
}

/// One turn of a conversation: who speaks, and what.
#[derive(Debug)]
pub struct Turn {
    role: Role,
    content: TurnContent,
}

pub struct TurnModel {
    pub role: RoleModel,
    pub content: TurnContentModel,
}

impl View for Turn {
    type V = TurnModel;

    closed spec fn view(&self) -> TurnModel {
        TurnModel { role: self.role@, content: self.content@ }
    }
}

/// The JSON encoding of a turn.
pub open spec fn turn_json(t: TurnModel) -> Json {
    Json::Object(seq![("role"@, Json::Str(role_name(t.role))), ("content"@, turn_content_json(t.content))])
}

/// Decoding of a turn from an object or an array.
pub open spec fn turn_from_json(v: Json) -> Result<TurnModel, ()> {
    match record_src(v) {
        None => Err(()),
        Some(src) => if !arity_ok(src, 2) {
            Err(())
        } else {
            match (src_field(src, "role"@, 0), src_field(src, "content"@, 1)) {
                (Some(r), Some(c)) => match (role_from_json(r), turn_content_from_json(c)) {
                    (Ok(role), Ok(content)) => Ok(TurnModel { role, content }),
                    _ => Err(()),
                },
                _ => Err(()),
            }
        },
    }
}

impl Turn {
    /// A turn by `role` with `content`.
    pub fn new(role: Role, content: TurnContent) -> (t: Self)
        ensures
            t@ == (TurnModel { role: role@, content: content@ }),
    {
        Turn { role, content }
    }

    pub fn role(&self) -> (r: &Role)
        ensures
            r@ == self@.role,
    {
        &self.role
    }

    pub fn content(&self) -> (c: &TurnContent)
        ensures
            c@ == self@.content,
    {
        &self.content
    }

    /// A turn by the user.
    pub fn user(content: TurnContent) -> (t: Self)
        ensures
            t@ == (TurnModel { role: RoleModel::User, content: content@ }),
    {
        Turn::new(Role::User, content)
    }

    /// A turn by the model.
    pub fn model(content: TurnContent) -> (t: Self)
        ensures
            t@ == (TurnModel { role: RoleModel::Model, content: content@ }),
    {
        Turn::new(Role::Model, content)
    }

    pub fn is_user(&self) -> (b: bool)
        ensures
            b == (self@.role is User),
    {
        match self.role {
            Role::User => true,
            _ => false,
        }
    }

    pub fn is_model(&self) -> (b: bool)
        ensures
            b == (self@.role is Model),
    {
        match self.role {
            Role::Model => true,
            _ => false,
        }
    }

    /// The text of this turn, if its content is text.
    pub fn text(&self) -> (r: Option<&str>)
        ensures
            match r {
                Some(s) => self@.content == TurnContentModel::Text(s@),
                None => !(self@.content is Text),
            },
    {
        self.content.text()
    }

    /// The JSON encoding of this turn.
    pub fn to_json(&self) -> (r: JsonValue)
        ensures
            r@ == turn_json(self@),
    {
        let mut e: Vec<(String, JsonValue)> = Vec::new();
        push_entry(&mut e, "role", self.role.to_json());
        push_entry(&mut e, "content", self.content.to_json());
        proof {
            assert(entries_view(e@) =~= turn_json(self@)->Object_0);
        }
        object_of(e)
    }

    /// Decodes a turn from an object or an array.
    pub fn from_json(v: &JsonValue) -> (r: Result<Turn, ()>)
        ensures
            match r {
                Ok(t) => turn_from_json(v@) == Ok::<_, ()>(t@),
                Err(_) => turn_from_json(v@) is Err,
            },
    {
        let f = match record_fields(v) {
            Some(f) => f,
            None => return Err(()),
        };
        if !check_arity(&f, 2) {
            return Err(());
        }
        match (f.field("role", 0), f.field("content", 1)) {
            (Some(r), Some(c)) => match (Role::from_json(r), TurnContent::from_json(c)) {
                (Ok(role), Ok(content)) => Ok(Turn { role, content }),
                _ => Err(()),
            },
            _ => Err(()),
        }
    }
}

pub open spec fn turns_view(v: Seq<Turn>) -> Seq<TurnModel> {
    Seq::new(v.len(), |i: int| v[i]@)
}

/// The input of an interaction: plain text, a list of contents, or a list of
/// turns.
#[derive(Debug)]
pub enum InteractionInput {
    Text(String),
    Content(Vec<InteractionContent>),
    Turns(Vec<Turn>),
}

pub enum InteractionInputModel {
    Text(Seq<char>),
    Content(Seq<ContentModel>),
    Turns(Seq<TurnModel>),
}

impl View for InteractionInput {
    type V = InteractionInputModel;

    open spec fn view(&self) -> InteractionInputModel {
        match self {
            InteractionInput::Text(s) => InteractionInputModel::Text(s@),
            InteractionInput::Content(c) => InteractionInputModel::Content(contents_view(c@)),
            InteractionInput::Turns(t) => InteractionInputModel::Turns(turns_view(t@)),
        }
    }
}

/// The JSON encoding of an input: a string, or an array.
pub open spec fn input_json(i: InteractionInputModel) -> Json {
    match i {
        InteractionInputModel::Text(s) => Json::Str(s),
        InteractionInputModel::Content(c) => contents_json(c),
        InteractionInputModel::Turns(t) => Json::Array(Seq::new(t.len(), |k: int| turn_json(t[k]))),
    }
}

/// Decoding of an input: a string is text; an array is a list of contents
/// (every array decodes as one, so a list of turns comes back as contents).
pub open spec fn input_from_json(v: Json) -> Result<InteractionInputModel, ()> {
    match v {
        Json::Str(s) => Ok(InteractionInputModel::Text(s)),
        Json::Array(items) => Ok(InteractionInputModel::Content(contents_from_json(items))),
        _ => Err(()),
    }
}

impl InteractionInput {
    /// The JSON encoding of this input.
    pub fn to_json(&self) -> (r: JsonValue)
        ensures
            r@ == input_json(self@),
    {
        match self {
            InteractionInput::Text(s) => JsonValue::String(s.clone()),
            InteractionInput::Content(c) => contents_to_json(c),
            InteractionInput::Turns(t) => {
                let mut items: Vec<JsonValue> = Vec::new();
                let mut i: usize = 0;
                while i < t.len()
                    invariant
                        i <= t@.len(),
                        items@.len() == i,
                        forall|j: int| 0 <= j < i ==> items@[j]@ == turn_json(t@[j]@),
                    decreases t@.len() - i,
                {
                    items.push(t[i].to_json());
                    i = i + 1;
                }
                let r = crate::json::array_of(items);
                proof {
                    assert(values_view(items@) =~= input_json(self@)->Array_0);
                }
                r
            },
        }
    }

    /// Decodes an input from a string or an array.
    pub fn from_json(v: &JsonValue) -> (r: Result<InteractionInput, ()>)
        ensures
            match r {
                Ok(i) => input_from_json(v@) == Ok::<_, ()>(i@),
                Err(_) => input_from_json(v@) is Err,
            },
    {
        match v {
            JsonValue::String(s) => Ok(InteractionInput::Text(s.clone())),
            JsonValue::Array(items) => {
                proof {
                    crate::json::lemma_array_view(*items);
                }
                Ok(InteractionInput::Content(contents_from_array(items)))
            },
            _ => Err(()),
        }
    }
}

/// How much the model thinks before answering.
#[derive(Debug, PartialEq)]
pub enum ThinkingLevel {
    Minimal,
    Low,
    Medium,
    High,
    /// A level this library does not know, kept with its JSON value.
    Unknown { level_type: String, data: JsonValue },
}

pub enum ThinkingLevelModel {
    Minimal,
    Low,
    Medium,
    High,
    Unknown { level_type: Seq<char>, data: Json },
}

impl View for ThinkingLevel {
    type V = ThinkingLevelModel;

    open spec fn view(&self) -> ThinkingLevelModel {
        match self {
            ThinkingLevel::Minimal => ThinkingLevelModel::Minimal,
            ThinkingLevel::Low => ThinkingLevelModel::Low,
            ThinkingLevel::Medium => ThinkingLevelModel::Medium,
            ThinkingLevel::High => ThinkingLevelModel::High,
            ThinkingLevel::Unknown { level_type, data } => ThinkingLevelModel::Unknown {
                level_type: level_type@,
                data: data@,
            },
        }
    }
}

/// The JSON encoding of a level: its name; an unknown level whose data is
/// neither a string nor null is written as `{"level": .., "data": ..}`.
pub open spec fn level_json(l: ThinkingLevelModel) -> Json {
    match l {
        ThinkingLevelModel::Minimal => Json::Str("minimal"@),
        ThinkingLevelModel::Low => Json::Str("low"@),
        ThinkingLevelModel::Medium => Json::Str("medium"@),
        ThinkingLevelModel::High => Json::Str("high"@),
        ThinkingLevelModel::Unknown { level_type, data } => if data is Str || data is Null {
            Json::Str(level_type)
        } else {
            Json::Object(seq![("level"@, Json::Str(level_type)), ("data"@, data)])
        },
    }
}

/// Decoding of a level: a known name, any other string as an unknown level
/// of that name, an object as an unknown level named by its string `level`
/// (or `unknown`); anything else is an error.
pub open spec fn level_from_json(v: Json) -> Result<ThinkingLevelModel, ()> {
    match v {
        Json::Str(s) => Ok(
            if s == "minimal"@ {
                ThinkingLevelModel::Minimal
            } else if s == "low"@ {
                ThinkingLevelModel::Low
            } else if s == "medium"@ {
                ThinkingLevelModel::Medium
            } else if s == "high"@ {
                ThinkingLevelModel::High
            } else {
                ThinkingLevelModel::Unknown { level_type: s, data: v }
            },
        ),
        Json::Object(_) => Ok(
            ThinkingLevelModel::Unknown {
                level_type: match json_get(v, "level"@) {
                    Some(Json::Str(l)) => l,
                    _ => "unknown"@,
                },
                data: v,
            },
        ),
        _ => Err(()),
    }
}

impl ThinkingLevel {
    pub fn is_unknown(&self) -> (b: bool)
        ensures
            b == (self@ is Unknown),
    {
        match self {
            ThinkingLevel::Unknown { .. } => true,
            _ => false,
        }
    }

    pub fn unknown_level_type(&self) -> (r: Option<&str>)
        ensures
            match r {
                Some(s) => self@ matches ThinkingLevelModel::Unknown { level_type, .. } && s@ == level_type,
                None => !(self@ is Unknown),
            },
    {
        match self {
            ThinkingLevel::Unknown { level_type, .. } => Some(level_type.as_str()),
            _ => None,
        }
    }

    pub fn unknown_data(&self) -> (r: Option<&JsonValue>)
        ensures
            match r {
                Some(d) => self@ matches ThinkingLevelModel::Unknown { data, .. } && d@ == data,
                None => !(self@ is Unknown),
            },
    {
        match self {
            ThinkingLevel::Unknown { data, .. } => Some(data),
            _ => None,
        }
    }

    /// The JSON encoding of this level.
    pub fn to_json(&self) -> (r: JsonValue)
        ensures
            r@ == level_json(self@),
    {
        match self {
            ThinkingLevel::Minimal => JsonValue::String(String::from_str("minimal")),
            ThinkingLevel::Low => JsonValue::String(String::from_str("low")),
            ThinkingLevel::Medium => JsonValue::String(String::from_str("medium")),
            ThinkingLevel::High => JsonValue::String(String::from_str("high")),
            ThinkingLevel::Unknown { level_type, data } => {
                match data {
                    JsonValue::String(_) | JsonValue::Null => JsonValue::String(level_type.clone()),
                    _ => {
                        let mut e: Vec<(String, JsonValue)> = Vec::new();
                        push_str_entry(&mut e, "level", level_type.as_str());
                        push_entry(&mut e, "data", data.deep_clone());
                        proof {
                            assert(entries_view(e@) =~= level_json(self@)->Object_0);
                        }
                        object_of(e)
                    },
                }
            },
        }
    }

    /// Decodes a level from a string or an object.
    pub fn from_json(v: &JsonValue) -> (r: Result<ThinkingLevel, ()>)
        ensures
            match r {
                Ok(l) => level_from_json(v@) == Ok::<_, ()>(l@),
                Err(_) => level_from_json(v@) is Err,
            },
    {
        match v {
            JsonValue::String(s) => {
                if crate::json::str_eq(s.as_str(), "minimal") {
                    Ok(ThinkingLevel::Minimal)
                } else if crate::json::str_eq(s.as_str(), "low") {
                    Ok(ThinkingLevel::Low)
                } else if crate::json::str_eq(s.as_str(), "medium") {
                    Ok(ThinkingLevel::Medium)
                } else if crate::json::str_eq(s.as_str(), "high") {
                    Ok(ThinkingLevel::High)
                } else {
                    Ok(ThinkingLevel::Unknown { level_type: s.clone(), data: v.deep_clone() })
                }
            },
            JsonValue::Object(_) => {
                let level_type = match v.get("level") {
                    Some(JsonValue::String(l)) => l.clone(),
                    _ => String::from_str("unknown"),
                };
                Ok(ThinkingLevel::Unknown { level_type, data: v.deep_clone() })
            },
            _ => Err(()),
        }
    }
}

proof fn lemma_differ_at(a: Seq<char>, b: Seq<char>, i: int)
    requires
        0 <= i < a.len(),
        i < b.len(),
        a[i] != b[i],
    ensures
        a != b,
{
}

proof fn lemma_request_literal_facts()
    ensures
        "user"@.len() == 4,
        "model"@.len() == 5,
        "role"@.len() == 4,
        "content"@.len() == 7,
        "minimal"@.len() == 7,
        "low"@.len() == 3,
        "medium"@.len() == 6,
        "high"@.len() == 4,
{
    reveal_strlit("user");
    reveal_strlit("model");
    reveal_strlit("role");
    reveal_strlit("content");
    reveal_strlit("minimal");
    reveal_strlit("low");
    reveal_strlit("medium");
    reveal_strlit("high");
    assert("user"@.len() == 4);
    assert("model"@.len() == 5);
    assert("role"@.len() == 4);
    assert("content"@.len() == 7);
    assert("minimal"@.len() == 7);
    assert("low"@.len() == 3);
    assert("medium"@.len() == 6);
    assert("high"@.len() == 4);
}

/// A role's wire text decodes to a role of the same text; a known role
/// decodes to itself.
pub proof fn lemma_role_roundtrip(r: RoleModel)
    ensures
        role_from_json(Json::Str(role_name(r))) matches Ok(d) && role_name(d) == role_name(r),
        !(r is Unknown) ==> role_from_json(Json::Str(role_name(r))) == Ok::<_, ()>(r),
{
    lemma_request_literal_facts();
}

/// A known thinking level decodes from its encoding to itself.
pub proof fn lemma_level_roundtrip(l: ThinkingLevelModel)
    requires
        !(l is Unknown),
    ensures
        level_from_json(level_json(l)) == Ok::<_, ()>(l),
{
    lemma_request_literal_facts();
    reveal_strlit("high");
    reveal_strlit("user");
    lemma_differ_at("high"@, "user"@, 0);
}

/// Decoding the encoding of a list of contents gives it back when every
/// item encodes faithfully.
pub proof fn lemma_contents_roundtrip(p: Seq<ContentModel>)
    requires
        forall|i: int| 0 <= i < p.len() ==> crate::models::content::encodes_faithfully(#[trigger] p[i]),
    ensures
        contents_from_json(contents_json(p)->Array_0) == p,
{
    assert forall|i: int| 0 <= i < p.len() implies contents_from_json(contents_json(p)->Array_0)[i] == p[i] by {
        crate::models::content::lemma_content_roundtrip(p[i]);
    }
    assert(contents_from_json(contents_json(p)->Array_0) =~= p);
}

/// Decoding the encoding of a turn gives it back, for turns whose role is
/// known and whose parts (if any) encode faithfully.
pub proof fn lemma_turn_roundtrip(t: TurnModel)
    requires
        !(t.role is Unknown),
        t.content matches TurnContentModel::Parts(p) ==> forall|i: int| 0 <= i < p.len()
            ==> crate::models::content::encodes_faithfully(#[trigger] p[i]),
    ensures
        turn_from_json(turn_json(t)) == Ok::<_, ()>(t),
{
    lemma_request_literal_facts();
    reveal_strlit("role");
    reveal_strlit("content");
    reveal_with_fuel(crate::json::fields_get, 3);
    lemma_role_roundtrip(t.role);
    match t.content {
        TurnContentModel::Parts(p) => lemma_contents_roundtrip(p),
        _ => {},
    }
    let v = turn_json(t);
    assert(record_src(v) == Some(Src::Named(v->Object_0)));
}

/// Each known thinking level is written as its name in lower case
/// (`Minimal` as `"minimal"`, `Low` as `"low"`, `Medium` as `"medium"`,
/// `High` as `"high"`), and a string read from the wire is that level
/// exactly when it is that name.
pub proof fn lemma_level_wire_names(s: Seq<char>)
    ensures
        level_json(ThinkingLevelModel::Minimal) == Json::Str("minimal"@),
        level_json(ThinkingLevelModel::Low) == Json::Str("low"@),
        level_json(ThinkingLevelModel::Medium) == Json::Str("medium"@),
        level_json(ThinkingLevelModel::High) == Json::Str("high"@),
        level_from_json(Json::Str(s)) == Ok::<_, ()>(ThinkingLevelModel::Minimal) <==> s == "minimal"@,
        level_from_json(Json::Str(s)) == Ok::<_, ()>(ThinkingLevelModel::Low) <==> s == "low"@,
        level_from_json(Json::Str(s)) == Ok::<_, ()>(ThinkingLevelModel::Medium) <==> s == "medium"@,
        level_from_json(Json::Str(s)) == Ok::<_, ()>(ThinkingLevelModel::High) <==> s == "high"@,
{
    lemma_request_literal_facts();
}

} // verus!
