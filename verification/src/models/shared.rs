//! Tools and function declarations shared by requests and responses.
//!
//! A tool is a JSON object with a `type` field. Unknown tool types are kept
//! whole, as with content.

use vstd::prelude::*;
use vstd::string::*;
use crate::json::{
    serde_content_of, serde_rendered,
    Json, JsonValue, entries_view, json_get, compact_text, object_of, push_entry,
    push_str_entry,
};
use crate::fields::{
    Fields, Src, arity_ok, check_arity, dec_default_string_list, dec_string, dec_value,
    read_default_string_list, read_string, read_value, record_fields, record_src, src_field,
    strings_json, strings_to_json, strings_view,
};
use crate::models::content::{
    lemma_without_key_concat, lemma_without_key_idempotent, type_entry, unknown_fields, view_res_content, without_key,
};

verus! {

/// The parameters of a function: a JSON-schema object type with its
/// properties and the names of the required ones.
#[derive(Debug)]
pub struct FunctionParameters {
    type_: String,
    properties: JsonValue,
    required: Vec<String>,
}

pub struct FunctionParametersModel {
    pub type_: Seq<char>,
    pub properties: Json,
    pub required: Seq<Seq<char>>,
}

impl View for FunctionParameters {
    type V = FunctionParametersModel;

    closed spec fn view(&self) -> FunctionParametersModel {
        FunctionParametersModel {
            type_: self.type_@,
            properties: self.properties@,
            required: strings_view(self.required@),
        }
    }
}

/// The JSON encoding of function parameters; `required` is left out when empty.
pub open spec fn parameters_json(p: FunctionParametersModel) -> Json {
    Json::Object(
        seq![("type"@, Json::Str(p.type_)), ("properties"@, p.properties)] + if p.required.len() > 0 {
            seq![("required"@, strings_json(p.required))]
        } else {
            Seq::empty()
        },
    )
}

/// Decoding of function parameters from an object or an array.
pub open spec fn parameters_from_json(j: Json) -> Result<FunctionParametersModel, ()> {
    match record_src(j) {
        None => Err(()),
        Some(src) => if !arity_ok(src, 3) {
            Err(())
        } else {
            match (
                dec_string(src, "type"@, 0),
                dec_value(src, "properties"@, 1),
                dec_default_string_list(src, "required"@, 2),
            ) {
                (Ok(type_), Ok(properties), Ok(required)) => Ok(
                    FunctionParametersModel { type_, properties, required },
                ),
                _ => Err(()),
            }
        },
    }
}

impl FunctionParameters {
    /// Creates function parameters.
    pub fn new(type_: String, properties: JsonValue, required: Vec<String>) -> (p: Self)
        ensures
            p@ == (FunctionParametersModel {
                type_: type_@,
                properties: properties@,
                required: strings_view(required@),
            }),
    {
        FunctionParameters { type_, properties, required }
    }

    pub fn type_(&self) -> (s: &str)
        ensures
            s@ == self@.type_,
    {
        self.type_.as_str()
    }

    pub fn properties(&self) -> (v: &JsonValue)
        ensures
            v@ == self@.properties,
    {
        &self.properties
    }

    pub fn required(&self) -> (r: &[String])
        ensures
            strings_view(r@) == self@.required,
    {
        self.required.as_slice()
    }

    /// The JSON encoding of these parameters.
    pub fn to_json(&self) -> (r: JsonValue)
        ensures
            r@ == parameters_json(self@),
    {
        let mut e: Vec<(String, JsonValue)> = Vec::new();
        push_str_entry(&mut e, "type", self.type_.as_str());
        push_entry(&mut e, "properties", self.properties.deep_clone());
        let ghost mid = entries_view(e@);
        if self.required.len() > 0 {
            push_entry(&mut e, "required", strings_to_json(&self.required));
        }
        proof {
            assert(entries_view(e@) =~= parameters_json(self@)->Object_0);
        }
        object_of(e)
    }

    /// Decodes function parameters from an object or an array.
    pub fn from_json(v: &JsonValue) -> (r: Result<FunctionParameters, ()>)
        ensures
            match r {
                Ok(p) => parameters_from_json(v@) == Ok::<_, ()>(p@),
                Err(_) => parameters_from_json(v@) is Err,
            },
    {
        let f = match record_fields(v) {
            Some(f) => f,
            None => return Err(()),
        };
        if !check_arity(&f, 3) {
            return Err(());
        }
        let type_ = read_string(&f, "type", 0);
        let properties = read_value(&f, "properties", 1);
        let required = read_default_string_list(&f, "required", 2);
        match (type_, properties, required) {
            (Ok(type_), Ok(properties), Ok(required)) => Ok(FunctionParameters { type_, properties, required }),
            _ => Err(()),
        }
    }

    /// A copy of these parameters.
    pub fn duplicate(&self) -> (r: FunctionParameters)
        ensures
            r@ == self@,
    {
        let mut required: Vec<String> = Vec::new();
        let mut i: usize = 0;
        while i < self.required.len()
            invariant
                i <= self.required@.len(),
                required@.len() == i,
                forall|j: int| 0 <= j < i ==> required@[j]@ == self.required@[j]@,
            decreases self.required@.len() - i,
        {
            required.push(self.required[i].clone());
            i = i + 1;
        }
        let r = FunctionParameters {
            type_: self.type_.clone(),
            properties: self.properties.deep_clone(),
            required,
        };
        proof {
            assert(strings_view(r.required@) =~= strings_view(self.required@));
        }
        r
    }
}

/// A tool the model may use.
#[derive(Debug)]
pub enum Tool {
    /// A function the caller provides.
    Function { name: String, description: String, parameters: FunctionParameters },
    /// Google Search grounding.
    GoogleSearch,
    /// Code execution.
    CodeExecution,
    /// URL context retrieval.
    UrlContext,
    /// A Model Context Protocol server.
    McpServer { name: String, url: String },
    /// A tool type this library does not know, kept whole.
    Unknown { tool_type: String, data: JsonValue },
}

pub enum ToolModel {
    Function { name: Seq<char>, description: Seq<char>, parameters: FunctionParametersModel },
    GoogleSearch,
    CodeExecution,
    UrlContext,
    McpServer { name: Seq<char>, url: Seq<char> },
    Unknown { tool_type: Seq<char>, data: Json },
}

impl View for Tool {
    type V = ToolModel;

    open spec fn view(&self) -> ToolModel {
        match self {
            Tool::Function { name, description, parameters } => ToolModel::Function {
                name: name@,
                description: description@,
                parameters: parameters@,
            },
            Tool::GoogleSearch => ToolModel::GoogleSearch,
            Tool::CodeExecution => ToolModel::CodeExecution,
            Tool::UrlContext => ToolModel::UrlContext,
            Tool::McpServer { name, url } => ToolModel::McpServer { name: name@, url: url@ },
            Tool::Unknown { tool_type, data } => ToolModel::Unknown { tool_type: tool_type@, data: data@ },
        }
    }
}

/// The JSON encoding of a tool: its `type` first, then its fields; an
/// unknown tool writes its data's fields back as unknown content does.
pub open spec fn tool_json(t: ToolModel) -> Json {
    match t {
        ToolModel::Function { name, description, parameters } => Json::Object(
            type_entry("function"@) + seq![
                ("name"@, Json::Str(name)),
                ("description"@, Json::Str(description)),
                ("parameters"@, parameters_json(parameters)),
            ],
        ),
        ToolModel::GoogleSearch => Json::Object(type_entry("google_search"@)),
        ToolModel::CodeExecution => Json::Object(type_entry("code_execution"@)),
        ToolModel::UrlContext => Json::Object(type_entry("url_context"@)),
        ToolModel::McpServer { name, url } => Json::Object(
            type_entry("mcp_server"@) + seq![("name"@, Json::Str(name)), ("url"@, Json::Str(url))],
        ),
        ToolModel::Unknown { tool_type, data } => Json::Object(type_entry(tool_type) + unknown_fields(data)),
    }
}

/// The type name and fields of a tool record.
pub open spec fn tool_tag_and_src(v: Json) -> Option<(Seq<char>, Src)> {
    crate::models::content::content_tag_and_src(v)
}

/// Decoding of a tool of a known type.
pub open spec fn known_tool(v: Json) -> Result<ToolModel, ()> {
    match tool_tag_and_src(v) {
        None => Err(()),
        Some((t, src)) => if t == "function"@ {
            if !arity_ok(src, 3) {
                Err(())
            } else {
                match (dec_string(src, "name"@, 0), dec_string(src, "description"@, 1), src_field(src, "parameters"@, 2)) {
                    (Ok(name), Ok(description), Some(pv)) => match parameters_from_json(pv) {
                        Ok(parameters) => Ok(ToolModel::Function { name, description, parameters }),
                        Err(_) => Err(()),
                    },
                    _ => Err(()),
                }
            }
        } else if t == "google_search"@ {
            if arity_ok(src, 0) { Ok(ToolModel::GoogleSearch) } else { Err(()) }
        } else if t == "code_execution"@ {
            if arity_ok(src, 0) { Ok(ToolModel::CodeExecution) } else { Err(()) }
        } else if t == "url_context"@ {
            if arity_ok(src, 0) { Ok(ToolModel::UrlContext) } else { Err(()) }
        } else if t == "mcp_server"@ {
            if !arity_ok(src, 2) {
                Err(())
            } else {
                match (dec_string(src, "name"@, 0), dec_string(src, "url"@, 1)) {
                    (Ok(name), Ok(url)) => Ok(ToolModel::McpServer { name, url }),
                    _ => Err(()),
                }
            }
        } else {
            Err(())
        },
    }
}

/// Decoding of a tool: a known type, else the whole value as an unknown tool
/// filed under its `type` string or `<missing type>`.
pub open spec fn tool_from_json(v: Json) -> ToolModel {
    match known_tool(v) {
        Ok(t) => t,
        Err(_) => ToolModel::Unknown {
            tool_type: crate::models::content::unknown_type_name(v),
            data: v,
        },
    }
}

fn decode_known_tool(v: &JsonValue) -> (r: Result<Tool, ()>)
    ensures
        match r {
            Ok(t) => known_tool(v@) == Ok::<_, ()>(t@),
            Err(_) => known_tool(v@) is Err,
        },
{
    let (t, f) = match crate::models::content::content_tag_and_fields(v) {
        Some(x) => x,
        None => return Err(()),
    };
    if crate::json::str_eq(t, "function") {
        if !check_arity(&f, 3) {
            return Err(());
        }
        let name = read_string(&f, "name", 0);
        let description = read_string(&f, "description", 1);
        match (name, description, f.field("parameters", 2)) {
            (Ok(name), Ok(description), Some(pv)) => match FunctionParameters::from_json(pv) {
                Ok(parameters) => Ok(Tool::Function { name, description, parameters }),
                Err(_) => Err(()),
            },
            _ => Err(()),
        }
    } else if crate::json::str_eq(t, "google_search") {
        if check_arity(&f, 0) { Ok(Tool::GoogleSearch) } else { Err(()) }
    } else if crate::json::str_eq(t, "code_execution") {
        if check_arity(&f, 0) { Ok(Tool::CodeExecution) } else { Err(()) }
    } else if crate::json::str_eq(t, "url_context") {
        if check_arity(&f, 0) { Ok(Tool::UrlContext) } else { Err(()) }
    } else if crate::json::str_eq(t, "mcp_server") {
        if !check_arity(&f, 2) {
            return Err(());
        }
        match (read_string(&f, "name", 0), read_string(&f, "url", 1)) {
            (Ok(name), Ok(url)) => Ok(Tool::McpServer { name, url }),
            _ => Err(()),
        }
    } else {
        Err(())
    }
}

impl Tool {
    /// Decodes a tool from JSON; unknown tool types are kept whole.
    pub fn from_json(v: &JsonValue) -> (r: Tool)
        ensures
            r@ == tool_from_json(v@),
    {
        match decode_known_tool(v) {
            Ok(t) => t,
            Err(_) => {
                let tool_type = match v.get("type") {
                    Some(JsonValue::String(s)) => s.clone(),
                    _ => String::from_str("<missing type>"),
                };
                Tool::Unknown { tool_type, data: v.deep_clone() }
            },
        }
    }

    /// The JSON encoding of this tool.
    pub fn to_json(&self) -> (r: JsonValue)
        ensures
            r@ == tool_json(self@),
    {
        let mut e: Vec<(String, JsonValue)> = Vec::new();
        match self {
            Tool::Function { name, description, parameters } => {
                push_str_entry(&mut e, "type", "function");
                push_str_entry(&mut e, "name", name.as_str());
                push_str_entry(&mut e, "description", description.as_str());
                push_entry(&mut e, "parameters", parameters.to_json());
                proof {
                    assert(entries_view(e@) =~= tool_json(self@)->Object_0);
                }
            },
            Tool::GoogleSearch => {
                push_str_entry(&mut e, "type", "google_search");
                proof {
                    assert(entries_view(e@) =~= tool_json(self@)->Object_0);
                }
            },
            Tool::CodeExecution => {
                push_str_entry(&mut e, "type", "code_execution");
                proof {
                    assert(entries_view(e@) =~= tool_json(self@)->Object_0);
                }
            },
            Tool::UrlContext => {
                push_str_entry(&mut e, "type", "url_context");
                proof {
                    assert(entries_view(e@) =~= tool_json(self@)->Object_0);
                }
            },
            Tool::McpServer { name, url } => {
                push_str_entry(&mut e, "type", "mcp_server");
                push_str_entry(&mut e, "name", name.as_str());
                push_str_entry(&mut e, "url", url.as_str());
                proof {
                    assert(entries_view(e@) =~= tool_json(self@)->Object_0);
                }
            },
            Tool::Unknown { tool_type, data } => {
                push_str_entry(&mut e, "type", tool_type.as_str());
                proof {
                    assert(entries_view(e@) =~= type_entry(tool_type@));
                }
                crate::models::content::push_unknown_fields(&mut e, data);
            },
        }
        object_of(e)
    }

    /// Whether this is a tool type the library does not know.
    pub fn is_unknown(&self) -> (b: bool)
        ensures
            b == (self@ is Unknown),
    {
        match self {
            Tool::Unknown { .. } => true,
            _ => false,
        }
    }

    /// The type name of an unknown tool.
    pub fn unknown_tool_type(&self) -> (r: Option<&str>)
        ensures
            match r {
                Some(s) => self@ matches ToolModel::Unknown { tool_type, .. } && s@ == tool_type,
                None => !(self@ is Unknown),
            },
    {
        match self {
            Tool::Unknown { tool_type, .. } => Some(tool_type.as_str()),
            _ => None,
        }
    }

    /// The JSON data of an unknown tool.
    pub fn unknown_data(&self) -> (r: Option<&JsonValue>)
        ensures
            match r {
                Some(d) => self@ matches ToolModel::Unknown { data, .. } && d@ == data,
                None => !(self@ is Unknown),
            },
    {
        match self {
            Tool::Unknown { data, .. } => Some(data),
            _ => None,
        }
    }
}

/// A function the model may call: its name, description and parameters.
#[derive(Debug)]
pub struct FunctionDeclaration {
    name: String,
    description: String,
    parameters: FunctionParameters,
}

pub struct FunctionDeclarationModel {
    pub name: Seq<char>,
    pub description: Seq<char>,
    pub parameters: FunctionParametersModel,
}

impl View for FunctionDeclaration {
    type V = FunctionDeclarationModel;

    closed spec fn view(&self) -> FunctionDeclarationModel {
        FunctionDeclarationModel {
            name: self.name@,
            description: self.description@,
            parameters: self.parameters@,
        }
    }
}

/// The JSON encoding of a function declaration.
pub open spec fn declaration_json(d: FunctionDeclarationModel) -> Json {
    Json::Object(
        seq![
            ("name"@, Json::Str(d.name)),
            ("description"@, Json::Str(d.description)),
            ("parameters"@, parameters_json(d.parameters)),
        ],
    )
}

/// Decoding of a function declaration from an object or an array.
pub open spec fn declaration_from_json(j: Json) -> Result<FunctionDeclarationModel, ()> {
    match record_src(j) {
        None => Err(()),
        Some(src) => if !arity_ok(src, 3) {
            Err(())
        } else {
            match (dec_string(src, "name"@, 0), dec_string(src, "description"@, 1), src_field(src, "parameters"@, 2)) {
                (Ok(name), Ok(description), Some(pv)) => match parameters_from_json(pv) {
                    Ok(parameters) => Ok(FunctionDeclarationModel { name, description, parameters }),
                    Err(_) => Err(()),
                },
                _ => Err(()),
            }
        },
    }
}

impl FunctionDeclaration {
    /// Creates a function declaration.
    pub fn new(name: String, description: String, parameters: FunctionParameters) -> (d: Self)
        ensures
            d@ == (FunctionDeclarationModel { name: name@, description: description@, parameters: parameters@ }),
    {
        FunctionDeclaration { name, description, parameters }
    }

    /// Starts building a declaration for the function `name`.
    pub fn builder(name: &str) -> (b: FunctionDeclarationBuilder)
        ensures
            b@ == new_builder_model(name@),
    {
        FunctionDeclarationBuilder::new(name)
    }

    pub fn name(&self) -> (s: &str)
        ensures
            s@ == self@.name,
    {
        self.name.as_str()
    }

    pub fn description(&self) -> (s: &str)
        ensures
            s@ == self@.description,
    {
        self.description.as_str()
    }

    pub fn parameters(&self) -> (p: &FunctionParameters)
        ensures
            p@ == self@.parameters,
    {
        &self.parameters
    }

    /// The function tool that declares this function.
    pub fn into_tool(self) -> (t: Tool)
        ensures
            t@ == (ToolModel::Function {
                name: self@.name,
                description: self@.description,
                parameters: self@.parameters,
            }),
    {
        Tool::Function { name: self.name, description: self.description, parameters: self.parameters }
    }

    /// The JSON encoding of this declaration.
    pub fn to_json(&self) -> (r: JsonValue)
        ensures
            r@ == declaration_json(self@),
    {
        let mut e: Vec<(String, JsonValue)> = Vec::new();
        push_str_entry(&mut e, "name", self.name.as_str());
        push_str_entry(&mut e, "description", self.description.as_str());
        push_entry(&mut e, "parameters", self.parameters.to_json());
        proof {
            assert(entries_view(e@) =~= declaration_json(self@)->Object_0);
        }
        object_of(e)
    }

    /// Decodes a declaration from an object or an array.
    pub fn from_json(v: &JsonValue) -> (r: Result<FunctionDeclaration, ()>)
        ensures
            match r {
                Ok(d) => declaration_from_json(v@) == Ok::<_, ()>(d@),
                Err(_) => declaration_from_json(v@) is Err,
            },
    {
        let f = match record_fields(v) {
            Some(f) => f,
            None => return Err(()),
        };
        if !check_arity(&f, 3) {
            return Err(());
        }
        let name = read_string(&f, "name", 0);
        let description = read_string(&f, "description", 1);
        match (name, description, f.field("parameters", 2)) {
            (Ok(name), Ok(description), Some(pv)) => match FunctionParameters::from_json(pv) {
                Ok(parameters) => Ok(FunctionDeclaration { name, description, parameters }),
                Err(_) => Err(()),
            },
            _ => Err(()),
        }
    }
}

/// Builds a [`FunctionDeclaration`] step by step.
#[derive(Debug)]
pub struct FunctionDeclarationBuilder {
    name: String,
    description: String,
    properties: JsonValue,
    required: Vec<String>,
}

pub struct BuilderModel {
    pub name: Seq<char>,
    pub description: Seq<char>,
    pub properties: Json,
    pub required: Seq<Seq<char>>,
}

impl View for FunctionDeclarationBuilder {
    type V = BuilderModel;

    closed spec fn view(&self) -> BuilderModel {
        BuilderModel {
            name: self.name@,
            description: self.description@,
            properties: self.properties@,
            required: strings_view(self.required@),
        }
    }
}

/// A fresh builder: the name, no description, no properties, nothing required.
pub open spec fn new_builder_model(name: Seq<char>) -> BuilderModel {
    BuilderModel {
        name,
        description: Seq::empty(),
        properties: Json::Object(Seq::empty()),
        required: Seq::empty(),
    }
}

/// The position of the first entry named `key`.
pub open spec fn key_position(fields: Seq<(Seq<char>, Json)>, key: Seq<char>) -> Option<int>
    decreases fields.len(),
{
    if fields.len() == 0 {
        None
    } else if fields[0].0 == key {
        Some(0)
    } else {
        match key_position(fields.drop_first(), key) {
            Some(i) => Some(i + 1),
            None => None,
        }
    }
}

/// The entries after setting `key` to `value`: the first entry of that name
/// gets the new value in place, or a new entry goes at the end.
pub open spec fn fields_insert(fields: Seq<(Seq<char>, Json)>, key: Seq<char>, value: Json) -> Seq<(Seq<char>, Json)> {
    match key_position(fields, key) {
        Some(i) => fields.update(i, (key, value)),
        None => fields.push((key, value)),
    }
}

/// An object with `key` set to `value`; any other value is left as it is.
pub open spec fn json_insert(j: Json, key: Seq<char>, value: Json) -> Json {
    match j {
        Json::Object(fields) => Json::Object(fields_insert(fields, key, value)),
        _ => j,
    }
}

proof fn lemma_key_position_bounds(fields: Seq<(Seq<char>, Json)>, key: Seq<char>)
    ensures
        key_position(fields, key) matches Some(i) ==> 0 <= i < fields.len() && fields[i].0 == key
            && forall|j: int| 0 <= j < i ==> fields[j].0 != key,
        key_position(fields, key) is None ==> forall|j: int| 0 <= j < fields.len() ==> fields[j].0 != key,
    decreases fields.len(),
{
    if fields.len() > 0 {
        lemma_key_position_bounds(fields.drop_first(), key);
        if fields[0].0 != key {
            assert forall|j: int| 1 <= j < fields.len() implies fields[j] == fields.drop_first()[j - 1] by {}
        }
    }
}

proof fn lemma_fields_get_first(fields: Seq<(Seq<char>, Json)>, key: Seq<char>, i: int)
    requires
        0 <= i < fields.len(),
        fields[i].0 == key,
        forall|j: int| 0 <= j < i ==> fields[j].0 != key,
    ensures
        crate::json::fields_get(fields, key) == Some(fields[i].1),
    decreases i,
{
    if i > 0 {
        lemma_fields_get_first(fields.drop_first(), key, i - 1);
    }
}

proof fn lemma_fields_get_absent(fields: Seq<(Seq<char>, Json)>, key: Seq<char>)
    requires
        forall|j: int| 0 <= j < fields.len() ==> fields[j].0 != key,
    ensures
        crate::json::fields_get(fields, key) is None,
    decreases fields.len(),
{
    if fields.len() > 0 {
        lemma_fields_get_absent(fields.drop_first(), key);
    }
}

/// After setting `key` in an object, reading `key` gives the value set, and
/// reading any other name gives what it gave before.
pub proof fn lemma_json_insert_read(j: Json, key: Seq<char>, value: Json, other: Seq<char>)
    requires
        j is Object,
        other != key,
    ensures
        json_get(json_insert(j, key, value), key) == Some(value),
        json_get(json_insert(j, key, value), other) == json_get(j, other),
{
    let fields = j->Object_0;
    let r = fields_insert(fields, key, value);
    lemma_key_position_bounds(fields, key);
    match key_position(fields, key) {
        Some(i) => {
            lemma_fields_get_first(r, key, i);
            lemma_fields_get_other_update(fields, i, key, value, other);
        },
        None => {
            lemma_fields_get_first(r, key, fields.len() as int);
            lemma_fields_get_other_push(fields, key, value, other);
        },
    }
}

proof fn lemma_fields_get_other_update(fields: Seq<(Seq<char>, Json)>, i: int, key: Seq<char>, value: Json, other: Seq<char>)
    requires
        0 <= i < fields.len(),
        fields[i].0 == key,
        other != key,
    ensures
        crate::json::fields_get(fields.update(i, (key, value)), other) == crate::json::fields_get(fields, other),
    decreases fields.len(),
{
    if fields.len() > 0 {
        if i == 0 {
            assert(fields.update(i, (key, value)).drop_first() =~= fields.drop_first());
        } else {
            assert(fields.update(i, (key, value)).drop_first() =~= fields.drop_first().update(i - 1, (key, value)));
            lemma_fields_get_other_update(fields.drop_first(), i - 1, key, value, other);
        }
    }
}

proof fn lemma_fields_get_other_push(fields: Seq<(Seq<char>, Json)>, key: Seq<char>, value: Json, other: Seq<char>)
    requires
        other != key,
    ensures
        crate::json::fields_get(fields.push((key, value)), other) == crate::json::fields_get(fields, other),
    decreases fields.len(),
{
    if fields.len() > 0 {
        assert(fields.push((key, value)).drop_first() =~= fields.drop_first().push((key, value)));
        lemma_fields_get_other_push(fields.drop_first(), key, value, other);
    } else {
        assert(fields.push((key, value)).drop_first() =~= Seq::<(Seq<char>, Json)>::empty());
        reveal_with_fuel(crate::json::fields_get, 2);
    }
}

impl FunctionDeclarationBuilder {
    /// A builder for the function `name`, with no description, properties or
    /// required parameters yet.
    pub fn new(name: &str) -> (b: Self)
        ensures
            b@ == new_builder_model(name@),
    {
        let properties = object_of(Vec::new());
        let b = FunctionDeclarationBuilder {
            name: String::from_str(name),
            description: String::new(),
            properties,
            required: Vec::new(),
        };
        proof {
            assert(entries_view(Seq::<(String, JsonValue)>::empty()) =~= Seq::<(Seq<char>, Json)>::empty());
            assert(strings_view(b.required@) =~= Seq::<Seq<char>>::empty());
        }
        b
    }

    /// Sets the description.
    pub fn description(self, description: &str) -> (b: Self)
        ensures
            b@ == (BuilderModel { description: description@, ..self@ }),
    {
        FunctionDeclarationBuilder { description: String::from_str(description), ..self }
    }

    /// Sets the schema of the parameter `name`, replacing an earlier one of
    /// the same name.
    pub fn parameter(self, name: &str, schema: JsonValue) -> (b: Self)
        ensures
            b@ == (BuilderModel { properties: json_insert(self@.properties, name@, schema@), ..self@ }),
    {
        let FunctionDeclarationBuilder { name: fname, description, properties, required } = self;
        let properties = match properties {
            JsonValue::Object(fields) => {
                proof {
                    crate::json::lemma_object_view(fields);
                }
                JsonValue::Object(insert_entry(fields, name, schema))
            },
            other => other,
        };
        proof {
            crate::json::lemma_object_view(properties->Object_0);
        }
        FunctionDeclarationBuilder { name: fname, description, properties, required }
    }

    /// Sets the names of the required parameters.
    pub fn required(self, required: Vec<String>) -> (b: Self)
        ensures
            b@ == (BuilderModel { required: strings_view(required@), ..self@ }),
    {
        FunctionDeclarationBuilder { required, ..self }
    }

    /// The declaration: an object-typed parameter schema with the
    /// properties and required names given.
    pub fn build(self) -> (d: FunctionDeclaration)
        ensures
            d@ == (FunctionDeclarationModel {
                name: self@.name,
                description: self@.description,
                parameters: FunctionParametersModel {
                    type_: "object"@,
                    properties: self@.properties,
                    required: self@.required,
                },
            }),
    {
        FunctionDeclaration {
            name: self.name,
            description: self.description,
            parameters: FunctionParameters {
                type_: String::from_str("object"),
                properties: self.properties,
                required: self.required,
            },
        }
    }
}

/// Sets `key` to `value` in a list of entries.
fn insert_entry(entries: Vec<(String, JsonValue)>, key: &str, value: JsonValue) -> (r: Vec<(String, JsonValue)>)
    ensures
        entries_view(r@) == fields_insert(entries_view(entries@), key@, value@),
{
    let ghost fs = entries_view(entries@);
    proof {
        lemma_key_position_bounds(fs, key@);
    }
    let mut fields = entries;
    let mut i: usize = 0;
    while i < fields.len()
        invariant
            fs == entries_view(fields@),
            fs == entries_view(entries@),
            i <= fields@.len(),
            forall|j: int| 0 <= j < i ==> fs[j].0 != key@,
            key_position(fs, key@) matches Some(p) ==> 0 <= p < fs.len() && fs[p].0 == key@ && forall|j: int| 0 <= j < p ==> fs[j].0 != key@,
            key_position(fs, key@) is None ==> forall|j: int| 0 <= j < fs.len() ==> fs[j].0 != key@,
        decreases fields@.len() - i,
    {
        if crate::json::str_eq(fields[i].0.as_str(), key) {
            let ghost before = fields@;
            fields.set(i, (String::from_str(key), value));
            proof {
                assert(fs[i as int].0 == key@);
                assert(key_position(fs, key@) == Some(i as int));
                assert(entries_view(fields@) =~= fs.update(i as int, (key@, value@)));
            }
            return fields;
        }
        i = i + 1;
    }
    let ghost before = fields@;
    fields.push((String::from_str(key), value));
    proof {
        assert(key_position(fs, key@) is None);
        assert(entries_view(fields@) =~= fs.push((key@, value@)));
    }
    fields
}

/// How the model may call functions.
#[derive(Debug, PartialEq)]
pub enum FunctionCallingMode {
    /// The model decides whether to call a function (`"AUTO"`).
    Auto,
    /// The model must call a function (`"ANY"`).
    Any,
    /// The model must not call functions (`"NONE"`).
    NoCalls,
    /// The model's function calls are validated against the declarations (`"VALIDATED"`).
    Validated,
    /// A mode this library does not know, kept with its JSON value.
    Unknown { mode_type: String, data: JsonValue },
}

pub enum FunctionCallingModeModel {
    Auto,
    Any,
    NoCalls,
    Validated,
    Unknown { mode_type: Seq<char>, data: Json },
}

impl View for FunctionCallingMode {
    type V = FunctionCallingModeModel;

    open spec fn view(&self) -> FunctionCallingModeModel {
        match self {
            FunctionCallingMode::Auto => FunctionCallingModeModel::Auto,
            FunctionCallingMode::Any => FunctionCallingModeModel::Any,
            FunctionCallingMode::NoCalls => FunctionCallingModeModel::NoCalls,
            FunctionCallingMode::Validated => FunctionCallingModeModel::Validated,
            FunctionCallingMode::Unknown { mode_type, data } => FunctionCallingModeModel::Unknown {
                mode_type: mode_type@,
                data: data@,
            },
        }
    }
}

/// The wire text of a mode.
pub open spec fn mode_name(m: FunctionCallingModeModel) -> Seq<char> {
    match m {
        FunctionCallingModeModel::Auto => "AUTO"@,
        FunctionCallingModeModel::Any => "ANY"@,
        FunctionCallingModeModel::NoCalls => "NONE"@,
        FunctionCallingModeModel::Validated => "VALIDATED"@,
        FunctionCallingModeModel::Unknown { mode_type, .. } => mode_type,
    }
}

/// Decoding of a mode: the four known names, any other string as an
/// unknown mode of that name, and any other value as an unknown mode named
/// `<non-string: ...>` around `rendering`, its JSON text.
pub open spec fn mode_from_json(v: Json, rendering: Seq<char>) -> FunctionCallingModeModel {
    match v {
        Json::Str(s) => if s == "AUTO"@ {
            FunctionCallingModeModel::Auto
        } else if s == "ANY"@ {
            FunctionCallingModeModel::Any
        } else if s == "NONE"@ {
            FunctionCallingModeModel::NoCalls
        } else if s == "VALIDATED"@ {
            FunctionCallingModeModel::Validated
        } else {
            FunctionCallingModeModel::Unknown { mode_type: s, data: v }
        },
        _ => FunctionCallingModeModel::Unknown {
            mode_type: "<non-string: "@ + rendering + ">"@,
            data: v,
        },
    }
}

impl FunctionCallingMode {
    pub fn is_unknown(&self) -> (b: bool)
        ensures
            b == (self@ is Unknown),
    {
        match self {
            FunctionCallingMode::Unknown { .. } => true,
            _ => false,
        }
    }

    pub fn unknown_mode_type(&self) -> (r: Option<&str>)
        ensures
            match r {
                Some(s) => self@ matches FunctionCallingModeModel::Unknown { mode_type, .. } && s@ == mode_type,
                None => !(self@ is Unknown),
            },
    {
        match self {
            FunctionCallingMode::Unknown { mode_type, .. } => Some(mode_type.as_str()),
            _ => None,
        }
    }

    pub fn unknown_data(&self) -> (r: Option<&JsonValue>)
        ensures
            match r {
                Some(d) => self@ matches FunctionCallingModeModel::Unknown { data, .. } && d@ == data,
                None => !(self@ is Unknown),
            },
    {
        match self {
            FunctionCallingMode::Unknown { data, .. } => Some(data),
            _ => None,
        }
    }

    /// The JSON encoding of this mode: a string.
    pub fn to_json(&self) -> (r: JsonValue)
        ensures
            r@ == Json::Str(mode_name(self@)),
    {
        let name = match self {
            FunctionCallingMode::Auto => String::from_str("AUTO"),
            FunctionCallingMode::Any => String::from_str("ANY"),
            FunctionCallingMode::NoCalls => String::from_str("NONE"),
            FunctionCallingMode::Validated => String::from_str("VALIDATED"),
            FunctionCallingMode::Unknown { mode_type, .. } => mode_type.clone(),
        };
        JsonValue::String(name)
    }

    /// Decodes a mode from JSON; never fails.
    pub fn from_json(v: &JsonValue) -> (r: FunctionCallingMode)
        ensures
            r@ == mode_from_json(v@, serde_rendered(serde_content_of(v@))),
    {
        let r = match v {
            JsonValue::String(s) => {
                if crate::json::str_eq(s.as_str(), "AUTO") {
                    FunctionCallingMode::Auto
                } else if crate::json::str_eq(s.as_str(), "ANY") {
                    FunctionCallingMode::Any
                } else if crate::json::str_eq(s.as_str(), "NONE") {
                    FunctionCallingMode::NoCalls
                } else if crate::json::str_eq(s.as_str(), "VALIDATED") {
                    FunctionCallingMode::Validated
                } else {
                    FunctionCallingMode::Unknown { mode_type: s.clone(), data: v.deep_clone() }
                }
            },
            _ => {
                let text = compact_text(v);
                let mut mode_type = String::from_str("<non-string: ");
                mode_type.append(text.as_str());
                mode_type.append(">");
                let res = FunctionCallingMode::Unknown { mode_type, data: v.deep_clone() };
                proof {
                    assert(res@ == mode_from_json(v@, serde_rendered(serde_content_of(v@))));
                }
                res
            },
        };
        r
    }
}

proof fn lemma_differ_at(a: Seq<char>, b: Seq<char>, i: int)
    requires
        0 <= i < a.len(),
        i < b.len(),
        a[i] != b[i],
    ensures
        a != b,
{
}

proof fn lemma_shared_literal_facts()
    ensures
        "type"@.len() == 4,
        "name"@.len() == 4,
        "description"@.len() == 11,
        "parameters"@.len() == 10,
        "properties"@.len() == 10,
        "required"@.len() == 8,
        "url"@.len() == 3,
        "function"@.len() == 8,
        "google_search"@.len() == 13,
        "code_execution"@.len() == 14,
        "url_context"@.len() == 11,
        "mcp_server"@.len() == 10,
        "AUTO"@.len() == 4,
        "ANY"@.len() == 3,
        "NONE"@.len() == 4,
        "VALIDATED"@.len() == 9,
        "type"@ != "name"@,
        "AUTO"@ != "NONE"@,
{
    reveal_strlit("type");
    reveal_strlit("name");
    reveal_strlit("description");
    reveal_strlit("parameters");
    reveal_strlit("properties");
    reveal_strlit("required");
    reveal_strlit("url");
    reveal_strlit("function");
    reveal_strlit("google_search");
    reveal_strlit("code_execution");
    reveal_strlit("url_context");
    reveal_strlit("mcp_server");
    reveal_strlit("AUTO");
    reveal_strlit("ANY");
    reveal_strlit("NONE");
    reveal_strlit("VALIDATED");
    assert("type"@.len() == 4);
    assert("name"@.len() == 4);
    assert("description"@.len() == 11);
    assert("parameters"@.len() == 10);
    assert("properties"@.len() == 10);
    assert("required"@.len() == 8);
    assert("url"@.len() == 3);
    assert("function"@.len() == 8);
    assert("google_search"@.len() == 13);
    assert("code_execution"@.len() == 14);
    assert("url_context"@.len() == 11);
    assert("mcp_server"@.len() == 10);
    assert("AUTO"@.len() == 4);
    assert("ANY"@.len() == 3);
    assert("NONE"@.len() == 4);
    assert("VALIDATED"@.len() == 9);
    lemma_differ_at("type"@, "name"@, 0);
    lemma_differ_at("AUTO"@, "NONE"@, 0);
}

/// Decoding the encoding of function parameters gives them back.
pub proof fn lemma_parameters_roundtrip(p: FunctionParametersModel)
    ensures
        parameters_from_json(parameters_json(p)) == Ok::<_, ()>(p),
{
    lemma_shared_literal_facts();
    reveal_with_fuel(crate::json::fields_get, 4);
    let v = parameters_json(p);
    let src = Src::Named(v->Object_0);
    assert(record_src(v) == Some(src));
    if p.required.len() > 0 {
        crate::fields::lemma_strings_roundtrip(p.required);
        assert(dec_default_string_list(src, "required"@, 2) == Ok::<_, ()>(p.required));
    } else {
        assert(p.required =~= Seq::<Seq<char>>::empty());
        assert(dec_default_string_list(src, "required"@, 2) == Ok::<_, ()>(p.required));
    }
}

/// Decoding the encoding of a function declaration gives it back.
pub proof fn lemma_declaration_roundtrip(d: FunctionDeclarationModel)
    ensures
        declaration_from_json(declaration_json(d)) == Ok::<_, ()>(d),
{
    lemma_shared_literal_facts();
    reveal_with_fuel(crate::json::fields_get, 4);
    lemma_parameters_roundtrip(d.parameters);
    let v = declaration_json(d);
    assert(record_src(v) == Some(Src::Named(v->Object_0)));
}

/// Decoding the encoding of a tool gives it back, for every known tool type.
pub proof fn lemma_tool_roundtrip(t: ToolModel)
    requires
        !(t is Unknown),
    ensures
        tool_from_json(tool_json(t)) == t,
{
    lemma_shared_literal_facts();
    reveal_with_fuel(crate::json::fields_get, 5);
    let v = tool_json(t);
    let src = Src::Named(v->Object_0);
    match t {
        ToolModel::Function { name, description, parameters } => {
            lemma_parameters_roundtrip(parameters);
            assert(tool_tag_and_src(v) == Some(("function"@, src)));
        },
        ToolModel::GoogleSearch => {
            assert(tool_tag_and_src(v) == Some(("google_search"@, src)));
        },
        ToolModel::CodeExecution => {
            assert(tool_tag_and_src(v) == Some(("code_execution"@, src)));
        },
        ToolModel::UrlContext => {
            assert(tool_tag_and_src(v) == Some(("url_context"@, src)));
        },
        ToolModel::McpServer { name, url } => {
            assert(tool_tag_and_src(v) == Some(("mcp_server"@, src)));
        },
        _ => {},
    }
}

/// A mode's wire text decodes to a mode with the same wire text; a known
/// mode decodes to itself.
pub proof fn lemma_mode_roundtrip(m: FunctionCallingModeModel)
    ensures
        mode_name(mode_from_json(Json::Str(mode_name(m)), Seq::empty())) == mode_name(m),
        !(m is Unknown) ==> mode_from_json(Json::Str(mode_name(m)), Seq::empty()) == m,
{
    lemma_shared_literal_facts();
}

/// The tool types this library decodes.
pub open spec fn is_known_tool_type(t: Seq<char>) -> bool {
    t == "function"@ || t == "google_search"@ || t == "code_execution"@ || t == "url_context"@
        || t == "mcp_server"@
}

/// A tool of a type this library does not know survives a round trip
/// through JSON: its encoding decodes to an unknown tool of the same type
/// holding that encoding, which encodes to the same JSON again; and when
/// its data is an object that starts with its `type` member and has no
/// other, decoding gives the tool back unchanged.
pub proof fn lemma_unknown_tool_roundtrip(tool_type: Seq<char>, data: Json)
    requires
        !is_known_tool_type(tool_type),
    ensures
        tool_from_json(tool_json(ToolModel::Unknown { tool_type, data })) == (ToolModel::Unknown {
            tool_type,
            data: tool_json(ToolModel::Unknown { tool_type, data }),
        }),
        tool_json(tool_from_json(tool_json(ToolModel::Unknown { tool_type, data })))
            == tool_json(ToolModel::Unknown { tool_type, data }),
        (data matches Json::Object(fs) && fs.len() > 0 && fs[0] == ("type"@, Json::Str(tool_type))
            && without_key(fs.drop_first(), "type"@) == fs.drop_first()) ==> tool_from_json(
            tool_json(ToolModel::Unknown { tool_type, data }),
        ) == (ToolModel::Unknown { tool_type, data }),
{
    lemma_shared_literal_facts();
    reveal_with_fuel(crate::json::fields_get, 2);
    let t = ToolModel::Unknown { tool_type, data };
    let v = tool_json(t);
    let uf = unknown_fields(data);
    let te = type_entry(tool_type);
    assert(v->Object_0 == te + uf);
    assert((te + uf)[0] == ("type"@, Json::Str(tool_type)));
    assert(tool_tag_and_src(v) == Some((tool_type, Src::Named(v->Object_0))));
    assert(known_tool(v) is Err);
    assert(crate::models::content::unknown_type_name(v) == tool_type);
    lemma_without_key_concat(te, uf, "type"@);
    assert(te.drop_last() =~= Seq::<(Seq<char>, Json)>::empty());
    reveal_with_fuel(without_key, 2);
    assert(without_key(te, "type"@) =~= Seq::<(Seq<char>, Json)>::empty());
    match data {
        Json::Object(fields) => {
            lemma_without_key_idempotent(fields, "type"@);
            if fields.len() > 0 && fields[0] == ("type"@, Json::Str(tool_type)) && without_key(
                fields.drop_first(),
                "type"@,
            ) == fields.drop_first() {
                assert(fields =~= te + fields.drop_first());
                lemma_without_key_concat(te, fields.drop_first(), "type"@);
                assert(Seq::<(Seq<char>, Json)>::empty() + fields.drop_first() =~= fields.drop_first());
                assert(te + uf =~= fields);
            }
        },
        Json::Null => {},
        _ => {
            reveal_strlit("data");
            reveal_strlit("type");
            assert("data"@.len() == 4 && "data"@[0] == 'd');
            assert("type"@.len() == 4 && "type"@[0] == 't');
            lemma_differ_at("data"@, "type"@, 0);
            assert(seq![("data"@, data)].drop_last() =~= Seq::<(Seq<char>, Json)>::empty());
        },
    }
    assert(without_key(uf, "type"@) == uf);
    assert(Seq::<(Seq<char>, Json)>::empty() + uf =~= uf);
    assert(unknown_fields(v) == uf);
}

/// A builder after `parameter` calls with each of `params`, in order.
pub open spec fn with_parameters(b: BuilderModel, params: Seq<(Seq<char>, Json)>) -> BuilderModel
    decreases params.len(),
{
    if params.len() == 0 {
        b
    } else {
        let before = with_parameters(b, params.drop_last());
        BuilderModel { properties: json_insert(before.properties, params.last().0, params.last().1), ..before }
    }
}

/// The declaration that `build` gives for a builder.
pub open spec fn built_declaration(b: BuilderModel) -> FunctionDeclarationModel {
    FunctionDeclarationModel {
        name: b.name,
        description: b.description,
        parameters: FunctionParametersModel { type_: "object"@, properties: b.properties, required: b.required },
    }
}

/// The schema the last of `params` named `key` gives, if any does.
pub open spec fn last_schema(params: Seq<(Seq<char>, Json)>, key: Seq<char>) -> Option<Json>
    decreases params.len(),
{
    if params.len() == 0 {
        None
    } else if params.last().0 == key {
        Some(params.last().1)
    } else {
        last_schema(params.drop_last(), key)
    }
}

/// A whole builder chain: `builder(name)`, then `description`, then
/// `parameter` for each of `params` in order, then `required`, then
/// `build`. The declaration has that name and description, an object
/// schema whose property of each name is the last schema given for it (and
/// which has no other), and exactly the required names given; nothing is
/// checked, so a blank name or a required name that is no parameter is kept
/// as it is.
pub proof fn lemma_builder_chain(
    name: Seq<char>,
    description: Seq<char>,
    params: Seq<(Seq<char>, Json)>,
    required: Seq<Seq<char>>,
)
    ensures
        ({
            let b = with_parameters(BuilderModel { description, ..new_builder_model(name) }, params);
            let d = built_declaration(BuilderModel { required, ..b });
            &&& d.name == name
            &&& d.description == description
            &&& d.parameters.type_ == "object"@
            &&& d.parameters.required == required
            &&& d.parameters.properties is Object
            &&& forall|key: Seq<char>| #[trigger] json_get(d.parameters.properties, key) == last_schema(params, key)
        }),
{
    lemma_parameters_chain(BuilderModel { description, ..new_builder_model(name) }, params);
}

proof fn lemma_parameters_chain(b: BuilderModel, params: Seq<(Seq<char>, Json)>)
    requires
        b.properties == Json::Object(Seq::empty()),
    ensures
        with_parameters(b, params).name == b.name,
        with_parameters(b, params).description == b.description,
        with_parameters(b, params).properties is Object,
        forall|key: Seq<char>| #[trigger] json_get(with_parameters(b, params).properties, key) == last_schema(params, key),
    decreases params.len(),
{
    if params.len() > 0 {
        lemma_parameters_chain(b, params.drop_last());
        let before = with_parameters(b, params.drop_last());
        let (k, v) = params.last();
        assert forall|key: Seq<char>| #[trigger] json_get(with_parameters(b, params).properties, key) == last_schema(params, key) by {
            if key == k {
                assert(k.push('x').len() != k.len());
                lemma_json_insert_read(before.properties, k, v, k.push('x'));
            } else {
                lemma_json_insert_read(before.properties, k, v, key);
                assert(json_get(before.properties, key) == last_schema(params.drop_last(), key));
            }
        }
    }
}

/// One more `parameter` call extends the chain: the builder after
/// `params` then `(name, schema)` is the builder after `params` with the
/// property `name` set to `schema`, which is what `parameter` ensures.
pub proof fn lemma_parameter_call(b: BuilderModel, params: Seq<(Seq<char>, Json)>, name: Seq<char>, schema: Json)
    ensures
        with_parameters(b, params.push((name, schema))) == (BuilderModel {
            properties: json_insert(with_parameters(b, params).properties, name, schema),
            ..with_parameters(b, params)
        }),
{
    assert(params.push((name, schema)).drop_last() =~= params);
}

/// `parameter` calls change nothing but the properties, so `description`
/// and `required` may be called before, between or after them with the
/// same result.
pub proof fn lemma_parameters_keep_other_fields(b: BuilderModel, params: Seq<(Seq<char>, Json)>, description: Seq<char>, required: Seq<Seq<char>>)
    ensures
        with_parameters(b, params).name == b.name,
        with_parameters(b, params).description == b.description,
        with_parameters(b, params).required == b.required,
        with_parameters(BuilderModel { description, ..b }, params) == (BuilderModel {
            description,
            ..with_parameters(b, params)
        }),
        with_parameters(BuilderModel { required, ..b }, params) == (BuilderModel {
            required,
            ..with_parameters(b, params)
        }),
    decreases params.len(),
{
    if params.len() > 0 {
        lemma_parameters_keep_other_fields(b, params.drop_last(), description, required);
    }
}

} // verus!
