//! Responses of the `generateContent` endpoint: candidates made of parts,
//! each part text, a function call or result, generated code or its result.

use vstd::prelude::*;
use vstd::string::*;
use crate::json::{Json, JsonValue, entries_view, object_of, push_entry, push_str_entry, values_view};
use crate::fields::{
    Fields, Src, arity_ok, check_arity, dec_opt_string, dec_string, dec_value, read_opt_string,
    read_string, read_value, record_fields, record_src, src_field, strings_json, strings_to_json,
    strings_view, view_opt_str,
};
use crate::models::metadata::list_from_json;
use crate::models::response::dec_opt_with;

verus! {

/// Code the model generated, with its language.
#[derive(Debug)]
pub struct ExecutableCodeResponse {
    pub language: String,
    pub code: String,
}

/// The outcome and output of running generated code.
#[derive(Debug)]
pub struct CodeExecutionResultResponse {
    pub outcome: String,
    pub output: String,
}

/// A function call the model asks for.
#[derive(Debug)]
pub struct FunctionCallResponse {
    pub name: String,
    pub args: JsonValue,
}

/// The result of a function call.
#[derive(Debug)]
pub struct FunctionResponse {
    pub name: String,
    pub response: JsonValue,
}

/// Two required fields: a pair of strings, or a string and a value.
pub open spec fn pair_from_json(j: Json, a: Seq<char>, b: Seq<char>) -> Result<(Seq<char>, Seq<char>), ()> {
    match record_src(j) {
        None => Err(()),
        Some(src) => if !arity_ok(src, 2) {
            Err(())
        } else {
            match (dec_string(src, a, 0), dec_string(src, b, 1)) {
                (Ok(x), Ok(y)) => Ok((x, y)),
                _ => Err(()),
            }
        },
    }
}

pub open spec fn named_value_from_json(j: Json, a: Seq<char>, b: Seq<char>) -> Result<(Seq<char>, Json), ()> {
    match record_src(j) {
        None => Err(()),
        Some(src) => if !arity_ok(src, 2) {
            Err(())
        } else {
            match (dec_string(src, a, 0), dec_value(src, b, 1)) {
                (Ok(x), Ok(y)) => Ok((x, y)),
                _ => Err(()),
            }
        },
    }
}

/// Decoding of generated code: `language` and `code`.
pub open spec fn code_from_json(j: Json) -> Result<(Seq<char>, Seq<char>), ()> {
    pair_from_json(j, "language"@, "code"@)
}

/// Decoding of a code result: `outcome` and `output`.
pub open spec fn code_result_from_json(j: Json) -> Result<(Seq<char>, Seq<char>), ()> {
    pair_from_json(j, "outcome"@, "output"@)
}

/// Decoding of a function call: `name` and `args`.
pub open spec fn call_from_json(j: Json) -> Result<(Seq<char>, Json), ()> {
    named_value_from_json(j, "name"@, "args"@)
}

/// Decoding of a function result: `name` and `response`.
pub open spec fn function_response_from_json(j: Json) -> Result<(Seq<char>, Json), ()> {
    named_value_from_json(j, "name"@, "response"@)
}

fn read_pair(v: &JsonValue, a: &str, b: &str) -> (r: Result<(String, String), ()>)
    ensures
        match r {
            Ok((x, y)) => pair_from_json(v@, a@, b@) == Ok::<_, ()>((x@, y@)),
            Err(_) => pair_from_json(v@, a@, b@) is Err,
        },
{
    let f = match record_fields(v) {
        Some(f) => f,
        None => return Err(()),
    };
    if !check_arity(&f, 2) {
        return Err(());
    }
    match (read_string(&f, a, 0), read_string(&f, b, 1)) {
        (Ok(x), Ok(y)) => Ok((x, y)),
        _ => Err(()),
    }
}

fn read_named_value(v: &JsonValue, a: &str, b: &str) -> (r: Result<(String, JsonValue), ()>)
    ensures
        match r {
            Ok((x, y)) => named_value_from_json(v@, a@, b@) == Ok::<_, ()>((x@, y@)),
            Err(_) => named_value_from_json(v@, a@, b@) is Err,
        },
{
    let f = match record_fields(v) {
        Some(f) => f,
        None => return Err(()),
    };
    if !check_arity(&f, 2) {
        return Err(());
    }
    match (read_string(&f, a, 0), read_value(&f, b, 1)) {
        (Ok(x), Ok(y)) => Ok((x, y)),
        _ => Err(()),
    }
}

impl ExecutableCodeResponse {
    pub fn from_json(v: &JsonValue) -> (r: Result<ExecutableCodeResponse, ()>)
        ensures
            match r {
                Ok(c) => code_from_json(v@) == Ok::<_, ()>((c.language@, c.code@)),
                Err(_) => code_from_json(v@) is Err,
            },
    {
        match read_pair(v, "language", "code") {
            Ok((language, code)) => Ok(ExecutableCodeResponse { language, code }),
            Err(_) => Err(()),
        }
    }
}

impl CodeExecutionResultResponse {
    pub fn from_json(v: &JsonValue) -> (r: Result<CodeExecutionResultResponse, ()>)
        ensures
            match r {
                Ok(c) => code_result_from_json(v@) == Ok::<_, ()>((c.outcome@, c.output@)),
                Err(_) => code_result_from_json(v@) is Err,
            },
    {
        match read_pair(v, "outcome", "output") {
            Ok((outcome, output)) => Ok(CodeExecutionResultResponse { outcome, output }),
            Err(_) => Err(()),
        }
    }
}

impl FunctionCallResponse {
    pub fn from_json(v: &JsonValue) -> (r: Result<FunctionCallResponse, ()>)
        ensures
            match r {
                Ok(c) => call_from_json(v@) == Ok::<_, ()>((c.name@, c.args@)),
                Err(_) => call_from_json(v@) is Err,
            },
    {
        match read_named_value(v, "name", "args") {
            Ok((name, args)) => Ok(FunctionCallResponse { name, args }),
            Err(_) => Err(()),
        }
    }
}

impl FunctionResponse {
    pub fn from_json(v: &JsonValue) -> (r: Result<FunctionResponse, ()>)
        ensures
            match r {
                Ok(c) => function_response_from_json(v@) == Ok::<_, ()>((c.name@, c.response@)),
                Err(_) => function_response_from_json(v@) is Err,
            },
    {
        match read_named_value(v, "name", "response") {
            Ok((name, response)) => Ok(FunctionResponse { name, response }),
            Err(_) => Err(()),
        }
    }
}

/// One part of a candidate's content; every member may be absent.
#[derive(Debug)]
pub struct PartResponse {
    pub text: Option<String>,
    pub function_call: Option<FunctionCallResponse>,
    pub function_response: Option<FunctionResponse>,
    pub executable_code: Option<ExecutableCodeResponse>,
    pub code_execution_result: Option<CodeExecutionResultResponse>,
    pub thought_signature: Option<String>,
}

pub struct PartModel {
    pub text: Option<Seq<char>>,
    pub function_call: Option<(Seq<char>, Json)>,
    pub function_response: Option<(Seq<char>, Json)>,
    pub executable_code: Option<(Seq<char>, Seq<char>)>,
    pub code_execution_result: Option<(Seq<char>, Seq<char>)>,
    pub thought_signature: Option<Seq<char>>,
}

impl View for PartResponse {
    type V = PartModel;

    open spec fn view(&self) -> PartModel {
        PartModel {
            text: view_opt_str(self.text),
            function_call: match self.function_call {
                Some(c) => Some((c.name@, c.args@)),
                None => None,
            },
            function_response: match self.function_response {
                Some(c) => Some((c.name@, c.response@)),
                None => None,
            },
            executable_code: match self.executable_code {
                Some(c) => Some((c.language@, c.code@)),
                None => None,
            },
            code_execution_result: match self.code_execution_result {
                Some(c) => Some((c.outcome@, c.output@)),
                None => None,
            },
            thought_signature: view_opt_str(self.thought_signature),
        }
    }
}

/// Decoding of a part; the keys are `text`, `functionCall`,
/// `function_response`, `executableCode`, `codeExecutionResult` and
/// `thoughtSignature`.
pub open spec fn part_from_json(j: Json) -> Result<PartModel, ()> {
    match record_src(j) {
        None => Err(()),
        Some(src) => if !arity_ok(src, 6) {
            Err(())
        } else {
            match (
                dec_opt_string(src, "text"@, 0),
                dec_opt_with(src, "functionCall"@, 1, |c: Json| call_from_json(c)),
                dec_opt_with(src, "function_response"@, 2, |c: Json| function_response_from_json(c)),
                dec_opt_with(src, "executableCode"@, 3, |c: Json| code_from_json(c)),
                dec_opt_with(src, "codeExecutionResult"@, 4, |c: Json| code_result_from_json(c)),
                dec_opt_string(src, "thoughtSignature"@, 5),
            ) {
                (Ok(text), Ok(function_call), Ok(function_response), Ok(executable_code), Ok(code_execution_result), Ok(
                    thought_signature,
                )) => Ok(
                    PartModel {
                        text,
                        function_call,
                        function_response,
                        executable_code,
                        code_execution_result,
                        thought_signature,
                    },
                ),
                _ => Err(()),
            }
        },
    }
}

/// An optional field without a default, as a reference to its value.
fn opt_member<'a>(f: &Fields<'a>, name: &str, pos: usize) -> (r: Result<Option<&'a JsonValue>, ()>)
    ensures
        match r {
            Ok(Some(v)) => src_field(f.src(), name@, pos as int) == Some(v@) && !(v@ is Null),
            Ok(None) => (src_field(f.src(), name@, pos as int) is None && f.src() is Named)
                || src_field(f.src(), name@, pos as int) == Some(Json::Null),
            Err(_) => src_field(f.src(), name@, pos as int) is None && f.src() is Positional,
        },
{
    match f.field(name, pos) {
        None => if f.is_positional() {
            Err(())
        } else {
            Ok(None)
        },
        Some(JsonValue::Null) => Ok(None),
        Some(v) => Ok(Some(v)),
    }
}

impl PartResponse {
    pub fn from_json(v: &JsonValue) -> (r: Result<PartResponse, ()>)
        ensures
            match r {
                Ok(p) => part_from_json(v@) == Ok::<_, ()>(p@),
                Err(_) => part_from_json(v@) is Err,
            },
    {
        let f = match record_fields(v) {
            Some(f) => f,
            None => return Err(()),
        };
        if !check_arity(&f, 6) {
            return Err(());
        }
        let text = match read_opt_string(&f, "text", 0) {
            Ok(t) => t,
            Err(_) => return Err(()),
        };
        let function_call = match opt_member(&f, "functionCall", 1) {
            Ok(Some(x)) => match FunctionCallResponse::from_json(x) {
                Ok(c) => Some(c),
                Err(_) => return Err(()),
            },
            Ok(None) => None,
            Err(_) => return Err(()),
        };
        let function_response = match opt_member(&f, "function_response", 2) {
            Ok(Some(x)) => match FunctionResponse::from_json(x) {
                Ok(c) => Some(c),
                Err(_) => return Err(()),
            },
            Ok(None) => None,
            Err(_) => return Err(()),
        };
        let executable_code = match opt_member(&f, "executableCode", 3) {
            Ok(Some(x)) => match ExecutableCodeResponse::from_json(x) {
                Ok(c) => Some(c),
                Err(_) => return Err(()),
            },
            Ok(None) => None,
            Err(_) => return Err(()),
        };
        let code_execution_result = match opt_member(&f, "codeExecutionResult", 4) {
            Ok(Some(x)) => match CodeExecutionResultResponse::from_json(x) {
                Ok(c) => Some(c),
                Err(_) => return Err(()),
            },
            Ok(None) => None,
            Err(_) => return Err(()),
        };
        let thought_signature = match read_opt_string(&f, "thoughtSignature", 5) {
            Ok(t) => t,
            Err(_) => return Err(()),
        };
        Ok(PartResponse { text, function_call, function_response, executable_code, code_execution_result, thought_signature })
    }
}

/// A candidate's content: its parts and the role that produced them.
#[derive(Debug)]
pub struct ContentResponse {
    pub parts: Vec<PartResponse>,
    pub role: String,
}

/// One candidate answer.
#[derive(Debug)]
pub struct Candidate {
    pub content: ContentResponse,
}

/// The answer of `generateContent`: its candidates.
#[derive(Debug)]
pub struct GenerateContentResponse {
    pub candidates: Vec<Candidate>,
}

pub open spec fn parts_view(v: Seq<PartResponse>) -> Seq<PartModel> {
    Seq::new(v.len(), |i: int| v[i]@)
}

/// The mathematical form of a candidate's content.
pub struct ContentResponseModel {
    pub parts: Seq<PartModel>,
    pub role: Seq<char>,
}

pub open spec fn content_response_view(c: ContentResponse) -> ContentResponseModel {
    ContentResponseModel { parts: parts_view(c.parts@), role: c.role@ }
}

pub open spec fn candidates_view(v: Seq<Candidate>) -> Seq<ContentResponseModel> {
    Seq::new(v.len(), |i: int| content_response_view(v[i].content))
}

/// A required list field, decoded item by item.
pub open spec fn dec_list<T>(src: Src, name: Seq<char>, pos: int, dec: spec_fn(Json) -> Result<T, ()>) -> Result<Seq<T>, ()> {
    match src_field(src, name, pos) {
        Some(Json::Array(items)) => list_from_json(items, dec),
        _ => Err(()),
    }
}

/// Decoding of a candidate's content: required `parts` and `role`.
pub open spec fn content_response_from_json(j: Json) -> Result<ContentResponseModel, ()> {
    match record_src(j) {
        None => Err(()),
        Some(src) => if !arity_ok(src, 2) {
            Err(())
        } else {
            match (dec_list(src, "parts"@, 0, |p: Json| part_from_json(p)), dec_string(src, "role"@, 1)) {
                (Ok(parts), Ok(role)) => Ok(ContentResponseModel { parts, role }),
                _ => Err(()),
            }
        },
    }
}

/// Decoding of a candidate: its required `content`.
pub open spec fn candidate_from_json(j: Json) -> Result<ContentResponseModel, ()> {
    match record_src(j) {
        None => Err(()),
        Some(src) => if !arity_ok(src, 1) {
            Err(())
        } else {
            match src_field(src, "content"@, 0) {
                Some(c) => content_response_from_json(c),
                None => Err(()),
            }
        },
    }
}

/// Decoding of a response: its required `candidates`.
pub open spec fn generate_response_from_json(j: Json) -> Result<Seq<ContentResponseModel>, ()> {
    match record_src(j) {
        None => Err(()),
        Some(src) => if !arity_ok(src, 1) {
            Err(())
        } else {
            dec_list(src, "candidates"@, 0, |c: Json| candidate_from_json(c))
        },
    }
}

proof fn lemma_list_error_extends<T>(items: Seq<Json>, dec: spec_fn(Json) -> Result<T, ()>, i: int)
    requires
        0 <= i < items.len(),
        dec(items[i]) is Err,
    ensures
        list_from_json(items, dec) is Err,
    decreases items.len(),
{
    if i < items.len() - 1 {
        lemma_list_error_extends(items.drop_last(), dec, i);
    }
}

fn read_parts(f: &Fields, name: &str, pos: usize) -> (r: Result<Vec<PartResponse>, ()>)
    ensures
        match r {
            Ok(v) => dec_list(f.src(), name@, pos as int, |p: Json| part_from_json(p)) == Ok::<_, ()>(parts_view(v@)),
            Err(_) => dec_list(f.src(), name@, pos as int, |p: Json| part_from_json(p)) is Err,
        },
{
    let ghost dec = |p: Json| part_from_json(p);
    match f.field(name, pos) {
        Some(JsonValue::Array(items)) => {
            let ghost iv = values_view(items@);
            proof {
                crate::json::lemma_array_view(*items);
                assert(iv.subrange(0, 0) =~= Seq::<Json>::empty());
            }
            let mut out: Vec<PartResponse> = Vec::new();
            proof {
                assert(parts_view(out@) =~= Seq::<PartModel>::empty());
            }
            let mut i: usize = 0;
            while i < items.len()
                invariant
                    iv == values_view(items@),
                    src_field(f.src(), name@, pos as int) == Some(Json::Array(iv)),
                    dec == (|p: Json| part_from_json(p)),
                    i <= items@.len(),
                    list_from_json(iv.subrange(0, i as int), dec) == Ok::<_, ()>(parts_view(out@)),
                decreases items@.len() - i,
            {
                proof {
                    assert(iv.subrange(0, i + 1).drop_last() =~= iv.subrange(0, i as int));
                }
                match PartResponse::from_json(&items[i]) {
                    Ok(p) => {
                        let ghost before = out@;
                        out.push(p);
                        proof {
                            assert(parts_view(out@) =~= parts_view(before).push(p@));
                        }
                    },
                    Err(_) => {
                        proof {
                            assert(iv[i as int] == items@[i as int]@);
                            lemma_list_error_extends(iv, dec, i as int);
                        }
                        return Err(());
                    },
                }
                i = i + 1;
            }
            proof {
                assert(iv.subrange(0, items@.len() as int) =~= iv);
            }
            Ok(out)
        },
        _ => Err(()),
    }
}

impl ContentResponse {
    pub fn from_json(v: &JsonValue) -> (r: Result<ContentResponse, ()>)
        ensures
            match r {
                Ok(c) => content_response_from_json(v@) == Ok::<_, ()>(content_response_view(c)),
                Err(_) => content_response_from_json(v@) is Err,
            },
    {
        let f = match record_fields(v) {
            Some(f) => f,
            None => return Err(()),
        };
        if !check_arity(&f, 2) {
            return Err(());
        }
        match (read_parts(&f, "parts", 0), read_string(&f, "role", 1)) {
            (Ok(parts), Ok(role)) => Ok(ContentResponse { parts, role }),
            _ => Err(()),
        }
    }
}

impl Candidate {
    pub fn from_json(v: &JsonValue) -> (r: Result<Candidate, ()>)
        ensures
            match r {
                Ok(c) => candidate_from_json(v@) == Ok::<_, ()>(content_response_view(c.content)),
                Err(_) => candidate_from_json(v@) is Err,
            },
    {
        let f = match record_fields(v) {
            Some(f) => f,
            None => return Err(()),
        };
        if !check_arity(&f, 1) {
            return Err(());
        }
        match f.field("content", 0) {
            Some(c) => match ContentResponse::from_json(c) {
                Ok(content) => Ok(Candidate { content }),
                Err(_) => Err(()),
            },
            None => Err(()),
        }
    }
}

impl GenerateContentResponse {
    pub fn from_json(v: &JsonValue) -> (r: Result<GenerateContentResponse, ()>)
        ensures
            match r {
                Ok(g) => generate_response_from_json(v@) == Ok::<_, ()>(candidates_view(g.candidates@)),
                Err(_) => generate_response_from_json(v@) is Err,
            },
    {
        let f = match record_fields(v) {
            Some(f) => f,
            None => return Err(()),
        };
        if !check_arity(&f, 1) {
            return Err(());
        }
        let ghost dec = |c: Json| candidate_from_json(c);
        match f.field("candidates", 0) {
            Some(JsonValue::Array(items)) => {
                let ghost iv = values_view(items@);
                proof {
                    crate::json::lemma_array_view(*items);
                    assert(iv.subrange(0, 0) =~= Seq::<Json>::empty());
                }
                let mut out: Vec<Candidate> = Vec::new();
                proof {
                    assert(candidates_view(out@) =~= Seq::<ContentResponseModel>::empty());
                }
                let mut i: usize = 0;
                while i < items.len()
                    invariant
                        iv == values_view(items@),
                        src_field(f.src(), "candidates"@, 0) == Some(Json::Array(iv)),
                        record_src(v@) == Some(f.src()),
                        arity_ok(f.src(), 1),
                        dec == (|c: Json| candidate_from_json(c)),
                        i <= items@.len(),
                        list_from_json(iv.subrange(0, i as int), dec) == Ok::<_, ()>(candidates_view(out@)),
                    decreases items@.len() - i,
                {
                    proof {
                        assert(iv.subrange(0, i + 1).drop_last() =~= iv.subrange(0, i as int));
                    }
                    match Candidate::from_json(&items[i]) {
                        Ok(c) => {
                            let ghost before = out@;
                            let ghost cv = content_response_view(c.content);
                            out.push(c);
                            proof {
                                assert(candidates_view(out@) =~= candidates_view(before).push(cv));
                            }
                        },
                        Err(_) => {
                            proof {
                                assert(iv[i as int] == items@[i as int]@);
                                lemma_list_error_extends(iv, dec, i as int);
                            }
                            return Err(());
                        },
                    }
                    i = i + 1;
                }
                proof {
                    assert(iv.subrange(0, items@.len() as int) =~= iv);
                }
                Ok(GenerateContentResponse { candidates: out })
            },
            _ => Err(()),
        }
    }
}

/// A function call in a request: the function's name and its arguments.
#[derive(Debug)]
pub struct FunctionCall {
    pub name: String,
    pub args: JsonValue,
}

/// One part of a request's content: text, a function call or a function
/// result, each when present.
#[derive(Debug)]
pub struct Part {
    pub text: Option<String>,
    pub function_call: Option<FunctionCall>,
    pub function_response: Option<FunctionResponse>,
}

/// Content of a request: its parts and, optionally, the role that wrote them.
#[derive(Debug)]
pub struct Content {
    pub parts: Vec<Part>,
    pub role: Option<String>,
}

/// The parameters of a declared function: a schema type, its properties and
/// the names of the required ones.
#[derive(Debug)]
pub struct FunctionParameters {
    pub type_: String,
    pub properties: JsonValue,
    pub required: Vec<String>,
}

/// A function the model may call.
#[derive(Debug)]
pub struct FunctionDeclaration {
    pub name: String,
    pub description: String,
    pub parameters: FunctionParameters,
}

/// A set of function declarations.
#[derive(Debug)]
pub struct Tool {
    pub function_declarations: Vec<FunctionDeclaration>,
}

/// How the model may call functions (`AUTO`, `ANY` or `NONE`).
#[derive(Debug, Clone, Copy, PartialEq, Eq)]
pub enum FunctionCallingMode {
    Auto,
    Any,
    NoCalls,
}

/// Function calling settings: the mode and, optionally, the functions allowed.
#[derive(Debug)]
pub struct FunctionCallingConfig {
    pub mode: FunctionCallingMode,
    pub allowed_function_names: Option<Vec<String>>,
}

/// Tool settings of a request.
#[derive(Debug)]
pub struct ToolConfig {
    pub function_calling_config: Option<FunctionCallingConfig>,
}

/// A `generateContent` request: the conversation, an optional system
/// instruction and optional tools.
#[derive(Debug)]
pub struct GenerateContentRequest {
    pub contents: Vec<Content>,
    pub system_instruction: Option<Content>,
    pub tools: Option<Vec<Tool>>,
}

/// The entry `key: v` when present, nothing otherwise.
pub open spec fn member_if(key: Seq<char>, o: Option<Json>) -> Seq<(Seq<char>, Json)> {
    match o {
        Some(v) => seq![(key, v)],
        None => Seq::empty(),
    }
}

pub open spec fn call_json(c: FunctionCall) -> Json {
    Json::Object(seq![("name"@, Json::Str(c.name@)), ("args"@, c.args@)])
}

pub open spec fn function_response_json(c: FunctionResponse) -> Json {
    Json::Object(seq![("name"@, Json::Str(c.name@)), ("response"@, c.response@)])
}

/// A part: its present members.
pub open spec fn part_json(p: Part) -> Json {
    Json::Object(
        member_if("text"@, match p.text {
            Some(t) => Some(Json::Str(t@)),
            None => None,
        }) + member_if("function_call"@, match p.function_call {
            Some(c) => Some(call_json(c)),
            None => None,
        }) + member_if("function_response"@, match p.function_response {
            Some(c) => Some(function_response_json(c)),
            None => None,
        }),
    )
}

/// Content: its parts, and its role when present.
pub open spec fn content_json_of(c: Content) -> Json {
    Json::Object(
        seq![("parts"@, Json::Array(Seq::new(c.parts@.len(), |i: int| part_json(c.parts@[i]))))]
            + member_if("role"@, match c.role {
            Some(r) => Some(Json::Str(r@)),
            None => None,
        }),
    )
}

/// Parameters: `type`, `properties`, and `required` unless it is empty.
pub open spec fn parameters_json_of(p: FunctionParameters) -> Json {
    Json::Object(
        seq![("type"@, Json::Str(p.type_@)), ("properties"@, p.properties@)] + if p.required@.len() == 0 {
            Seq::empty()
        } else {
            seq![("required"@, strings_json(strings_view(p.required@)))]
        },
    )
}

pub open spec fn declaration_json_of(d: FunctionDeclaration) -> Json {
    Json::Object(
        seq![
            ("name"@, Json::Str(d.name@)),
            ("description"@, Json::Str(d.description@)),
            ("parameters"@, parameters_json_of(d.parameters)),
        ],
    )
}

pub open spec fn tool_json_of(t: Tool) -> Json {
    Json::Object(
        seq![(
            "function_declarations"@,
            Json::Array(
                Seq::new(t.function_declarations@.len(), |i: int| declaration_json_of(t.function_declarations@[i])),
            ),
        )],
    )
}

pub open spec fn calling_mode_name(m: FunctionCallingMode) -> Seq<char> {
    match m {
        FunctionCallingMode::Auto => "AUTO"@,
        FunctionCallingMode::Any => "ANY"@,
        FunctionCallingMode::NoCalls => "NONE"@,
    }
}

pub open spec fn calling_config_json(c: FunctionCallingConfig) -> Json {
    Json::Object(
        seq![("mode"@, Json::Str(calling_mode_name(c.mode)))] + member_if(
            "allowed_function_names"@,
            match c.allowed_function_names {
                Some(n) => Some(strings_json(strings_view(n@))),
                None => None,
            },
        ),
    )
}

pub open spec fn tool_config_json(t: ToolConfig) -> Json {
    Json::Object(
        member_if("function_calling_config"@, match t.function_calling_config {
            Some(c) => Some(calling_config_json(c)),
            None => None,
        }),
    )
}

/// A request: `contents`, and `system_instruction` and `tools` when present.
pub open spec fn request_json(r: GenerateContentRequest) -> Json {
    Json::Object(
        seq![("contents"@, Json::Array(Seq::new(r.contents@.len(), |i: int| content_json_of(r.contents@[i]))))]
            + member_if("system_instruction"@, match r.system_instruction {
            Some(c) => Some(content_json_of(c)),
            None => None,
        }) + member_if("tools"@, match r.tools {
            Some(t) => Some(Json::Array(Seq::new(t@.len(), |i: int| tool_json_of(t@[i])))),
            None => None,
        }),
    )
}

fn push_opt_member(e: &mut Vec<(String, JsonValue)>, key: &str, o: Option<JsonValue>)
    ensures
        entries_view(final(e)@) == entries_view(old(e)@) + member_if(key@, match o {
            Some(v) => Some(v@),
            None => None,
        }),
{
    match o {
        Some(v) => push_entry(e, key, v),
        None => {
            proof {
                assert(entries_view(e@) =~= entries_view(e@) + Seq::<(Seq<char>, Json)>::empty());
            }
        },
    }
}

impl FunctionCall {
    pub fn to_json(&self) -> (r: JsonValue)
        ensures
            r@ == call_json(*self),
    {
        let mut e: Vec<(String, JsonValue)> = Vec::new();
        push_str_entry(&mut e, "name", self.name.as_str());
        push_entry(&mut e, "args", self.args.deep_clone());
        proof {
            assert(entries_view(e@) =~= call_json(*self)->Object_0);
        }
        object_of(e)
    }
}

impl FunctionResponse {
    pub fn to_json(&self) -> (r: JsonValue)
        ensures
            r@ == function_response_json(*self),
    {
        let mut e: Vec<(String, JsonValue)> = Vec::new();
        push_str_entry(&mut e, "name", self.name.as_str());
        push_entry(&mut e, "response", self.response.deep_clone());
        proof {
            assert(entries_view(e@) =~= function_response_json(*self)->Object_0);
        }
        object_of(e)
    }
}

impl Part {
    pub fn to_json(&self) -> (r: JsonValue)
        ensures
            r@ == part_json(*self),
    {
        let mut e: Vec<(String, JsonValue)> = Vec::new();
        proof {
            assert(entries_view(e@) =~= Seq::<(Seq<char>, Json)>::empty());
        }
        let text = match &self.text {
            Some(t) => Some(JsonValue::String(t.clone())),
            None => None,
        };
        push_opt_member(&mut e, "text", text);
        let call = match &self.function_call {
            Some(c) => Some(c.to_json()),
            None => None,
        };
        push_opt_member(&mut e, "function_call", call);
        let response = match &self.function_response {
            Some(c) => Some(c.to_json()),
            None => None,
        };
        push_opt_member(&mut e, "function_response", response);
        proof {
            assert(entries_view(e@) =~= part_json(*self)->Object_0);
        }
        object_of(e)
    }
}

impl Content {
    pub fn to_json(&self) -> (r: JsonValue)
        ensures
            r@ == content_json_of(*self),
    {
        let mut items: Vec<JsonValue> = Vec::new();
        let mut i: usize = 0;
        while i < self.parts.len()
            invariant
                i <= self.parts@.len(),
                items@.len() == i,
                forall|j: int| 0 <= j < i ==> items@[j]@ == part_json(self.parts@[j]),
            decreases self.parts@.len() - i,
        {
            items.push(self.parts[i].to_json());
            i = i + 1;
        }
        proof {
            crate::json::lemma_array_view(items);
            assert(values_view(items@) =~= Seq::new(self.parts@.len(), |i: int| part_json(self.parts@[i])));
        }
        let mut e: Vec<(String, JsonValue)> = Vec::new();
        push_entry(&mut e, "parts", crate::json::array_of(items));
        let role = match &self.role {
            Some(r) => Some(JsonValue::String(r.clone())),
            None => None,
        };
        push_opt_member(&mut e, "role", role);
        proof {
            assert(entries_view(e@) =~= content_json_of(*self)->Object_0);
        }
        object_of(e)
    }
}

impl FunctionParameters {
    pub fn to_json(&self) -> (r: JsonValue)
        ensures
            r@ == parameters_json_of(*self),
    {
        let mut e: Vec<(String, JsonValue)> = Vec::new();
        push_str_entry(&mut e, "type", self.type_.as_str());
        push_entry(&mut e, "properties", self.properties.deep_clone());
        if self.required.len() > 0 {
            push_entry(&mut e, "required", strings_to_json(&self.required));
        }
        proof {
            assert(entries_view(e@) =~= parameters_json_of(*self)->Object_0);
        }
        object_of(e)
    }
}

impl FunctionDeclaration {
    pub fn to_json(&self) -> (r: JsonValue)
        ensures
            r@ == declaration_json_of(*self),
    {
        let mut e: Vec<(String, JsonValue)> = Vec::new();
        push_str_entry(&mut e, "name", self.name.as_str());
        push_str_entry(&mut e, "description", self.description.as_str());
        push_entry(&mut e, "parameters", self.parameters.to_json());
        proof {
            assert(entries_view(e@) =~= declaration_json_of(*self)->Object_0);
        }
        object_of(e)
    }
}

impl Tool {
    pub fn to_json(&self) -> (r: JsonValue)
        ensures
            r@ == tool_json_of(*self),
    {
        let mut items: Vec<JsonValue> = Vec::new();
        let mut i: usize = 0;
        while i < self.function_declarations.len()
            invariant
                i <= self.function_declarations@.len(),
                items@.len() == i,
                forall|j: int| 0 <= j < i ==> items@[j]@ == declaration_json_of(self.function_declarations@[j]),
            decreases self.function_declarations@.len() - i,
        {
            items.push(self.function_declarations[i].to_json());
            i = i + 1;
        }
        proof {
            crate::json::lemma_array_view(items);
            assert(values_view(items@) =~= Seq::new(
                self.function_declarations@.len(),
                |i: int| declaration_json_of(self.function_declarations@[i]),
            ));
        }
        let mut e: Vec<(String, JsonValue)> = Vec::new();
        push_entry(&mut e, "function_declarations", crate::json::array_of(items));
        proof {
            assert(entries_view(e@) =~= tool_json_of(*self)->Object_0);
        }
        object_of(e)
    }
}

impl FunctionCallingConfig {
    pub fn to_json(&self) -> (r: JsonValue)
        ensures
            r@ == calling_config_json(*self),
    {
        let mode = match self.mode {
            FunctionCallingMode::Auto => "AUTO",
            FunctionCallingMode::Any => "ANY",
            FunctionCallingMode::NoCalls => "NONE",
        };
        let mut e: Vec<(String, JsonValue)> = Vec::new();
        push_str_entry(&mut e, "mode", mode);
        let names = match &self.allowed_function_names {
            Some(n) => Some(strings_to_json(n)),
            None => None,
        };
        push_opt_member(&mut e, "allowed_function_names", names);
        proof {
            assert(entries_view(e@) =~= calling_config_json(*self)->Object_0);
        }
        object_of(e)
    }
}

impl ToolConfig {
    pub fn to_json(&self) -> (r: JsonValue)
        ensures
            r@ == tool_config_json(*self),
    {
        let mut e: Vec<(String, JsonValue)> = Vec::new();
        proof {
            assert(entries_view(e@) =~= Seq::<(Seq<char>, Json)>::empty());
        }
        let c = match &self.function_calling_config {
            Some(c) => Some(c.to_json()),
            None => None,
        };
        push_opt_member(&mut e, "function_calling_config", c);
        proof {
            assert(entries_view(e@) =~= tool_config_json(*self)->Object_0);
        }
        object_of(e)
    }
}

impl GenerateContentRequest {
    pub fn to_json(&self) -> (r: JsonValue)
        ensures
            r@ == request_json(*self),
    {
        let mut items: Vec<JsonValue> = Vec::new();
        let mut i: usize = 0;
        while i < self.contents.len()
            invariant
                i <= self.contents@.len(),
                items@.len() == i,
                forall|j: int| 0 <= j < i ==> items@[j]@ == content_json_of(self.contents@[j]),
            decreases self.contents@.len() - i,
        {
            items.push(self.contents[i].to_json());
            i = i + 1;
        }
        proof {
            crate::json::lemma_array_view(items);
            assert(values_view(items@) =~= Seq::new(self.contents@.len(), |i: int| content_json_of(self.contents@[i])));
        }
        let mut e: Vec<(String, JsonValue)> = Vec::new();
        push_entry(&mut e, "contents", crate::json::array_of(items));
        let system = match &self.system_instruction {
            Some(c) => Some(c.to_json()),
            None => None,
        };
        push_opt_member(&mut e, "system_instruction", system);
        let tools = match &self.tools {
            Some(t) => {
                let mut ts: Vec<JsonValue> = Vec::new();
                let mut k: usize = 0;
                while k < t.len()
                    invariant
                        k <= t@.len(),
                        ts@.len() == k,
                        forall|j: int| 0 <= j < k ==> ts@[j]@ == tool_json_of(t@[j]),
                    decreases t@.len() - k,
                {
                    ts.push(t[k].to_json());
                    k = k + 1;
                }
                proof {
                    crate::json::lemma_array_view(ts);
                    assert(values_view(ts@) =~= Seq::new(t@.len(), |i: int| tool_json_of(t@[i])));
                }
                Some(crate::json::array_of(ts))
            },
            None => None,
        };
        push_opt_member(&mut e, "tools", tools);
        proof {
            assert(entries_view(e@) =~= request_json(*self)->Object_0);
        }
        object_of(e)
    }
}

} // verus!
