//! What a function annotated as a tool turns into: the schema type of each
//! parameter type, the names of the generated items, and the description
//! taken from its doc comment.

use vstd::prelude::*;
use vstd::string::*;
use crate::fields::strings_view;
use crate::sse::is_white_space;
use crate::text::{chars_of, join, join_strings, push_char};

verus! {

/// The schema types a parameter can have.
#[derive(Debug, Clone, Copy, PartialEq, Eq)]
pub enum OpenApiKind {
    String,
    Integer,
    Number,
    Boolean,
    Array,
    Object,
}

/// The text without its spaces.
pub open spec fn without_spaces(s: Seq<char>) -> Seq<char>
    decreases s.len(),
{
    if s.len() == 0 {
        Seq::empty()
    } else if s.last() == ' ' {
        without_spaces(s.drop_last())
    } else {
        without_spaces(s.drop_last()).push(s.last())
    }
}

/// The schema type of a Rust type, by the type's text with spaces removed:
/// `String` is a string; the signed and unsigned 32- and 64-bit and
/// pointer-sized integers are integers; `f32` and `f64` are numbers; `bool`
/// is a boolean; `Vec<..>` is an array; anything else (a JSON value
/// included) is an object.
pub open spec fn openapi_kind_of(type_text: Seq<char>) -> OpenApiKind {
    let t = without_spaces(type_text);
    if t == "String"@ {
        OpenApiKind::String
    } else if t == "i32"@ || t == "i64"@ || t == "isize"@ || t == "u32"@ || t == "u64"@ || t == "usize"@ {
        OpenApiKind::Integer
    } else if t == "f32"@ || t == "f64"@ {
        OpenApiKind::Number
    } else if t == "bool"@ {
        OpenApiKind::Boolean
    } else if t.len() >= 5 && t.subrange(0, 4) == "Vec<"@ && t.last() == '>' {
        OpenApiKind::Array
    } else {
        OpenApiKind::Object
    }
}

/// The name of a schema type in a JSON schema.
pub open spec fn kind_name(k: OpenApiKind) -> Seq<char> {
    match k {
        OpenApiKind::String => "string"@,
        OpenApiKind::Integer => "integer"@,
        OpenApiKind::Number => "number"@,
        OpenApiKind::Boolean => "boolean"@,
        OpenApiKind::Array => "array"@,
        OpenApiKind::Object => "object"@,
    }
}

impl OpenApiKind {
    /// The name of this schema type.
    pub fn name(&self) -> (s: &'static str)
        ensures
            s@ == kind_name(*self),
    {
        match self {
            OpenApiKind::String => "string",
            OpenApiKind::Integer => "integer",
            OpenApiKind::Number => "number",
            OpenApiKind::Boolean => "boolean",
            OpenApiKind::Array => "array",
            OpenApiKind::Object => "object",
        }
    }
}

fn strip_spaces(s: &str) -> (r: Vec<char>)
    ensures
        r@ == without_spaces(s@),
{
    let cs = chars_of(s);
    let mut out: Vec<char> = Vec::new();
    let mut i: usize = 0;
    proof {
        assert(cs@.subrange(0, 0) =~= Seq::<char>::empty());
    }
    while i < cs.len()
        invariant
            cs@ == s@,
            i <= cs@.len(),
            out@ == without_spaces(cs@.subrange(0, i as int)),
        decreases cs@.len() - i,
    {
        proof {
            assert(cs@.subrange(0, i + 1).drop_last() =~= cs@.subrange(0, i as int));
        }
        if cs[i] != ' ' {
            out.push(cs[i]);
        }
        i = i + 1;
    }
    proof {
        assert(cs@.subrange(0, cs@.len() as int) =~= cs@);
    }
    out
}

fn chars_eq(v: &Vec<char>, lit: &str) -> (b: bool)
    ensures
        b == (v@ == lit@),
{
    let l = chars_of(lit);
    if v.len() != l.len() {
        return false;
    }
    let mut i: usize = 0;
    while i < v.len()
        invariant
            l@ == lit@,
            v@.len() == l@.len(),
            i <= v@.len(),
            forall|j: int| 0 <= j < i ==> v@[j] == l@[j],
        decreases v@.len() - i,
    {
        if v[i] != l[i] {
            return false;
        }
        i = i + 1;
    }
    proof {
        assert(v@ =~= l@);
    }
    true
}

/// The schema type of a Rust type given by its text.
pub fn openapi_kind(type_text: &str) -> (k: OpenApiKind)
    ensures
        k == openapi_kind_of(type_text@),
{
    let t = strip_spaces(type_text);
    proof {
        reveal_strlit("Vec<");
        assert("Vec<"@.len() == 4);
    }
    if chars_eq(&t, "String") {
        OpenApiKind::String
    } else if chars_eq(&t, "i32") || chars_eq(&t, "i64") || chars_eq(&t, "isize") || chars_eq(&t, "u32")
        || chars_eq(&t, "u64") || chars_eq(&t, "usize") {
        OpenApiKind::Integer
    } else if chars_eq(&t, "f32") || chars_eq(&t, "f64") {
        OpenApiKind::Number
    } else if chars_eq(&t, "bool") {
        OpenApiKind::Boolean
    } else if t.len() >= 5 && t[0] == 'V' && t[1] == 'e' && t[2] == 'c' && t[3] == '<' && t[t.len() - 1] == '>' {
        proof {
            assert(t@.subrange(0, 4) =~= "Vec<"@);
        }
        OpenApiKind::Array
    } else {
        proof {
            if t@.len() >= 5 && t@.subrange(0, 4) == "Vec<"@ {
                assert(t@.subrange(0, 4)[0] == 'V');
                assert(t@.subrange(0, 4)[1] == 'e');
                assert(t@.subrange(0, 4)[2] == 'c');
                assert(t@.subrange(0, 4)[3] == '<');
            }
        }
        OpenApiKind::Object
    }
}

/// The ASCII capital of a lowercase ASCII letter; any other character unchanged.
pub open spec fn ascii_upper(c: char) -> char {
    if 'a' <= c && c <= 'z' {
        ((c as u32) - 32) as char
    } else {
        c
    }
}

/// The name in upper camel case: the underscores dropped and the first
/// character after each (and at the start) capitalized.
pub open spec fn camel_from(s: Seq<char>, capital: bool) -> Seq<char>
    decreases s.len(),
{
    if s.len() == 0 {
        Seq::empty()
    } else if s[0] == '_' {
        camel_from(s.drop_first(), true)
    } else {
        seq![if capital { ascii_upper(s[0]) } else { s[0] }] + camel_from(s.drop_first(), false)
    }
}

/// The name of the callable type generated for a function.
pub open spec fn callable_name(func_name: Seq<char>) -> Seq<char> {
    camel_from(func_name, true) + "Callable"@
}

/// Every character that begins a part of the name (at the start or after an
/// underscore) is ASCII. The first character of a part is split off as its
/// first byte, which for a wider character is no character boundary and
/// panics, so names with such a part are not accepted.
pub open spec fn parts_start_ascii(s: Seq<char>) -> bool {
    forall|i: int|
        0 <= i < s.len() && s[i] != '_' && (i == 0 || s[i - 1] == '_') ==> (#[trigger] s[i] as u32) < 128
}

fn upper_ascii(c: char) -> (r: char)
    ensures
        r == ascii_upper(c),
{
    if 'a' <= c && c <= 'z' {
        let u: u32 = c as u32;
        let d: u8 = (u - 32) as u8;
        d as char
    } else {
        c
    }
}

proof fn lemma_camel_step(s: Seq<char>, i: int, capital: bool)
    requires
        0 <= i < s.len(),
    ensures
        camel_from(s.subrange(i, s.len() as int), capital) == if s[i] == '_' {
            camel_from(s.subrange(i + 1, s.len() as int), true)
        } else {
            seq![if capital { ascii_upper(s[i]) } else { s[i] }] + camel_from(s.subrange(i + 1, s.len() as int), false)
        },
{
    assert(s.subrange(i, s.len() as int).drop_first() =~= s.subrange(i + 1, s.len() as int));
}

/// The name of the callable type generated for a function:
/// `get_weather` gives `GetWeatherCallable`.
pub fn callable_struct_name(func_name: &str) -> (r: String)
    requires
        parts_start_ascii(func_name@),
    ensures
        r@ == callable_name(func_name@),
{
    let cs = chars_of(func_name);
    let mut out = String::new();
    let mut capital = true;
    let mut i: usize = 0;
    proof {
        assert(cs@.subrange(0, cs@.len() as int) =~= cs@);
    }
    while i < cs.len()
        invariant
            cs@ == func_name@,
            i <= cs@.len(),
            out@ + camel_from(cs@.subrange(i as int, cs@.len() as int), capital) == camel_from(cs@, true),
        decreases cs@.len() - i,
    {
        proof {
            lemma_camel_step(cs@, i as int, capital);
        }
        let c = cs[i];
        if c == '_' {
            capital = true;
        } else {
            let ghost before = out@;
            let d = if capital {
                upper_ascii(c)
            } else {
                c
            };
            push_char(&mut out, d);
            capital = false;
            proof {
                assert(before + (seq![d] + camel_from(cs@.subrange(i + 1, cs@.len() as int), false))
                    =~= out@ + camel_from(cs@.subrange(i + 1, cs@.len() as int), false));
            }
        }
        i = i + 1;
    }
    proof {
        assert(cs@.subrange(cs@.len() as int, cs@.len() as int) =~= Seq::<char>::empty());
        assert(out@ + Seq::<char>::empty() =~= out@);
    }
    out.append("Callable");
    out
}

/// The name of the generated function that returns the declaration.
pub fn declaration_fn_name(func_name: &str) -> (r: String)
    ensures
        r@ == func_name@ + "_declaration"@,
{
    let mut r = String::from_str(func_name);
    r.append("_declaration");
    r
}

/// The name of the generated factory of the callable type.
pub fn callable_factory_fn_name(func_name: &str) -> (r: String)
    ensures
        r@ == func_name@ + "_callable_factory"@,
{
    let mut r = String::from_str(func_name);
    r.append("_callable_factory");
    r
}

/// The text without leading and trailing whitespace.
pub open spec fn trim_white(s: Seq<char>) -> Seq<char>
    decreases s.len(),
{
    if s.len() > 0 && is_white_space(s[0]) {
        trim_white(s.drop_first())
    } else if s.len() > 0 && is_white_space(s.last()) {
        trim_white(s.drop_last())
    } else {
        s
    }
}

proof fn lemma_trim_white_window(s: Seq<char>, a: int, b: int)
    requires
        0 <= a <= b <= s.len(),
        forall|j: int| 0 <= j < a ==> is_white_space(#[trigger] s[j]),
        forall|j: int| b <= j < s.len() ==> is_white_space(#[trigger] s[j]),
        a < b ==> !is_white_space(s[a]) && !is_white_space(s[b - 1]),
    ensures
        trim_white(s) == s.subrange(a, b),
    decreases s.len(),
{
    if a > 0 {
        assert(s.drop_first() =~= s.subrange(1, s.len() as int));
        lemma_trim_white_window(s.drop_first(), a - 1, b - 1);
        assert(s.drop_first().subrange(a - 1, b - 1) =~= s.subrange(a, b));
    } else if b < s.len() {
        if s.len() > 0 && is_white_space(s[0]) {
            assert(a == b);
            assert(s.drop_first() =~= s.subrange(1, s.len() as int));
            lemma_trim_white_window(s.drop_first(), 0, 0);
            assert(s.drop_first().subrange(0, 0) =~= s.subrange(a, b));
        } else {
            lemma_trim_white_window(s.drop_last(), a, b);
            assert(s.drop_last().subrange(a, b) =~= s.subrange(a, b));
        }
    } else {
        assert(s.subrange(0, s.len() as int) =~= s);
    }
}

/// A text trimmed of leading and trailing whitespace.
pub fn trimmed(s: &str) -> (r: String)
    ensures
        r@ == trim_white(s@),
{
    let cs = chars_of(s);
    let mut a: usize = 0;
    while a < cs.len() && crate::sse::char_is_white_space(cs[a])
        invariant
            cs@ == s@,
            a <= cs@.len(),
            forall|j: int| 0 <= j < a ==> is_white_space(#[trigger] cs@[j]),
        decreases cs@.len() - a,
    {
        a = a + 1;
    }
    let mut b: usize = cs.len();
    while b > a && crate::sse::char_is_white_space(cs[b - 1])
        invariant
            cs@ == s@,
            a <= b <= cs@.len(),
            forall|j: int| b <= j < cs@.len() ==> is_white_space(#[trigger] cs@[j]),
        decreases b,
    {
        b = b - 1;
    }
    proof {
        lemma_trim_white_window(cs@, a as int, b as int);
    }
    let mut r = String::new();
    let mut i = a;
    while i < b
        invariant
            a <= i <= b <= cs@.len(),
            r@ == cs@.subrange(a as int, i as int),
        decreases b - i,
    {
        push_char(&mut r, cs[i]);
        proof {
            assert(cs@.subrange(a as int, i + 1) =~= cs@.subrange(a as int, i as int).push(cs@[i as int]));
        }
        i = i + 1;
    }
    r
}

/// The description of a tool from the lines of its doc comment: each line
/// trimmed, joined with newlines.
pub open spec fn doc_description_text(lines: Seq<Seq<char>>) -> Seq<char> {
    join(Seq::new(lines.len(), |i: int| trim_white(lines[i])), "\n"@)
}

/// The description of a tool from the lines of its doc comment.
pub fn doc_description(lines: &Vec<String>) -> (r: String)
    ensures
        r@ == doc_description_text(strings_view(lines@)),
{
    let mut parts: Vec<String> = Vec::new();
    let mut i: usize = 0;
    while i < lines.len()
        invariant
            i <= lines@.len(),
            parts@.len() == i,
            forall|j: int| 0 <= j < i ==> parts@[j]@ == trim_white(lines@[j]@),
        decreases lines@.len() - i,
    {
        parts.push(trimmed(lines[i].as_str()));
        i = i + 1;
    }
    proof {
        assert(strings_view(parts@) =~= Seq::new(lines@.len(), |i: int| trim_white(strings_view(lines@)[i])));
    }
    join_strings(&parts, "\n")
}

/// Some parameter referenced in the tool attribute that the function does
/// not have, if there is one: the attribute is then rejected.
pub fn unknown_referenced_param(referenced: &Vec<String>, params: &Vec<String>) -> (r: Option<String>)
    ensures
        r is None <==> forall|i: int| 0 <= i < referenced@.len() ==> strings_view(params@).contains(
            #[trigger] referenced@[i]@,
        ),
        r matches Some(n) ==> strings_view(referenced@).contains(n@) && !strings_view(params@).contains(n@),
{
    let mut i: usize = 0;
    while i < referenced.len()
        invariant
            i <= referenced@.len(),
            forall|k: int| 0 <= k < i ==> strings_view(params@).contains(#[trigger] referenced@[k]@),
        decreases referenced@.len() - i,
    {
        let name = referenced[i].as_str();
        let mut found = false;
        let mut j: usize = 0;
        while j < params.len()
            invariant
                i < referenced@.len(),
                name@ == referenced@[i as int]@,
                j <= params@.len(),
                found <==> exists|k: int| 0 <= k < j && params@[k]@ == name@,
            decreases params@.len() - j,
        {
            if crate::json::str_eq(params[j].as_str(), name) {
                found = true;
            }
            j = j + 1;
        }
        if !found {
            proof {
                assert(strings_view(referenced@)[i as int] == name@);
                if strings_view(params@).contains(name@) {
                    let k = choose|k: int| 0 <= k < strings_view(params@).len() && strings_view(params@)[k] == name@;
                    assert(params@[k]@ == name@);
                }
            }
            return Some(referenced[i].clone());
        }
        proof {
            let k = choose|k: int| 0 <= k < j && params@[k]@ == name@;
            assert(strings_view(params@)[k] == name@);
        }
        i = i + 1;
    }
    None
}

/// The names of the required parameters: those whose type is not an
/// `Option`, in the order of the parameters. Each parameter is given by its
/// name and whether its type is an `Option`.
pub open spec fn required_names(params: Seq<(Seq<char>, bool)>) -> Seq<Seq<char>>
    decreases params.len(),
{
    if params.len() == 0 {
        Seq::empty()
    } else if params.last().1 {
        required_names(params.drop_last())
    } else {
        required_names(params.drop_last()).push(params.last().0)
    }
}

pub open spec fn params_view(v: Seq<(String, bool)>) -> Seq<(Seq<char>, bool)> {
    Seq::new(v.len(), |i: int| (v[i].0@, v[i].1))
}

/// The required parameters of a tool function, from its parameters given
/// by name and whether the type is an `Option`.
pub fn required_params(params: &Vec<(String, bool)>) -> (r: Vec<String>)
    ensures
        strings_view(r@) == required_names(params_view(params@)),
{
    let ghost ps = params_view(params@);
    let mut out: Vec<String> = Vec::new();
    let mut i: usize = 0;
    proof {
        assert(ps.subrange(0, 0) =~= Seq::<(Seq<char>, bool)>::empty());
        assert(strings_view(out@) =~= Seq::<Seq<char>>::empty());
    }
    while i < params.len()
        invariant
            ps == params_view(params@),
            i <= params@.len(),
            strings_view(out@) == required_names(ps.subrange(0, i as int)),
        decreases params@.len() - i,
    {
        proof {
            assert(ps.subrange(0, i + 1).drop_last() =~= ps.subrange(0, i as int));
        }
        let ghost before = out@;
        if !params[i].1 {
            out.push(params[i].0.clone());
            proof {
                assert(strings_view(out@) =~= strings_view(before).push(params@[i as int].0@));
            }
        }
        i = i + 1;
    }
    proof {
        assert(ps.subrange(0, ps.len() as int) =~= ps);
    }
    out
}

/// The schema type of a parameter type (spaces in its text ignored): the
/// integer types `i32`, `i64`, `isize`, `u32`, `u64` and `usize`, and only
/// they, are integers; `f32` and `f64`, and only they, are numbers;
/// `String` is a string and `bool` a boolean.
pub proof fn lemma_schema_kinds(type_text: Seq<char>)
    ensures
        ({
            let t = without_spaces(type_text);
            &&& openapi_kind_of(type_text) == OpenApiKind::Integer <==> (t == "i32"@ || t == "i64"@ || t == "isize"@
                || t == "u32"@ || t == "u64"@ || t == "usize"@)
            &&& openapi_kind_of(type_text) == OpenApiKind::Number <==> (t == "f32"@ || t == "f64"@)
            &&& t == "String"@ ==> openapi_kind_of(type_text) == OpenApiKind::String
            &&& t == "bool"@ ==> openapi_kind_of(type_text) == OpenApiKind::Boolean
        }),
{
    reveal_strlit("String");
    reveal_strlit("i32");
    reveal_strlit("i64");
    reveal_strlit("isize");
    reveal_strlit("u32");
    reveal_strlit("u64");
    reveal_strlit("usize");
    reveal_strlit("f32");
    reveal_strlit("f64");
    reveal_strlit("bool");
    assert("String"@.len() == 6 && "bool"@.len() == 4 && "isize"@.len() == 5 && "usize"@.len() == 5);
    assert("i32"@.len() == 3 && "i64"@.len() == 3 && "u32"@.len() == 3 && "u64"@.len() == 3);
    assert("f32"@.len() == 3 && "f64"@.len() == 3);
    assert("f32"@[0] == 'f' && "f64"@[0] == 'f');
    assert("i32"@[0] == 'i' && "i64"@[0] == 'i' && "u32"@[0] == 'u' && "u64"@[0] == 'u');
}

} // verus!
