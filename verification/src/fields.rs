//! Readers for the fields of a record encoded in JSON.
//!
//! A record arrives either as an object, whose fields are found by name, or as
//! an array, whose fields are found by position. A field that is absent is
//! accepted as `None` only where the record allows it: by name for optional
//! fields, in both forms for fields that have a default.

use vstd::prelude::*;
use vstd::string::*;
use crate::json::{Json, JsonNumber, JsonValue, Num, entries_view, fields_get, lookup_entry, values_view};

verus! {

/// The fields of a record: by name, or by position.
pub enum Src {
    Named(Seq<(Seq<char>, Json)>),
    Positional(Seq<Json>),
}

/// The field `name`, at position `pos` in the positional form.
pub open spec fn src_field(src: Src, name: Seq<char>, pos: int) -> Option<Json> {
    match src {
        Src::Named(fields) => fields_get(fields, name),
        Src::Positional(items) => if 0 <= pos < items.len() {
            Some(items[pos])
        } else {
            None
        },
    }
}

/// A field of type `Option<String>` without a default.
pub open spec fn dec_opt_string(src: Src, name: Seq<char>, pos: int) -> Result<Option<Seq<char>>, ()> {
    match src_field(src, name, pos) {
        None => if src is Named {
            Ok(None)
        } else {
            Err(())
        },
        Some(Json::Null) => Ok(None),
        Some(Json::Str(s)) => Ok(Some(s)),
        Some(_) => Err(()),
    }
}

/// A field of type `Option<String>` that defaults to `None`.
pub open spec fn dec_default_opt_string(src: Src, name: Seq<char>, pos: int) -> Result<Option<Seq<char>>, ()> {
    match src_field(src, name, pos) {
        None => Ok(None),
        Some(Json::Null) => Ok(None),
        Some(Json::Str(s)) => Ok(Some(s)),
        Some(_) => Err(()),
    }
}

/// A required field of type `String`.
pub open spec fn dec_string(src: Src, name: Seq<char>, pos: int) -> Result<Seq<char>, ()> {
    match src_field(src, name, pos) {
        Some(Json::Str(s)) => Ok(s),
        _ => Err(()),
    }
}

/// A field of type `String` that defaults to the empty string.
pub open spec fn dec_default_string(src: Src, name: Seq<char>, pos: int) -> Result<Seq<char>, ()> {
    match src_field(src, name, pos) {
        None => Ok(Seq::empty()),
        Some(Json::Str(s)) => Ok(s),
        Some(_) => Err(()),
    }
}

/// A required field that holds any JSON value.
pub open spec fn dec_value(src: Src, name: Seq<char>, pos: int) -> Result<Json, ()> {
    match src_field(src, name, pos) {
        Some(v) => Ok(v),
        None => Err(()),
    }
}

/// A field of type `Option<Value>` that defaults to `None`.
pub open spec fn dec_default_opt_value(src: Src, name: Seq<char>, pos: int) -> Result<Option<Json>, ()> {
    match src_field(src, name, pos) {
        None => Ok(None),
        Some(Json::Null) => Ok(None),
        Some(v) => Ok(Some(v)),
    }
}

/// A field of type `Option<bool>` that defaults to `None`.
pub open spec fn dec_default_opt_bool(src: Src, name: Seq<char>, pos: int) -> Result<Option<bool>, ()> {
    match src_field(src, name, pos) {
        None => Ok(None),
        Some(Json::Null) => Ok(None),
        Some(Json::Bool(b)) => Ok(Some(b)),
        Some(_) => Err(()),
    }
}

/// The variant name of a field-less enum value: a string, or an object with
/// a single entry whose value is null.
pub open spec fn unit_tag(v: Json) -> Option<Seq<char>> {
    match v {
        Json::Str(s) => Some(s),
        Json::Object(fields) => if fields.len() == 1 && fields[0].1 is Null {
            Some(fields[0].0)
        } else {
            None
        },
        _ => None,
    }
}

/// A field that holds an optional field-less enum value and defaults to
/// `None`, by the variant name found.
pub open spec fn dec_default_opt_tag(src: Src, name: Seq<char>, pos: int) -> Result<Option<Seq<char>>, ()> {
    match src_field(src, name, pos) {
        None => Ok(None),
        Some(Json::Null) => Ok(None),
        Some(v) => match unit_tag(v) {
            Some(t) => Ok(Some(t)),
            None => Err(()),
        },
    }
}

/// A field of type `usize` that defaults to zero.
pub open spec fn dec_default_usize(src: Src, name: Seq<char>, pos: int) -> Result<usize, ()> {
    match src_field(src, name, pos) {
        None => Ok(0),
        Some(Json::Number(Num::PosInt(u))) => if u <= usize::MAX {
            Ok(u as usize)
        } else {
            Err(())
        },
        Some(_) => Err(()),
    }
}

/// In the positional form, no more items than the record has fields.
pub open spec fn arity_ok(src: Src, count: int) -> bool {
    match src {
        Src::Named(_) => true,
        Src::Positional(items) => items.len() <= count,
    }
}

/// The record fields of a JSON value: an object's entries, or an array's items.
pub open spec fn record_src(v: Json) -> Option<Src> {
    match v {
        Json::Object(fields) => Some(Src::Named(fields)),
        Json::Array(items) => Some(Src::Positional(items)),
        _ => None,
    }
}

pub open spec fn view_opt_str(o: Option<String>) -> Option<Seq<char>> {
    match o {
        Some(s) => Some(s@),
        None => None,
    }
}

pub open spec fn view_opt_json(o: Option<JsonValue>) -> Option<Json> {
    match o {
        Some(v) => Some(v@),
        None => None,
    }
}

pub open spec fn view_res_str(r: Result<String, ()>) -> Result<Seq<char>, ()> {
    match r {
        Ok(s) => Ok(s@),
        Err(_) => Err(()),
    }
}

pub open spec fn view_res_opt_str(r: Result<Option<String>, ()>) -> Result<Option<Seq<char>>, ()> {
    match r {
        Ok(o) => Ok(view_opt_str(o)),
        Err(_) => Err(()),
    }
}

pub open spec fn view_res_json(r: Result<JsonValue, ()>) -> Result<Json, ()> {
    match r {
        Ok(v) => Ok(v@),
        Err(_) => Err(()),
    }
}

pub open spec fn view_res_opt_json(r: Result<Option<JsonValue>, ()>) -> Result<Option<Json>, ()> {
    match r {
        Ok(o) => Ok(view_opt_json(o)),
        Err(_) => Err(()),
    }
}

/// The fields of a record, borrowed from a JSON value.
pub enum Fields<'a> {
    /// An object's entries.
    Named(&'a Vec<(String, JsonValue)>),
    /// An array's items from the given position on.
    Positional(&'a Vec<JsonValue>, usize),
}

impl<'a> Fields<'a> {
    pub open spec fn src(&self) -> Src {
        match *self {
            Fields::Named(f) => Src::Named(entries_view(f@)),
            Fields::Positional(v, off) => Src::Positional(
                if off <= v@.len() {
                    values_view(v@).subrange(off as int, v@.len() as int)
                } else {
                    Seq::empty()
                },
            ),
        }
    }

    /// Whether the fields are given by position.
    pub fn is_positional(&self) -> (r: bool)
        ensures
            r == (self.src() is Positional),
    {
        match self {
            Fields::Named(_) => false,
            Fields::Positional(..) => true,
        }
    }

    /// How many items the positional form holds; zero for the named form.
    pub fn positional_len(&self) -> (n: usize)
        ensures
            match self.src() {
                Src::Positional(items) => n == items.len(),
                Src::Named(_) => n == 0,
            },
    {
        match self {
            Fields::Named(_) => 0,
            Fields::Positional(v, off) => if *off <= v.len() {
                v.len() - *off
            } else {
                0
            },
        }
    }

    /// The field `name`, or the one at position `pos`.
    pub fn field(&self, name: &str, pos: usize) -> (r: Option<&'a JsonValue>)
        ensures
            match r {
                Some(v) => src_field(self.src(), name@, pos as int) == Some(v@),
                None => src_field(self.src(), name@, pos as int) is None,
            },
    {
        match self {
            Fields::Named(f) => lookup_entry(f, name),
            Fields::Positional(v, off) => {
                if *off <= v.len() && pos < v.len() - *off {
                    Some(&v[*off + pos])
                } else {
                    None
                }
            },
        }
    }
}

/// The record fields of a value, if it is an object or an array.
pub fn record_fields(v: &JsonValue) -> (r: Option<Fields<'_>>)
    ensures
        match r {
            Some(f) => record_src(v@) == Some(f.src()),
            None => record_src(v@) is None,
        },
{
    match v {
        JsonValue::Object(f) => {
            proof {
                assert(v@->Object_0 =~= entries_view(f@));
            }
            Some(Fields::Named(f))
        },
        JsonValue::Array(items) => {
            proof {
                assert(v@->Array_0 =~= values_view(items@).subrange(0, items@.len() as int));
            }
            Some(Fields::Positional(items, 0))
        },
        _ => None,
    }
}

pub fn read_opt_string(f: &Fields, name: &str, pos: usize) -> (r: Result<Option<String>, ()>)
    ensures
        view_res_opt_str(r) == dec_opt_string(f.src(), name@, pos as int),
{
    match f.field(name, pos) {
        None => if f.is_positional() {
            Err(())
        } else {
            Ok(None)
        },
        Some(JsonValue::Null) => Ok(None),
        Some(JsonValue::String(s)) => Ok(Some(s.clone())),
        Some(_) => Err(()),
    }
}

pub fn read_default_opt_string(f: &Fields, name: &str, pos: usize) -> (r: Result<Option<String>, ()>)
    ensures
        view_res_opt_str(r) == dec_default_opt_string(f.src(), name@, pos as int),
{
    match f.field(name, pos) {
        None => Ok(None),
        Some(JsonValue::Null) => Ok(None),
        Some(JsonValue::String(s)) => Ok(Some(s.clone())),
        Some(_) => Err(()),
    }
}

pub fn read_string(f: &Fields, name: &str, pos: usize) -> (r: Result<String, ()>)
    ensures
        view_res_str(r) == dec_string(f.src(), name@, pos as int),
{
    match f.field(name, pos) {
        Some(JsonValue::String(s)) => Ok(s.clone()),
        _ => Err(()),
    }
}

pub fn read_default_string(f: &Fields, name: &str, pos: usize) -> (r: Result<String, ()>)
    ensures
        view_res_str(r) == dec_default_string(f.src(), name@, pos as int),
{
    match f.field(name, pos) {
        None => Ok(String::new()),
        Some(JsonValue::String(s)) => Ok(s.clone()),
        Some(_) => Err(()),
    }
}

pub fn read_value(f: &Fields, name: &str, pos: usize) -> (r: Result<JsonValue, ()>)
    ensures
        view_res_json(r) == dec_value(f.src(), name@, pos as int),
{
    match f.field(name, pos) {
        Some(v) => Ok(v.deep_clone()),
        None => Err(()),
    }
}

pub fn read_default_opt_value(f: &Fields, name: &str, pos: usize) -> (r: Result<Option<JsonValue>, ()>)
    ensures
        view_res_opt_json(r) == dec_default_opt_value(f.src(), name@, pos as int),
{
    match f.field(name, pos) {
        None => Ok(None),
        Some(JsonValue::Null) => Ok(None),
        Some(v) => Ok(Some(v.deep_clone())),
    }
}

pub fn read_default_opt_bool(f: &Fields, name: &str, pos: usize) -> (r: Result<Option<bool>, ()>)
    ensures
        r == dec_default_opt_bool(f.src(), name@, pos as int),
{
    match f.field(name, pos) {
        None => Ok(None),
        Some(JsonValue::Null) => Ok(None),
        Some(JsonValue::Bool(b)) => Ok(Some(*b)),
        Some(_) => Err(()),
    }
}

/// The variant name of a field-less enum value.
pub fn read_unit_tag(v: &JsonValue) -> (r: Option<String>)
    ensures
        view_opt_str(r) == unit_tag(v@),
{
    match v {
        JsonValue::String(s) => Some(s.clone()),
        JsonValue::Object(fields) => {
            proof {
                assert(v@->Object_0 =~= entries_view(fields@));
            }
            if fields.len() == 1 && fields[0].1.is_null() {
                Some(fields[0].0.clone())
            } else {
                None
            }
        },
        _ => None,
    }
}

pub fn read_default_opt_tag(f: &Fields, name: &str, pos: usize) -> (r: Result<Option<String>, ()>)
    ensures
        view_res_opt_str(r) == dec_default_opt_tag(f.src(), name@, pos as int),
{
    match f.field(name, pos) {
        None => Ok(None),
        Some(JsonValue::Null) => Ok(None),
        Some(v) => match read_unit_tag(v) {
            Some(t) => Ok(Some(t)),
            None => Err(()),
        },
    }
}

pub fn read_default_usize(f: &Fields, name: &str, pos: usize) -> (r: Result<usize, ()>)
    ensures
        r == dec_default_usize(f.src(), name@, pos as int),
{
    match f.field(name, pos) {
        None => Ok(0),
        Some(JsonValue::Number(JsonNumber::PosInt(u))) => {
            if *u <= usize::MAX as u64 {
                Ok(*u as usize)
            } else {
                Err(())
            }
        },
        Some(_) => Err(()),
    }
}

/// Whether the positional form holds no more items than `count` fields.
pub fn check_arity(f: &Fields, count: usize) -> (r: bool)
    ensures
        r == arity_ok(f.src(), count as int),
{
    !f.is_positional() || f.positional_len() <= count
}

/// Decoding of a list of strings: all of them, or an error.
pub open spec fn strings_from_json(items: Seq<Json>) -> Result<Seq<Seq<char>>, ()>
    decreases items.len(),
{
    if items.len() == 0 {
        Ok(Seq::empty())
    } else {
        match (strings_from_json(items.drop_last()), items.last()) {
            (Ok(a), Json::Str(b)) => Ok(a.push(b)),
            _ => Err(()),
        }
    }
}

/// A list of strings that defaults to the empty list.
pub open spec fn dec_default_string_list(src: Src, name: Seq<char>, pos: int) -> Result<Seq<Seq<char>>, ()> {
    match src_field(src, name, pos) {
        None => Ok(Seq::empty()),
        Some(Json::Array(items)) => strings_from_json(items),
        Some(_) => Err(()),
    }
}

pub open spec fn strings_view(v: Seq<String>) -> Seq<Seq<char>> {
    Seq::new(v.len(), |i: int| v[i]@)
}

/// The JSON array of a list of strings.
pub open spec fn strings_json(v: Seq<Seq<char>>) -> Json {
    Json::Array(Seq::new(v.len(), |i: int| Json::Str(v[i])))
}

proof fn lemma_strings_error_extends(items: Seq<Json>, i: int)
    requires
        0 <= i < items.len(),
        !(items[i] is Str),
    ensures
        strings_from_json(items) is Err,
    decreases items.len(),
{
    if i < items.len() - 1 {
        lemma_strings_error_extends(items.drop_last(), i);
    }
}

/// Decoding the JSON array of a list of strings gives the list back.
pub proof fn lemma_strings_roundtrip(v: Seq<Seq<char>>)
    ensures
        strings_from_json(strings_json(v)->Array_0) == Ok::<_, ()>(v),
    decreases v.len(),
{
    let items = strings_json(v)->Array_0;
    if v.len() > 0 {
        lemma_strings_roundtrip(v.drop_last());
        assert(items.drop_last() =~= strings_json(v.drop_last())->Array_0);
        assert(v.drop_last().push(v.last()) =~= v);
    } else {
        assert(v =~= Seq::<Seq<char>>::empty());
    }
}

pub fn read_default_string_list(f: &Fields, name: &str, pos: usize) -> (r: Result<Vec<String>, ()>)
    ensures
        match r {
            Ok(v) => dec_default_string_list(f.src(), name@, pos as int) == Ok::<_, ()>(strings_view(v@)),
            Err(_) => dec_default_string_list(f.src(), name@, pos as int) is Err,
        },
{
    match f.field(name, pos) {
        None => {
            let v: Vec<String> = Vec::new();
            proof {
                assert(strings_view(v@) =~= Seq::<Seq<char>>::empty());
            }
            Ok(v)
        },
        Some(JsonValue::Array(items)) => {
            let ghost iv = values_view(items@);
            proof {
                crate::json::lemma_array_view(*items);
                assert(iv.subrange(0, 0) =~= Seq::<Json>::empty());
            }
            let mut out: Vec<String> = Vec::new();
            proof {
                assert(strings_view(out@) =~= Seq::<Seq<char>>::empty());
            }
            let mut i: usize = 0;
            while i < items.len()
                invariant
                    iv == values_view(items@),
                    src_field(f.src(), name@, pos as int) == Some(Json::Array(iv)),
                    i <= items@.len(),
                    strings_from_json(iv.subrange(0, i as int)) == Ok::<_, ()>(strings_view(out@)),
                decreases items@.len() - i,
            {
                proof {
                    assert(iv.subrange(0, i + 1).drop_last() =~= iv.subrange(0, i as int));
                }
                match &items[i] {
                    JsonValue::String(s) => {
                        let ghost before = out@;
                        out.push(s.clone());
                        proof {
                            assert(strings_view(out@) =~= strings_view(before).push(s@));
                        }
                    },
                    _ => {
                        proof {
                            assert(iv[i as int] == items@[i as int]@);
                            lemma_strings_error_extends(iv, i as int);
                        }
                        return Err(());
                    },
                }
                i = i + 1;
            }
            proof {
                assert(iv.subrange(0, items@.len() as int) =~= iv);
            }
            Ok(out)
        },
        Some(_) => Err(()),
    }
}

/// The JSON array of a list of strings.
pub fn strings_to_json(v: &Vec<String>) -> (r: JsonValue)
    ensures
        r@ == strings_json(strings_view(v@)),
{
    let mut items: Vec<JsonValue> = Vec::new();
    let mut i: usize = 0;
    while i < v.len()
        invariant
            i <= v@.len(),
            items@.len() == i,
            forall|j: int| 0 <= j < i ==> items@[j]@ == Json::Str(v@[j]@),
        decreases v@.len() - i,
    {
        items.push(JsonValue::String(v[i].clone()));
        i = i + 1;
    }
    let r = crate::json::array_of(items);
    proof {
        assert(values_view(items@) =~= strings_json(strings_view(v@))->Array_0);
    }
    r
}

} // verus!
