//! A JSON value that the library can reason about, with the lookups and
//! field readers that the data model is decoded with.
//!
//! Numbers keep the three shapes a JSON parser gives them: a non-negative
//! integer, a negative integer, or any other number, kept as its text.

use vstd::prelude::*;
use vstd::string::*;
use vstd::utf8::*;
use vstd::std_specs::cmp::PartialEqSpecImpl;

verus! {

broadcast use vstd::utf8::group_utf8_lib;

/// A JSON number.
#[derive(Debug, Clone, PartialEq)]
pub enum JsonNumber {
    /// A non-negative integer.
    PosInt(u64),
    /// A negative integer.
    NegInt(i64),
    /// Any other number, by its decimal text.
    Float(String),
}

/// A JSON value. Object entries keep their order; two values are equal
/// when they hold the same content as `serde_json` values (objects compared
/// as maps, see [`serde_content_of`]).
#[derive(Debug)]
pub enum JsonValue {
    Null,
    Bool(bool),
    Number(JsonNumber),
    String(String),
    Array(Vec<JsonValue>),
    Object(Vec<(String, JsonValue)>),
}

/// The mathematical form of a JSON number.
pub enum Num {
    PosInt(u64),
    NegInt(i64),
    Float(Seq<char>),
}

/// The mathematical form of a JSON value.
pub enum Json {
    Null,
    Bool(bool),
    Number(Num),
    Str(Seq<char>),
    Array(Seq<Json>),
    Object(Seq<(Seq<char>, Json)>),
}

pub open spec fn num_view(n: JsonNumber) -> Num {
    match n {
        JsonNumber::PosInt(u) => Num::PosInt(u),
        JsonNumber::NegInt(i) => Num::NegInt(i),
        JsonNumber::Float(s) => Num::Float(s@),
    }
}

impl JsonValue {
    /// The mathematical form of this value.
    pub open spec fn json(&self) -> Json
        decreases self,
    {
        match self {
            JsonValue::Null => Json::Null,
            JsonValue::Bool(b) => Json::Bool(*b),
            JsonValue::Number(n) => Json::Number(num_view(*n)),
            JsonValue::String(s) => Json::Str(s@),
            JsonValue::Array(v) => {
                proof {
                    assert forall|i: int| 0 <= i < v@.len() implies decreases_to!(self => v@[i]) by {
                        assert(decreases_to!(v => v@));
                        assert(decreases_to!(v@ => v@[i]));
                    }
                }
                Json::Array(
                    Seq::new(
                        v@.len(),
                        |i: int|
                            if 0 <= i < v@.len() {
                                v@[i].json()
                            } else {
                                Json::Null
                            },
                    ),
                )
            },
            JsonValue::Object(v) => {
                proof {
                    assert forall|i: int| 0 <= i < v@.len() implies decreases_to!(self => v@[i].1) by {
                        assert(decreases_to!(v => v@));
                        assert(decreases_to!(v@ => v@[i]));
                        assert(decreases_to!(v@[i] => v@[i].1));
                    }
                }
                Json::Object(
                    Seq::new(
                        v@.len(),
                        |i: int|
                            if 0 <= i < v@.len() {
                                (v@[i].0@, v@[i].1.json())
                            } else {
                                (Seq::empty(), Json::Null)
                            },
                    ),
                )
            },
        }
    }
}

impl View for JsonValue {
    type V = Json;

    open spec fn view(&self) -> Json {
        self.json()
    }
}

/// The view of a sequence of values, element by element.
pub open spec fn values_view(v: Seq<JsonValue>) -> Seq<Json> {
    Seq::new(v.len(), |i: int| v[i]@)
}

/// The view of a sequence of object entries, entry by entry.
pub open spec fn entries_view(v: Seq<(String, JsonValue)>) -> Seq<(Seq<char>, Json)> {
    Seq::new(v.len(), |i: int| (v[i].0@, v[i].1@))
}

/// The value of the first entry named `key`, if any.
pub open spec fn fields_get(fields: Seq<(Seq<char>, Json)>, key: Seq<char>) -> Option<Json>
    decreases fields.len(),
{
    if fields.len() == 0 {
        None
    } else if fields[0].0 == key {
        Some(fields[0].1)
    } else {
        fields_get(fields.drop_first(), key)
    }
}

/// Looking a key up in two runs of entries: the first run first.
pub proof fn lemma_fields_get_concat(a: Seq<(Seq<char>, Json)>, b: Seq<(Seq<char>, Json)>, key: Seq<char>)
    ensures
        fields_get(a + b, key) == match fields_get(a, key) {
            Some(v) => Some(v),
            None => fields_get(b, key),
        },
    decreases a.len(),
{
    if a.len() > 0 {
        assert((a + b).drop_first() =~= a.drop_first() + b);
        lemma_fields_get_concat(a.drop_first(), b, key);
    } else {
        assert(a + b =~= b);
    }
}

/// The member `key` of an object; nothing for any other value.
pub open spec fn json_get(j: Json, key: Seq<char>) -> Option<Json> {
    match j {
        Json::Object(fields) => fields_get(fields, key),
        _ => None,
    }
}

/// The text of a string value.
pub open spec fn json_as_str(j: Json) -> Option<Seq<char>> {
    match j {
        Json::Str(s) => Some(s),
        _ => None,
    }
}

/// Byte-wise equality of two strings, which is equality of their characters.
pub fn str_eq(a: &str, b: &str) -> (r: bool)
    ensures
        r == (a@ == b@),
{
    let ab = a.as_bytes();
    let bb = b.as_bytes();
    proof {
        assert(decode_utf8(encode_utf8(a@)) == a@);
        assert(decode_utf8(encode_utf8(b@)) == b@);
    }
    if ab.len() != bb.len() {
        return false;
    }
    let mut i: usize = 0;
    while i < ab.len()
        invariant
            ab@ == encode_utf8(a@),
            bb@ == encode_utf8(b@),
            ab@.len() == bb@.len(),
            i <= ab@.len(),
            forall|j: int| 0 <= j < i ==> ab@[j] == bb@[j],
        decreases ab@.len() - i,
    {
        if ab[i] != bb[i] {
            return false;
        }
        i = i + 1;
    }
    proof {
        assert(ab@ =~= bb@);
    }
    true
}

proof fn lemma_fields_get_skip(fields: Seq<(Seq<char>, Json)>, i: int, key: Seq<char>)
    requires
        0 <= i < fields.len(),
    ensures
        fields_get(fields.subrange(i, fields.len() as int), key) == if fields[i].0 == key {
            Some(fields[i].1)
        } else {
            fields_get(fields.subrange(i + 1, fields.len() as int), key)
        },
{
    let s = fields.subrange(i, fields.len() as int);
    assert(s.drop_first() =~= fields.subrange(i + 1, fields.len() as int));
}

/// The value of the first entry named `key`.
pub fn lookup_entry<'a>(fields: &'a Vec<(String, JsonValue)>, key: &str) -> (r: Option<&'a JsonValue>)
    ensures
        match r {
            Some(v) => fields_get(entries_view(fields@), key@) == Some(v@),
            None => fields_get(entries_view(fields@), key@) is None,
        },
{
    let ghost fs = entries_view(fields@);
    proof {
        assert(fs.subrange(0, fs.len() as int) =~= fs);
    }
    let mut i: usize = 0;
    while i < fields.len()
        invariant
            fs == entries_view(fields@),
            i <= fields@.len(),
            fields_get(fs, key@) == fields_get(fs.subrange(i as int, fs.len() as int), key@),
        decreases fields@.len() - i,
    {
        proof {
            lemma_fields_get_skip(fs, i as int, key@);
        }
        if str_eq(fields[i].0.as_str(), key) {
            return Some(&fields[i].1);
        }
        i = i + 1;
    }
    proof {
        assert(fs.subrange(i as int, fs.len() as int).len() == 0);
    }
    None
}

impl JsonValue {
    /// A deep copy of this value.
    #[verifier::loop_isolation(false)]
    pub fn deep_clone(&self) -> (r: JsonValue)
        ensures
            r@ == self@,
        decreases self,
    {
        match self {
            JsonValue::Null => JsonValue::Null,
            JsonValue::Bool(b) => JsonValue::Bool(*b),
            JsonValue::Number(n) => JsonValue::Number(
                match n {
                    JsonNumber::PosInt(u) => JsonNumber::PosInt(*u),
                    JsonNumber::NegInt(i) => JsonNumber::NegInt(*i),
                    JsonNumber::Float(s) => JsonNumber::Float(s.clone()),
                },
            ),
            JsonValue::String(s) => JsonValue::String(s.clone()),
            JsonValue::Array(v) => {
                let mut out: Vec<JsonValue> = Vec::new();
                let mut i: usize = 0;
                while i < v.len()
                    invariant
                        i <= v@.len(),
                        out@.len() == i,
                        forall|j: int| 0 <= j < i ==> out@[j]@ == v@[j]@,
                    decreases v@.len() - i,
                {
                    proof {
                        assert(decreases_to!(v => v@));
                        assert(decreases_to!(v@ => v@[i as int]));
                    }
                    let c = v[i].deep_clone();
                    out.push(c);
                    i = i + 1;
                }
                let r = JsonValue::Array(out);
                proof {
                    assert(r@->Array_0 =~= self@->Array_0);
                }
                r
            },
            JsonValue::Object(v) => {
                let mut out: Vec<(String, JsonValue)> = Vec::new();
                let mut i: usize = 0;
                while i < v.len()
                    invariant
                        i <= v@.len(),
                        out@.len() == i,
                        forall|j: int| 0 <= j < i ==> out@[j].0@ == v@[j].0@ && out@[j].1@ == v@[j].1@,
                    decreases v@.len() - i,
                {
                    proof {
                        assert(decreases_to!(v => v@));
                        assert(decreases_to!(v@ => v@[i as int]));
                        assert(decreases_to!(v@[i as int] => v@[i as int].1));
                    }
                    let k = v[i].0.clone();
                    let c = v[i].1.deep_clone();
                    out.push((k, c));
                    i = i + 1;
                }
                let r = JsonValue::Object(out);
                proof {
                    assert(r@->Object_0 =~= self@->Object_0);
                }
                r
            },
        }
    }

    /// The member `key` of this value, if it is an object that has one.
    pub fn get(&self, key: &str) -> (r: Option<&JsonValue>)
        ensures
            match r {
                Some(v) => json_get(self@, key@) == Some(v@),
                None => json_get(self@, key@) is None,
            },
    {
        match self {
            JsonValue::Object(fields) => {
                proof {
                    assert(self@->Object_0 =~= entries_view(fields@));
                }
                lookup_entry(fields, key)
            },
            _ => None,
        }
    }

    /// Whether this is the null value.
    pub fn is_null(&self) -> (r: bool)
        ensures
            r == (self@ is Null),
    {
        match self {
            JsonValue::Null => true,
            _ => false,
        }
    }

    /// The text of this value, if it is a string.
    pub fn as_str(&self) -> (r: Option<&str>)
        ensures
            match r {
                Some(s) => json_as_str(self@) == Some(s@),
                None => json_as_str(self@) is None,
            },
    {
        match self {
            JsonValue::String(s) => Some(s.as_str()),
            _ => None,
        }
    }
}

/// An object value's view is the view of its entries.
pub proof fn lemma_object_view(v: Vec<(String, JsonValue)>)
    ensures
        JsonValue::Object(v)@ == Json::Object(entries_view(v@)),
{
    assert(JsonValue::Object(v)@->Object_0 =~= entries_view(v@));
}

/// An array value's view is the view of its items.
pub proof fn lemma_array_view(v: Vec<JsonValue>)
    ensures
        JsonValue::Array(v)@ == Json::Array(values_view(v@)),
{
    assert(JsonValue::Array(v)@->Array_0 =~= values_view(v@));
}

/// An object value made of the given entries.
pub fn object_of(entries: Vec<(String, JsonValue)>) -> (r: JsonValue)
    ensures
        r@ == Json::Object(entries_view(entries@)),
{
    proof {
        lemma_object_view(entries);
    }
    JsonValue::Object(entries)
}

/// An array value made of the given items.
pub fn array_of(items: Vec<JsonValue>) -> (r: JsonValue)
    ensures
        r@ == Json::Array(values_view(items@)),
{
    proof {
        lemma_array_view(items);
    }
    JsonValue::Array(items)
}

/// Appends an entry to a list of object entries.
pub fn push_entry(entries: &mut Vec<(String, JsonValue)>, key: &str, value: JsonValue)
    ensures
        entries_view(final(entries)@) == entries_view(old(entries)@).push((key@, value@)),
{
    let ghost old_view = entries_view(entries@);
    entries.push((String::from_str(key), value));
    proof {
        assert(entries_view(entries@) =~= old_view.push((key@, value@)));
    }
}

/// Appends a string entry to a list of object entries.
pub fn push_str_entry(entries: &mut Vec<(String, JsonValue)>, key: &str, value: &str)
    ensures
        entries_view(final(entries)@) == entries_view(old(entries)@).push((key@, Json::Str(value@))),
{
    push_entry(entries, key, JsonValue::String(String::from_str(value)));
}

/// The entries for an optional string field: one entry when present, none otherwise.
pub open spec fn opt_entry(key: Seq<char>, o: Option<Seq<char>>) -> Seq<(Seq<char>, Json)> {
    match o {
        Some(v) => seq![(key, Json::Str(v))],
        None => Seq::empty(),
    }
}

/// Appends the entry of an optional string field, if present.
pub fn push_opt_entry(entries: &mut Vec<(String, JsonValue)>, key: &str, value: &Option<String>)
    ensures
        entries_view(final(entries)@) == entries_view(old(entries)@) + opt_entry(
            key@,
            match *value {
                Some(s) => Some(s@),
                None => None,
            },
        ),
{
    match value {
        Some(s) => {
            let ghost before = entries_view(entries@);
            push_str_entry(entries, key, s.as_str());
            proof {
                assert(before.push((key@, Json::Str(s@))) =~= before + seq![(key@, Json::Str(s@))]);
            }
        },
        None => {
            proof {
                assert(entries_view(entries@) + Seq::<(Seq<char>, Json)>::empty() =~= entries_view(entries@));
            }
        },
    }
}

#[verifier::external_type_specification]
#[verifier::external_body]
pub struct ExSerdeJsonValue(serde_json::Value);

#[verifier::external_type_specification]
#[verifier::external_body]
#[verifier::reject_recursive_types(K)]
#[verifier::reject_recursive_types(V)]
pub struct ExSerdeJsonMap<K, V>(serde_json::Map<K, V>);

/// What a `serde_json::Value` holds. Objects are maps from keys to values
/// (keys sorted, each once); a floating-point number is kept by the bits of
/// its `f64`.
pub enum SerdeJson {
    Null,
    Bool(bool),
    PosInt(u64),
    NegInt(i64),
    Float(u64),
    Str(Seq<char>),
    Array(Seq<SerdeJson>),
    Object(Map<Seq<char>, SerdeJson>),
}

/// What a `serde_json::Value` holds.
pub uninterp spec fn serde_value_content(v: serde_json::Value) -> SerdeJson;

/// What a `serde_json::Map` holds: each key with its value.
pub uninterp spec fn serde_map_content(m: serde_json::Map<String, serde_json::Value>) -> Map<Seq<char>, SerdeJson>;

/// What `serde_json::Number`'s `FromStr` gives on a text, as the content of
/// a value; `None` when the text is not a JSON number.
pub uninterp spec fn serde_parsed_number(text: Seq<char>) -> Option<SerdeJson>;

/// The compact JSON text that `serde_json` renders for a value holding `c`.
pub uninterp spec fn serde_rendered(c: SerdeJson) -> Seq<char>;

/// `serde_json::Value::Null`: a value holding null.
#[verifier::external_body]
fn serde_null() -> (r: serde_json::Value)
    ensures
        serde_value_content(r) == SerdeJson::Null,
{
    serde_json::Value::Null
}

/// `serde_json::Value::Bool`: a value holding `b`.
#[verifier::external_body]
fn serde_bool(b: bool) -> (r: serde_json::Value)
    ensures
        serde_value_content(r) == SerdeJson::Bool(b),
{
    serde_json::Value::Bool(b)
}

/// `serde_json::Value::from` a `u64`: a value holding `u` as a
/// non-negative integer.
#[verifier::external_body]
fn serde_u64(u: u64) -> (r: serde_json::Value)
    ensures
        serde_value_content(r) == SerdeJson::PosInt(u),
{
    serde_json::Value::from(u)
}

/// `serde_json::Value::from` an `i64`: a negative `i` is held as a negative
/// integer, any other as a non-negative one.
#[verifier::external_body]
fn serde_i64(i: i64) -> (r: serde_json::Value)
    ensures
        serde_value_content(r) == if i < 0 {
            SerdeJson::NegInt(i)
        } else {
            SerdeJson::PosInt(i as u64)
        },
{
    serde_json::Value::from(i)
}

/// `serde_json::Number`'s `FromStr` on the text of a number: the number it
/// parses, or `Null` when the text is not a JSON number.
#[verifier::external_body]
fn serde_number(text: &str) -> (r: serde_json::Value)
    ensures
        serde_value_content(r) == match serde_parsed_number(text@) {
            Some(c) => c,
            None => SerdeJson::Null,
        },
{
    match text.parse::<serde_json::Number>() {
        Ok(n) => serde_json::Value::Number(n),
        Err(_) => serde_json::Value::Null,
    }
}

/// `serde_json::Value::String`: a value holding the text `s`.
#[verifier::external_body]
fn serde_string(s: &str) -> (r: serde_json::Value)
    ensures
        serde_value_content(r) == SerdeJson::Str(s@),
{
    serde_json::Value::String(s.to_owned())
}

/// `serde_json::Value::Array`: a value holding the items, in order.
#[verifier::external_body]
fn serde_array(items: Vec<serde_json::Value>) -> (r: serde_json::Value)
    ensures
        serde_value_content(r) == SerdeJson::Array(Seq::new(items@.len(), |i: int| serde_value_content(items@[i]))),
{
    serde_json::Value::Array(items)
}

/// A map with no members.
pub open spec fn no_members() -> Map<Seq<char>, SerdeJson> {
    Map::empty()
}

/// `serde_json::Map::new`: an empty map.
#[verifier::external_body]
fn serde_map_new() -> (r: serde_json::Map<String, serde_json::Value>)
    ensures
        serde_map_content(r) == no_members(),
{
    serde_json::Map::new()
}

/// `serde_json::Map::insert`: `key` now maps to `value`, replacing what it
/// mapped to before; other keys keep theirs.
#[verifier::external_body]
fn serde_map_insert(m: &mut serde_json::Map<String, serde_json::Value>, key: String, value: serde_json::Value)
    ensures
        serde_map_content(*final(m)) == serde_map_content(*old(m)).insert(key@, serde_value_content(value)),
{
    m.insert(key, value);
}

/// `serde_json::Value::Object`: a value holding the map's members.
#[verifier::external_body]
fn serde_object(m: serde_json::Map<String, serde_json::Value>) -> (r: serde_json::Value)
    ensures
        serde_value_content(r) == SerdeJson::Object(serde_map_content(m)),
{
    serde_json::Value::Object(m)
}

/// `serde_json::Value`'s `Display`: its compact JSON text.
#[verifier::external_body]
fn serde_display(v: &serde_json::Value) -> (r: String)
    ensures
        r@ == serde_rendered(serde_value_content(*v)),
{
    v.to_string()
}

/// What the `serde_json` value of `j` holds: numbers by their shape (the
/// text of any other number as `serde_json` parses it), arrays item by
/// item, and objects as the map of their members, where of members with
/// the same name the first counts (as in a lookup).
pub open spec fn serde_content_of(j: Json) -> SerdeJson
    decreases j,
{
    match j {
        Json::Null => SerdeJson::Null,
        Json::Bool(b) => SerdeJson::Bool(b),
        Json::Number(Num::PosInt(u)) => SerdeJson::PosInt(u),
        Json::Number(Num::NegInt(i)) => if i < 0 {
            SerdeJson::NegInt(i)
        } else {
            SerdeJson::PosInt(i as u64)
        },
        Json::Number(Num::Float(t)) => match serde_parsed_number(t) {
            Some(c) => c,
            None => SerdeJson::Null,
        },
        Json::Str(s) => SerdeJson::Str(s),
        Json::Array(items) => SerdeJson::Array(serde_items_of(items)),
        Json::Object(fs) => SerdeJson::Object(serde_members_of(fs)),
    }
}

/// The contents of the `serde_json` values of `items`, in order.
pub open spec fn serde_items_of(items: Seq<Json>) -> Seq<SerdeJson>
    decreases items,
{
    if items.len() == 0 {
        Seq::empty()
    } else {
        proof {
            assert(decreases_to!(items => items[items.len() - 1]));
        }
        serde_items_of(items.subrange(0, items.len() - 1)).push(serde_content_of(items[items.len() - 1]))
    }
}

/// The map that inserting the members `fs` from the last to the first
/// gives: of members with the same name, the first counts.
pub open spec fn serde_members_of(fs: Seq<(Seq<char>, Json)>) -> Map<Seq<char>, SerdeJson>
    decreases fs,
{
    if fs.len() == 0 {
        Map::empty()
    } else {
        proof {
            assert(decreases_to!(fs => fs[0]));
            assert(decreases_to!(fs[0] => fs[0].1));
        }
        serde_members_of(fs.subrange(1, fs.len() as int)).insert(fs[0].0, serde_content_of(fs[0].1))
    }
}

/// The `serde_json` value with the same content; object members go into
/// its map from the last to the first, so that of members with the same
/// name the first counts, as it does when a member is looked up.
#[verifier::loop_isolation(false)]
fn to_serde_value(v: &JsonValue) -> (r: serde_json::Value)
    ensures
        serde_value_content(r) == serde_content_of(v@),
    decreases v,
{
    match v {
        JsonValue::Null => serde_null(),
        JsonValue::Bool(b) => serde_bool(*b),
        JsonValue::Number(JsonNumber::PosInt(u)) => serde_u64(*u),
        JsonValue::Number(JsonNumber::NegInt(i)) => serde_i64(*i),
        JsonValue::Number(JsonNumber::Float(t)) => serde_number(t.as_str()),
        JsonValue::String(t) => serde_string(t.as_str()),
        JsonValue::Array(items) => {
            let ghost js = values_view(items@);
            proof {
                lemma_array_view(*items);
            }
            let mut out: Vec<serde_json::Value> = Vec::new();
            let mut i: usize = 0;
            proof {
                assert(js.subrange(0, 0) =~= Seq::<Json>::empty());
                assert(Seq::new(out@.len(), |j: int| serde_value_content(out@[j])) =~= serde_items_of(js.subrange(0, 0)));
            }
            while i < items.len()
                invariant
                    v@ == Json::Array(js),
                    js == values_view(items@),
                    i <= items@.len(),
                    out@.len() == i,
                    Seq::new(out@.len(), |j: int| serde_value_content(out@[j])) == serde_items_of(js.subrange(0, i as int)),
                decreases items@.len() - i,
            {
                proof {
                    assert(decreases_to!(items => items@));
                    assert(decreases_to!(items@ => items@[i as int]));
                }
                let c = to_serde_value(&items[i]);
                let ghost before = out@;
                out.push(c);
                proof {
                    let sub = js.subrange(0, i + 1);
                    assert(sub.subrange(0, sub.len() - 1) =~= js.subrange(0, i as int));
                    assert(sub[sub.len() - 1] == items@[i as int]@);
                    assert(Seq::new(out@.len(), |j: int| serde_value_content(out@[j]))
                        =~= Seq::new(before.len(), |j: int| serde_value_content(before[j])).push(serde_value_content(c)));
                }
                i = i + 1;
            }
            proof {
                assert(js.subrange(0, js.len() as int) =~= js);
            }
            serde_array(out)
        },
        JsonValue::Object(fields) => {
            let ghost fs = entries_view(fields@);
            proof {
                lemma_object_view(*fields);
            }
            let mut m = serde_map_new();
            let mut i: usize = fields.len();
            proof {
                assert(fs.subrange(fs.len() as int, fs.len() as int) =~= Seq::<(Seq<char>, Json)>::empty());
            }
            while i > 0
                invariant
                    v@ == Json::Object(fs),
                    fs == entries_view(fields@),
                    i <= fields@.len(),
                    serde_map_content(m) == serde_members_of(fs.subrange(i as int, fs.len() as int)),
                decreases i,
            {
                i = i - 1;
                proof {
                    assert(decreases_to!(fields => fields@));
                    assert(decreases_to!(fields@ => fields@[i as int]));
                    assert(decreases_to!(fields@[i as int] => fields@[i as int].1));
                }
                let value = to_serde_value(&fields[i].1);
                let key = fields[i].0.clone();
                serde_map_insert(&mut m, key, value);
                proof {
                    let sub = fs.subrange(i as int, fs.len() as int);
                    assert(sub.subrange(1, sub.len() as int) =~= fs.subrange(i + 1, fs.len() as int));
                    assert(sub[0] == (fields@[i as int].0@, fields@[i as int].1@));
                }
            }
            proof {
                assert(fs.subrange(0, fs.len() as int) =~= fs);
            }
            serde_object(m)
        },
    }
}

/// Whether values holding `a` and `b` are equal by `serde_json::Value`'s
/// `==`.
pub uninterp spec fn serde_values_equal(a: SerdeJson, b: SerdeJson) -> bool;

/// `serde_json::Value`'s `==`: whether the two values are equal, which
/// depends on what they hold alone.
#[verifier::external_body]
fn serde_value_eq(a: &serde_json::Value, b: &serde_json::Value) -> (r: bool)
    ensures
        r == serde_values_equal(serde_value_content(*a), serde_value_content(*b)),
{
    a == b
}

impl Clone for JsonValue {
    /// A copy of the value, member for member.
    fn clone(&self) -> (r: JsonValue)
        ensures
            r@ == self@,
    {
        self.deep_clone()
    }
}

impl PartialEq for JsonValue {
    fn eq(&self, other: &JsonValue) -> (r: bool) {
        serde_value_eq(&to_serde_value(self), &to_serde_value(other))
    }
}

impl PartialEqSpecImpl for JsonValue {
    open spec fn obeys_eq_spec() -> bool {
        true
    }

    open spec fn eq_spec(&self, other: &JsonValue) -> bool {
        serde_values_equal(serde_content_of(self@), serde_content_of(other@))
    }
}

/// The compact JSON text of a value: the text `serde_json` renders for a
/// value holding what `v` holds (see [`serde_content_of`]).
pub fn compact_text(v: &JsonValue) -> (r: String)
    ensures
        r@ == serde_rendered(serde_content_of(v@)),
{
    serde_display(&to_serde_value(v))
}

} // verus!
