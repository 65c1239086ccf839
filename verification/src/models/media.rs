//! The resolution at which image and video content is processed.

use vstd::prelude::*;
use vstd::string::*;
use crate::json::{Json, JsonValue, compact_text, serde_content_of, serde_rendered};

verus! {

/// Processing resolution of media content; `Medium` unless said otherwise.
#[derive(Debug, PartialEq)]
pub enum Resolution {
    Low,
    Medium,
    High,
    UltraHigh,
    /// A resolution this library does not know, kept with its JSON value.
    Unknown { resolution_type: String, data: JsonValue },
}

pub enum ResolutionModel {
    Low,
    Medium,
    High,
    UltraHigh,
    Unknown { resolution_type: Seq<char>, data: Json },
}

impl View for Resolution {
    type V = ResolutionModel;

    open spec fn view(&self) -> ResolutionModel {
        match self {
            Resolution::Low => ResolutionModel::Low,
            Resolution::Medium => ResolutionModel::Medium,
            Resolution::High => ResolutionModel::High,
            Resolution::UltraHigh => ResolutionModel::UltraHigh,
            Resolution::Unknown { resolution_type, data } => ResolutionModel::Unknown {
                resolution_type: resolution_type@,
                data: data@,
            },
        }
    }
}

impl Default for Resolution {
    fn default() -> (r: Self)
        ensures
            r@ == ResolutionModel::Medium,
    {
        Resolution::Medium
    }
}

/// The wire text of a resolution.
pub open spec fn resolution_name(r: ResolutionModel) -> Seq<char> {
    match r {
        ResolutionModel::Low => "low"@,
        ResolutionModel::Medium => "medium"@,
        ResolutionModel::High => "high"@,
        ResolutionModel::UltraHigh => "ultra_high"@,
        ResolutionModel::Unknown { resolution_type, .. } => resolution_type,
    }
}

/// Decoding of a resolution: the known names, any other string as an
/// unknown resolution of that name, and any other value as an unknown
/// resolution named `<non-string: ...>` around `rendering`, its JSON text.
pub open spec fn resolution_from_json(v: Json, rendering: Seq<char>) -> ResolutionModel {
    match v {
        Json::Str(s) => if s == "low"@ {
            ResolutionModel::Low
        } else if s == "medium"@ {
            ResolutionModel::Medium
        } else if s == "high"@ {
            ResolutionModel::High
        } else if s == "ultra_high"@ {
            ResolutionModel::UltraHigh
        } else {
            ResolutionModel::Unknown { resolution_type: s, data: v }
        },
        _ => ResolutionModel::Unknown {
            resolution_type: "<non-string: "@ + rendering + ">"@,
            data: v,
        },
    }
}

impl Resolution {
    pub fn is_unknown(&self) -> (b: bool)
        ensures
            b == (self@ is Unknown),
    {
        match self {
            Resolution::Unknown { .. } => true,
            _ => false,
        }
    }

    pub fn unknown_resolution_type(&self) -> (r: Option<&str>)
        ensures
            match r {
                Some(s) => self@ matches ResolutionModel::Unknown { resolution_type, .. } && s@ == resolution_type,
                None => !(self@ is Unknown),
            },
    {
        match self {
            Resolution::Unknown { resolution_type, .. } => Some(resolution_type.as_str()),
            _ => None,
        }
    }

    pub fn unknown_data(&self) -> (r: Option<&JsonValue>)
        ensures
            match r {
                Some(d) => self@ matches ResolutionModel::Unknown { data, .. } && d@ == data,
                None => !(self@ is Unknown),
            },
    {
        match self {
            Resolution::Unknown { data, .. } => Some(data),
            _ => None,
        }
    }

    /// The JSON encoding of this resolution: a string.
    pub fn to_json(&self) -> (r: JsonValue)
        ensures
            r@ == Json::Str(resolution_name(self@)),
    {
        let name = match self {
            Resolution::Low => String::from_str("low"),
            Resolution::Medium => String::from_str("medium"),
            Resolution::High => String::from_str("high"),
            Resolution::UltraHigh => String::from_str("ultra_high"),
            Resolution::Unknown { resolution_type, .. } => resolution_type.clone(),
        };
        JsonValue::String(name)
    }

    /// Decodes a resolution from JSON; never fails.
    pub fn from_json(v: &JsonValue) -> (r: Resolution)
        ensures
            r@ == resolution_from_json(v@, serde_rendered(serde_content_of(v@))),
    {
        let r = match v {
            JsonValue::String(s) => {
                if crate::json::str_eq(s.as_str(), "low") {
                    Resolution::Low
                } else if crate::json::str_eq(s.as_str(), "medium") {
                    Resolution::Medium
                } else if crate::json::str_eq(s.as_str(), "high") {
                    Resolution::High
                } else if crate::json::str_eq(s.as_str(), "ultra_high") {
                    Resolution::UltraHigh
                } else {
                    Resolution::Unknown { resolution_type: s.clone(), data: v.deep_clone() }
                }
            },
            _ => {
                let text = compact_text(v);
                let mut resolution_type = String::from_str("<non-string: ");
                resolution_type.append(text.as_str());
                resolution_type.append(">");
                let res = Resolution::Unknown { resolution_type, data: v.deep_clone() };
                proof {
                    assert(res@ == resolution_from_json(v@, serde_rendered(serde_content_of(v@))));
                }
                res
            },
        };
        r
    }
}

proof fn lemma_resolution_literal_facts()
    ensures
        "low"@.len() == 3,
        "medium"@.len() == 6,
        "high"@.len() == 4,
        "ultra_high"@.len() == 10,
{
    reveal_strlit("low");
    reveal_strlit("medium");
    reveal_strlit("high");
    reveal_strlit("ultra_high");
}

/// A resolution's wire text decodes to a resolution with the same wire
/// text; a known resolution decodes to itself.
pub proof fn lemma_resolution_roundtrip(r: ResolutionModel)
    ensures
        resolution_name(resolution_from_json(Json::Str(resolution_name(r)), Seq::empty())) == resolution_name(r),
        !(r is Unknown) ==> resolution_from_json(Json::Str(resolution_name(r)), Seq::empty()) == r,
{
    lemma_resolution_literal_facts();
}

} // verus!
