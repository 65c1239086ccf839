//! Metadata returned by the built-in tools: Google Search grounding, URL
//! context and file search.
//!
//! Every record here takes defaults for missing fields: an absent field is
//! the empty string, the empty list or the unspecified status. Keys are
//! written in camelCase.

use vstd::prelude::*;
use vstd::string::*;
use crate::json::{Json, JsonValue, entries_view, values_view, object_of, push_entry, push_str_entry};
use crate::fields::{
    Fields, Src, arity_ok, check_arity, dec_default_string, dec_default_string_list,
    read_default_string, read_default_string_list, record_fields, record_src, src_field,
    strings_json, strings_to_json, strings_view, unit_tag, read_unit_tag,
};

verus! {

/// Details of a web page: its URI, title and domain.
#[derive(Debug, PartialEq)]
pub struct WebSource {
    pub uri: String,
    pub title: String,
    pub domain: String,
}

pub struct WebSourceModel {
    pub uri: Seq<char>,
    pub title: Seq<char>,
    pub domain: Seq<char>,
}

impl View for WebSource {
    type V = WebSourceModel;

    open spec fn view(&self) -> WebSourceModel {
        WebSourceModel { uri: self.uri@, title: self.title@, domain: self.domain@ }
    }
}

pub open spec fn empty_web_source() -> WebSourceModel {
    WebSourceModel { uri: Seq::empty(), title: Seq::empty(), domain: Seq::empty() }
}

impl Default for WebSource {
    fn default() -> (r: Self)
        ensures
            r@ == empty_web_source(),
    {
        WebSource { uri: String::new(), title: String::new(), domain: String::new() }
    }
}

pub open spec fn web_source_json(w: WebSourceModel) -> Json {
    Json::Object(seq![("uri"@, Json::Str(w.uri)), ("title"@, Json::Str(w.title)), ("domain"@, Json::Str(w.domain))])
}

/// Decoding of a web source from an object or an array; absent fields are empty.
pub open spec fn web_source_from_json(j: Json) -> Result<WebSourceModel, ()> {
    match record_src(j) {
        None => Err(()),
        Some(src) => if !arity_ok(src, 3) {
            Err(())
        } else {
            match (
                dec_default_string(src, "uri"@, 0),
                dec_default_string(src, "title"@, 1),
                dec_default_string(src, "domain"@, 2),
            ) {
                (Ok(uri), Ok(title), Ok(domain)) => Ok(WebSourceModel { uri, title, domain }),
                _ => Err(()),
            }
        },
    }
}

pub open spec fn view_res_web(r: Result<WebSource, ()>) -> Result<WebSourceModel, ()> {
    match r {
        Ok(w) => Ok(w@),
        Err(_) => Err(()),
    }
}

impl WebSource {
    /// The JSON object of this source.
    pub fn to_json(&self) -> (r: JsonValue)
        ensures
            r@ == web_source_json(self@),
    {
        let mut e: Vec<(String, JsonValue)> = Vec::new();
        push_str_entry(&mut e, "uri", self.uri.as_str());
        push_str_entry(&mut e, "title", self.title.as_str());
        push_str_entry(&mut e, "domain", self.domain.as_str());
        proof {
            assert(entries_view(e@) =~= web_source_json(self@)->Object_0);
        }
        object_of(e)
    }

    /// Decodes a source from an object or an array.
    pub fn from_json(v: &JsonValue) -> (r: Result<WebSource, ()>)
        ensures
            view_res_web(r) == web_source_from_json(v@),
    {
        let f = match record_fields(v) {
            Some(f) => f,
            None => return Err(()),
        };
        if !check_arity(&f, 3) {
            return Err(());
        }
        match (
            read_default_string(&f, "uri", 0),
            read_default_string(&f, "title", 1),
            read_default_string(&f, "domain", 2),
        ) {
            (Ok(uri), Ok(title), Ok(domain)) => Ok(WebSource { uri, title, domain }),
            _ => Err(()),
        }
    }
}

/// A web source that grounds a response.
#[derive(Debug, PartialEq)]
pub struct GroundingChunk {
    pub web: WebSource,
}

pub struct GroundingChunkModel {
    pub web: WebSourceModel,
}

impl View for GroundingChunk {
    type V = GroundingChunkModel;

    open spec fn view(&self) -> GroundingChunkModel {
        GroundingChunkModel { web: self.web@ }
    }
}

impl Default for GroundingChunk {
    fn default() -> (r: Self)
        ensures
            r@ == (GroundingChunkModel { web: empty_web_source() }),
    {
        GroundingChunk { web: WebSource::default() }
    }
}

pub open spec fn chunk_json(c: GroundingChunkModel) -> Json {
    Json::Object(seq![("web"@, web_source_json(c.web))])
}

/// Decoding of a grounding chunk; an absent `web` is the empty source.
pub open spec fn chunk_from_json(j: Json) -> Result<GroundingChunkModel, ()> {
    match record_src(j) {
        None => Err(()),
        Some(src) => if !arity_ok(src, 1) {
            Err(())
        } else {
            match src_field(src, "web"@, 0) {
                None => Ok(GroundingChunkModel { web: empty_web_source() }),
                Some(w) => match web_source_from_json(w) {
                    Ok(web) => Ok(GroundingChunkModel { web }),
                    Err(_) => Err(()),
                },
            }
        },
    }
}

pub open spec fn view_res_chunk(r: Result<GroundingChunk, ()>) -> Result<GroundingChunkModel, ()> {
    match r {
        Ok(c) => Ok(c@),
        Err(_) => Err(()),
    }
}

impl GroundingChunk {
    pub fn to_json(&self) -> (r: JsonValue)
        ensures
            r@ == chunk_json(self@),
    {
        let mut e: Vec<(String, JsonValue)> = Vec::new();
        push_entry(&mut e, "web", self.web.to_json());
        proof {
            assert(entries_view(e@) =~= chunk_json(self@)->Object_0);
        }
        object_of(e)
    }

    pub fn from_json(v: &JsonValue) -> (r: Result<GroundingChunk, ()>)
        ensures
            view_res_chunk(r) == chunk_from_json(v@),
    {
        let f = match record_fields(v) {
            Some(f) => f,
            None => return Err(()),
        };
        if !check_arity(&f, 1) {
            return Err(());
        }
        match f.field("web", 0) {
            None => Ok(GroundingChunk { web: WebSource::default() }),
            Some(w) => match WebSource::from_json(w) {
                Ok(web) => Ok(GroundingChunk { web }),
                Err(_) => Err(()),
            },
        }
    }
}

/// Status of a URL retrieval attempt.
#[derive(Clone, Copy, Debug, PartialEq, Eq)]
pub enum UrlRetrievalStatus {
    UrlRetrievalStatusUnspecified,
    UrlRetrievalStatusSuccess,
    UrlRetrievalStatusUnsafe,
    UrlRetrievalStatusError,
}

impl Default for UrlRetrievalStatus {
    fn default() -> (r: Self)
        ensures
            r == UrlRetrievalStatus::UrlRetrievalStatusUnspecified,
    {
        UrlRetrievalStatus::UrlRetrievalStatusUnspecified
    }
}

/// The wire name of a status.
pub open spec fn status_name(s: UrlRetrievalStatus) -> Seq<char> {
    match s {
        UrlRetrievalStatus::UrlRetrievalStatusUnspecified => "URL_RETRIEVAL_STATUS_UNSPECIFIED"@,
        UrlRetrievalStatus::UrlRetrievalStatusSuccess => "URL_RETRIEVAL_STATUS_SUCCESS"@,
        UrlRetrievalStatus::UrlRetrievalStatusUnsafe => "URL_RETRIEVAL_STATUS_UNSAFE"@,
        UrlRetrievalStatus::UrlRetrievalStatusError => "URL_RETRIEVAL_STATUS_ERROR"@,
    }
}

/// Decoding of a status from its variant name; any other name is an error.
pub open spec fn status_from_json(v: Json) -> Result<UrlRetrievalStatus, ()> {
    match unit_tag(v) {
        Some(t) => if t == "URL_RETRIEVAL_STATUS_UNSPECIFIED"@ {
            Ok(UrlRetrievalStatus::UrlRetrievalStatusUnspecified)
        } else if t == "URL_RETRIEVAL_STATUS_SUCCESS"@ {
            Ok(UrlRetrievalStatus::UrlRetrievalStatusSuccess)
        } else if t == "URL_RETRIEVAL_STATUS_UNSAFE"@ {
            Ok(UrlRetrievalStatus::UrlRetrievalStatusUnsafe)
        } else if t == "URL_RETRIEVAL_STATUS_ERROR"@ {
            Ok(UrlRetrievalStatus::UrlRetrievalStatusError)
        } else {
            Err(())
        },
        None => Err(()),
    }
}

impl UrlRetrievalStatus {
    /// The JSON encoding of this status: its wire name.
    pub fn to_json(&self) -> (r: JsonValue)
        ensures
            r@ == Json::Str(status_name(*self)),
    {
        let name = match self {
            UrlRetrievalStatus::UrlRetrievalStatusUnspecified => "URL_RETRIEVAL_STATUS_UNSPECIFIED",
            UrlRetrievalStatus::UrlRetrievalStatusSuccess => "URL_RETRIEVAL_STATUS_SUCCESS",
            UrlRetrievalStatus::UrlRetrievalStatusUnsafe => "URL_RETRIEVAL_STATUS_UNSAFE",
            UrlRetrievalStatus::UrlRetrievalStatusError => "URL_RETRIEVAL_STATUS_ERROR",
        };
        JsonValue::String(String::from_str(name))
    }

    /// Decodes a status from its variant name.
    pub fn from_json(v: &JsonValue) -> (r: Result<UrlRetrievalStatus, ()>)
        ensures
            r == status_from_json(v@),
    {
        match read_unit_tag(v) {
            Some(t) => {
                if crate::json::str_eq(t.as_str(), "URL_RETRIEVAL_STATUS_UNSPECIFIED") {
                    Ok(UrlRetrievalStatus::UrlRetrievalStatusUnspecified)
                } else if crate::json::str_eq(t.as_str(), "URL_RETRIEVAL_STATUS_SUCCESS") {
                    Ok(UrlRetrievalStatus::UrlRetrievalStatusSuccess)
                } else if crate::json::str_eq(t.as_str(), "URL_RETRIEVAL_STATUS_UNSAFE") {
                    Ok(UrlRetrievalStatus::UrlRetrievalStatusUnsafe)
                } else if crate::json::str_eq(t.as_str(), "URL_RETRIEVAL_STATUS_ERROR") {
                    Ok(UrlRetrievalStatus::UrlRetrievalStatusError)
                } else {
                    Err(())
                }
            },
            None => Err(()),
        }
    }
}

/// Decoding of a list whose items are decoded by `dec`: all of them, or an error.
pub open spec fn list_from_json<T>(items: Seq<Json>, dec: spec_fn(Json) -> Result<T, ()>) -> Result<Seq<T>, ()>
    decreases items.len(),
{
    if items.len() == 0 {
        Ok(Seq::empty())
    } else {
        match (list_from_json(items.drop_last(), dec), dec(items.last())) {
            (Ok(a), Ok(b)) => Ok(a.push(b)),
            _ => Err(()),
        }
    }
}

/// A list field that defaults to the empty list.
pub open spec fn dec_default_list<T>(src: Src, name: Seq<char>, pos: int, dec: spec_fn(Json) -> Result<T, ()>) -> Result<Seq<T>, ()> {
    match src_field(src, name, pos) {
        None => Ok(Seq::empty()),
        Some(Json::Array(items)) => list_from_json(items, dec),
        Some(_) => Err(()),
    }
}

proof fn lemma_list_error_extends<T>(items: Seq<Json>, dec: spec_fn(Json) -> Result<T, ()>, i: int)
    requires
        0 <= i < items.len(),
        dec(items[i]) is Err,
    ensures
        list_from_json(items, dec) is Err,
    decreases items.len(),
{
    if i < items.len() - 1 {
        lemma_list_error_extends(items.drop_last(), dec, i);
    }
}

/// Decoding a list of encodings gives the list back, where each item does.
proof fn lemma_list_roundtrip<T>(v: Seq<T>, enc: spec_fn(T) -> Json, dec: spec_fn(Json) -> Result<T, ()>)
    requires
        forall|x: T| #[trigger] dec(enc(x)) == Ok::<T, ()>(x),
    ensures
        list_from_json(Seq::new(v.len(), |i: int| enc(v[i])), dec) == Ok::<_, ()>(v),
    decreases v.len(),
{
    let items = Seq::new(v.len(), |i: int| enc(v[i]));
    if v.len() > 0 {
        lemma_list_roundtrip(v.drop_last(), enc, dec);
        assert(items.drop_last() =~= Seq::new(v.drop_last().len(), |i: int| enc(v.drop_last()[i])));
        assert(dec(enc(v.last())) == Ok::<T, ()>(v.last()));
        assert(v.drop_last().push(v.last()) =~= v);
    } else {
        assert(v =~= Seq::<T>::empty());
    }
}

/// One processed URL and how its retrieval went.
#[derive(Debug, PartialEq)]
pub struct UrlMetadataEntry {
    pub retrieved_url: String,
    pub url_retrieval_status: UrlRetrievalStatus,
}

pub struct UrlMetadataEntryModel {
    pub retrieved_url: Seq<char>,
    pub url_retrieval_status: UrlRetrievalStatus,
}

impl View for UrlMetadataEntry {
    type V = UrlMetadataEntryModel;

    open spec fn view(&self) -> UrlMetadataEntryModel {
        UrlMetadataEntryModel { retrieved_url: self.retrieved_url@, url_retrieval_status: self.url_retrieval_status }
    }
}

impl Default for UrlMetadataEntry {
    fn default() -> (r: Self)
        ensures
            r@ == (UrlMetadataEntryModel {
                retrieved_url: Seq::empty(),
                url_retrieval_status: UrlRetrievalStatus::UrlRetrievalStatusUnspecified,
            }),
    {
        UrlMetadataEntry {
            retrieved_url: String::new(),
            url_retrieval_status: UrlRetrievalStatus::UrlRetrievalStatusUnspecified,
        }
    }
}

pub open spec fn url_entry_json(e: UrlMetadataEntryModel) -> Json {
    Json::Object(
        seq![
            ("retrievedUrl"@, Json::Str(e.retrieved_url)),
            ("urlRetrievalStatus"@, Json::Str(status_name(e.url_retrieval_status))),
        ],
    )
}

/// Decoding of a URL entry; an absent URL is empty and an absent status unspecified.
pub open spec fn url_entry_from_json(j: Json) -> Result<UrlMetadataEntryModel, ()> {
    match record_src(j) {
        None => Err(()),
        Some(src) => if !arity_ok(src, 2) {
            Err(())
        } else {
            match (
                dec_default_string(src, "retrievedUrl"@, 0),
                match src_field(src, "urlRetrievalStatus"@, 1) {
                    None => Ok(UrlRetrievalStatus::UrlRetrievalStatusUnspecified),
                    Some(s) => status_from_json(s),
                },
            ) {
                (Ok(retrieved_url), Ok(url_retrieval_status)) => Ok(
                    UrlMetadataEntryModel { retrieved_url, url_retrieval_status },
                ),
                _ => Err(()),
            }
        },
    }
}

pub open spec fn view_res_url_entry(r: Result<UrlMetadataEntry, ()>) -> Result<UrlMetadataEntryModel, ()> {
    match r {
        Ok(e) => Ok(e@),
        Err(_) => Err(()),
    }
}

impl UrlMetadataEntry {
    pub fn to_json(&self) -> (r: JsonValue)
        ensures
            r@ == url_entry_json(self@),
    {
        let mut e: Vec<(String, JsonValue)> = Vec::new();
        push_str_entry(&mut e, "retrievedUrl", self.retrieved_url.as_str());
        push_entry(&mut e, "urlRetrievalStatus", self.url_retrieval_status.to_json());
        proof {
            assert(entries_view(e@) =~= url_entry_json(self@)->Object_0);
        }
        object_of(e)
    }

    pub fn from_json(v: &JsonValue) -> (r: Result<UrlMetadataEntry, ()>)
        ensures
            view_res_url_entry(r) == url_entry_from_json(v@),
    {
        let f = match record_fields(v) {
            Some(f) => f,
            None => return Err(()),
        };
        if !check_arity(&f, 2) {
            return Err(());
        }
        let url = read_default_string(&f, "retrievedUrl", 0);
        let status = match f.field("urlRetrievalStatus", 1) {
            None => Ok(UrlRetrievalStatus::UrlRetrievalStatusUnspecified),
            Some(s) => UrlRetrievalStatus::from_json(s),
        };
        match (url, status) {
            (Ok(retrieved_url), Ok(url_retrieval_status)) => Ok(UrlMetadataEntry { retrieved_url, url_retrieval_status }),
            _ => Err(()),
        }
    }
}

/// A file search hit: the document's title, the matching text and the store
/// it was found in.
#[derive(Debug, PartialEq)]
pub struct FileSearchResultItem {
    pub title: String,
    pub text: String,
    pub store: String,
}

pub struct FileSearchResultItemModel {
    pub title: Seq<char>,
    pub text: Seq<char>,
    pub store: Seq<char>,
}

impl View for FileSearchResultItem {
    type V = FileSearchResultItemModel;

    open spec fn view(&self) -> FileSearchResultItemModel {
        FileSearchResultItemModel { title: self.title@, text: self.text@, store: self.store@ }
    }
}

impl Default for FileSearchResultItem {
    fn default() -> (r: Self)
        ensures
            r@ == (FileSearchResultItemModel { title: Seq::empty(), text: Seq::empty(), store: Seq::empty() }),
    {
        FileSearchResultItem { title: String::new(), text: String::new(), store: String::new() }
    }
}

/// The JSON object of a file search hit; the store is written as `fileSearchStore`.
pub open spec fn file_item_json(i: FileSearchResultItemModel) -> Json {
    Json::Object(
        seq![("title"@, Json::Str(i.title)), ("text"@, Json::Str(i.text)), ("fileSearchStore"@, Json::Str(i.store))],
    )
}

pub open spec fn file_item_from_json(j: Json) -> Result<FileSearchResultItemModel, ()> {
    match record_src(j) {
        None => Err(()),
        Some(src) => if !arity_ok(src, 3) {
            Err(())
        } else {
            match (
                dec_default_string(src, "title"@, 0),
                dec_default_string(src, "text"@, 1),
                dec_default_string(src, "fileSearchStore"@, 2),
            ) {
                (Ok(title), Ok(text), Ok(store)) => Ok(FileSearchResultItemModel { title, text, store }),
                _ => Err(()),
            }
        },
    }
}

pub open spec fn view_res_file_item(r: Result<FileSearchResultItem, ()>) -> Result<FileSearchResultItemModel, ()> {
    match r {
        Ok(i) => Ok(i@),
        Err(_) => Err(()),
    }
}

impl FileSearchResultItem {
    pub fn to_json(&self) -> (r: JsonValue)
        ensures
            r@ == file_item_json(self@),
    {
        let mut e: Vec<(String, JsonValue)> = Vec::new();
        push_str_entry(&mut e, "title", self.title.as_str());
        push_str_entry(&mut e, "text", self.text.as_str());
        push_str_entry(&mut e, "fileSearchStore", self.store.as_str());
        proof {
            assert(entries_view(e@) =~= file_item_json(self@)->Object_0);
        }
        object_of(e)
    }

    pub fn from_json(v: &JsonValue) -> (r: Result<FileSearchResultItem, ()>)
        ensures
            view_res_file_item(r) == file_item_from_json(v@),
    {
        let f = match record_fields(v) {
            Some(f) => f,
            None => return Err(()),
        };
        if !check_arity(&f, 3) {
            return Err(());
        }
        match (
            read_default_string(&f, "title", 0),
            read_default_string(&f, "text", 1),
            read_default_string(&f, "fileSearchStore", 2),
        ) {
            (Ok(title), Ok(text), Ok(store)) => Ok(FileSearchResultItem { title, text, store }),
            _ => Err(()),
        }
    }
}

pub open spec fn chunks_view(v: Seq<GroundingChunk>) -> Seq<GroundingChunkModel> {
    Seq::new(v.len(), |i: int| v[i]@)
}

pub open spec fn url_entries_view(v: Seq<UrlMetadataEntry>) -> Seq<UrlMetadataEntryModel> {
    Seq::new(v.len(), |i: int| v[i]@)
}

/// Search queries run by the model and the web sources that ground its answer.
#[derive(Debug, PartialEq)]
pub struct GroundingMetadata {
    pub web_search_queries: Vec<String>,
    pub grounding_chunks: Vec<GroundingChunk>,
}

pub struct GroundingMetadataModel {
    pub web_search_queries: Seq<Seq<char>>,
    pub grounding_chunks: Seq<GroundingChunkModel>,
}

impl View for GroundingMetadata {
    type V = GroundingMetadataModel;

    open spec fn view(&self) -> GroundingMetadataModel {
        GroundingMetadataModel {
            web_search_queries: strings_view(self.web_search_queries@),
            grounding_chunks: chunks_view(self.grounding_chunks@),
        }
    }
}

impl Default for GroundingMetadata {
    fn default() -> (r: Self)
        ensures
            r@ == (GroundingMetadataModel { web_search_queries: Seq::empty(), grounding_chunks: Seq::empty() }),
    {
        let r = GroundingMetadata { web_search_queries: Vec::new(), grounding_chunks: Vec::new() };
        proof {
            assert(strings_view(r.web_search_queries@) =~= Seq::<Seq<char>>::empty());
            assert(chunks_view(r.grounding_chunks@) =~= Seq::<GroundingChunkModel>::empty());
        }
        r
    }
}

pub open spec fn grounding_json(g: GroundingMetadataModel) -> Json {
    Json::Object(
        seq![
            ("webSearchQueries"@, strings_json(g.web_search_queries)),
            (
                "groundingChunks"@,
                Json::Array(Seq::new(g.grounding_chunks.len(), |i: int| chunk_json(g.grounding_chunks[i]))),
            ),
        ],
    )
}

/// Decoding of grounding metadata; absent lists are empty.
pub open spec fn grounding_from_json(j: Json) -> Result<GroundingMetadataModel, ()> {
    match record_src(j) {
        None => Err(()),
        Some(src) => if !arity_ok(src, 2) {
            Err(())
        } else {
            match (
                dec_default_string_list(src, "webSearchQueries"@, 0),
                dec_default_list(src, "groundingChunks"@, 1, |c: Json| chunk_from_json(c)),
            ) {
                (Ok(web_search_queries), Ok(grounding_chunks)) => Ok(
                    GroundingMetadataModel { web_search_queries, grounding_chunks },
                ),
                _ => Err(()),
            }
        },
    }
}

pub open spec fn view_res_grounding(r: Result<GroundingMetadata, ()>) -> Result<GroundingMetadataModel, ()> {
    match r {
        Ok(g) => Ok(g@),
        Err(_) => Err(()),
    }
}

fn read_chunks(f: &Fields, name: &str, pos: usize) -> (r: Result<Vec<GroundingChunk>, ()>)
    ensures
        match r {
            Ok(v) => dec_default_list(f.src(), name@, pos as int, |c: Json| chunk_from_json(c))
                == Ok::<_, ()>(chunks_view(v@)),
            Err(_) => dec_default_list(f.src(), name@, pos as int, |c: Json| chunk_from_json(c)) is Err,
        },
{
    let ghost dec = |c: Json| chunk_from_json(c);
    match f.field(name, pos) {
        None => {
            let v: Vec<GroundingChunk> = Vec::new();
            proof {
                assert(chunks_view(v@) =~= Seq::<GroundingChunkModel>::empty());
            }
            Ok(v)
        },
        Some(JsonValue::Array(items)) => {
            let ghost iv = values_view(items@);
            proof {
                crate::json::lemma_array_view(*items);
                assert(iv.subrange(0, 0) =~= Seq::<Json>::empty());
            }
            let mut out: Vec<GroundingChunk> = Vec::new();
            proof {
                assert(chunks_view(out@) =~= Seq::<GroundingChunkModel>::empty());
            }
            let mut i: usize = 0;
            while i < items.len()
                invariant
                    iv == values_view(items@),
                    src_field(f.src(), name@, pos as int) == Some(Json::Array(iv)),
                    dec == (|c: Json| chunk_from_json(c)),
                    i <= items@.len(),
                    list_from_json(iv.subrange(0, i as int), dec) == Ok::<_, ()>(chunks_view(out@)),
                decreases items@.len() - i,
            {
                proof {
                    assert(iv.subrange(0, i + 1).drop_last() =~= iv.subrange(0, i as int));
                }
                match GroundingChunk::from_json(&items[i]) {
                    Ok(c) => {
                        let ghost before = out@;
                        out.push(c);
                        proof {
                            assert(chunks_view(out@) =~= chunks_view(before).push(c@));
                        }
                    },
                    Err(_) => {
                        proof {
                            assert(iv[i as int] == items@[i as int]@);
                            lemma_list_error_extends(iv, dec, i as int);
                        }
                        return Err(());
                    },
                }
                i = i + 1;
            }
            proof {
                assert(iv.subrange(0, items@.len() as int) =~= iv);
            }
            Ok(out)
        },
        Some(_) => Err(()),
    }
}

impl GroundingMetadata {
    pub fn to_json(&self) -> (r: JsonValue)
        ensures
            r@ == grounding_json(self@),
    {
        let mut chunks: Vec<JsonValue> = Vec::new();
        let mut i: usize = 0;
        while i < self.grounding_chunks.len()
            invariant
                i <= self.grounding_chunks@.len(),
                chunks@.len() == i,
                forall|j: int| 0 <= j < i ==> chunks@[j]@ == chunk_json(self.grounding_chunks@[j]@),
            decreases self.grounding_chunks@.len() - i,
        {
            chunks.push(self.grounding_chunks[i].to_json());
            i = i + 1;
        }
        proof {
            crate::json::lemma_array_view(chunks);
            assert(values_view(chunks@) =~= grounding_json(self@)->Object_0[1].1->Array_0);
        }
        let mut e: Vec<(String, JsonValue)> = Vec::new();
        push_entry(&mut e, "webSearchQueries", strings_to_json(&self.web_search_queries));
        push_entry(&mut e, "groundingChunks", crate::json::array_of(chunks));
        proof {
            assert(entries_view(e@) =~= grounding_json(self@)->Object_0);
        }
        object_of(e)
    }

    pub fn from_json(v: &JsonValue) -> (r: Result<GroundingMetadata, ()>)
        ensures
            view_res_grounding(r) == grounding_from_json(v@),
    {
        let f = match record_fields(v) {
            Some(f) => f,
            None => return Err(()),
        };
        if !check_arity(&f, 2) {
            return Err(());
        }
        match (read_default_string_list(&f, "webSearchQueries", 0), read_chunks(&f, "groundingChunks", 1)) {
            (Ok(web_search_queries), Ok(grounding_chunks)) => Ok(GroundingMetadata { web_search_queries, grounding_chunks }),
            _ => Err(()),
        }
    }
}

/// The retrieval status of every URL the URL context tool processed.
#[derive(Debug, PartialEq)]
pub struct UrlContextMetadata {
    pub url_metadata: Vec<UrlMetadataEntry>,
}

pub struct UrlContextMetadataModel {
    pub url_metadata: Seq<UrlMetadataEntryModel>,
}

impl View for UrlContextMetadata {
    type V = UrlContextMetadataModel;

    open spec fn view(&self) -> UrlContextMetadataModel {
        UrlContextMetadataModel { url_metadata: url_entries_view(self.url_metadata@) }
    }
}

impl Default for UrlContextMetadata {
    fn default() -> (r: Self)
        ensures
            r@ == (UrlContextMetadataModel { url_metadata: Seq::empty() }),
    {
        let r = UrlContextMetadata { url_metadata: Vec::new() };
        proof {
            assert(url_entries_view(r.url_metadata@) =~= Seq::<UrlMetadataEntryModel>::empty());
        }
        r
    }
}

pub open spec fn url_context_json(m: UrlContextMetadataModel) -> Json {
    Json::Object(
        seq![
            (
                "urlMetadata"@,
                Json::Array(Seq::new(m.url_metadata.len(), |i: int| url_entry_json(m.url_metadata[i]))),
            ),
        ],
    )
}

/// Decoding of URL context metadata; an absent list is empty.
pub open spec fn url_context_from_json(j: Json) -> Result<UrlContextMetadataModel, ()> {
    match record_src(j) {
        None => Err(()),
        Some(src) => if !arity_ok(src, 1) {
            Err(())
        } else {
            match dec_default_list(src, "urlMetadata"@, 0, |e: Json| url_entry_from_json(e)) {
                Ok(url_metadata) => Ok(UrlContextMetadataModel { url_metadata }),
                Err(_) => Err(()),
            }
        },
    }
}

pub open spec fn view_res_url_context(r: Result<UrlContextMetadata, ()>) -> Result<UrlContextMetadataModel, ()> {
    match r {
        Ok(m) => Ok(m@),
        Err(_) => Err(()),
    }
}

fn read_url_entries(f: &Fields, name: &str, pos: usize) -> (r: Result<Vec<UrlMetadataEntry>, ()>)
    ensures
        match r {
            Ok(v) => dec_default_list(f.src(), name@, pos as int, |e: Json| url_entry_from_json(e))
                == Ok::<_, ()>(url_entries_view(v@)),
            Err(_) => dec_default_list(f.src(), name@, pos as int, |e: Json| url_entry_from_json(e)) is Err,
        },
{
    let ghost dec = |e: Json| url_entry_from_json(e);
    match f.field(name, pos) {
        None => {
            let v: Vec<UrlMetadataEntry> = Vec::new();
            proof {
                assert(url_entries_view(v@) =~= Seq::<UrlMetadataEntryModel>::empty());
            }
            Ok(v)
        },
        Some(JsonValue::Array(items)) => {
            let ghost iv = values_view(items@);
            proof {
                crate::json::lemma_array_view(*items);
                assert(iv.subrange(0, 0) =~= Seq::<Json>::empty());
            }
            let mut out: Vec<UrlMetadataEntry> = Vec::new();
            proof {
                assert(url_entries_view(out@) =~= Seq::<UrlMetadataEntryModel>::empty());
            }
            let mut i: usize = 0;
            while i < items.len()
                invariant
                    iv == values_view(items@),
                    src_field(f.src(), name@, pos as int) == Some(Json::Array(iv)),
                    dec == (|e: Json| url_entry_from_json(e)),
                    i <= items@.len(),
                    list_from_json(iv.subrange(0, i as int), dec) == Ok::<_, ()>(url_entries_view(out@)),
                decreases items@.len() - i,
            {
                proof {
                    assert(iv.subrange(0, i + 1).drop_last() =~= iv.subrange(0, i as int));
                }
                match UrlMetadataEntry::from_json(&items[i]) {
                    Ok(c) => {
                        let ghost before = out@;
                        out.push(c);
                        proof {
                            assert(url_entries_view(out@) =~= url_entries_view(before).push(c@));
                        }
                    },
                    Err(_) => {
                        proof {
                            assert(iv[i as int] == items@[i as int]@);
                            lemma_list_error_extends(iv, dec, i as int);
                        }
                        return Err(());
                    },
                }
                i = i + 1;
            }
            proof {
                assert(iv.subrange(0, items@.len() as int) =~= iv);
            }
            Ok(out)
        },
        Some(_) => Err(()),
    }
}

impl UrlContextMetadata {
    pub fn to_json(&self) -> (r: JsonValue)
        ensures
            r@ == url_context_json(self@),
    {
        let mut items: Vec<JsonValue> = Vec::new();
        let mut i: usize = 0;
        while i < self.url_metadata.len()
            invariant
                i <= self.url_metadata@.len(),
                items@.len() == i,
                forall|j: int| 0 <= j < i ==> items@[j]@ == url_entry_json(self.url_metadata@[j]@),
            decreases self.url_metadata@.len() - i,
        {
            items.push(self.url_metadata[i].to_json());
            i = i + 1;
        }
        proof {
            crate::json::lemma_array_view(items);
            assert(values_view(items@) =~= url_context_json(self@)->Object_0[0].1->Array_0);
        }
        let mut e: Vec<(String, JsonValue)> = Vec::new();
        push_entry(&mut e, "urlMetadata", crate::json::array_of(items));
        proof {
            assert(entries_view(e@) =~= url_context_json(self@)->Object_0);
        }
        object_of(e)
    }

    pub fn from_json(v: &JsonValue) -> (r: Result<UrlContextMetadata, ()>)
        ensures
            view_res_url_context(r) == url_context_from_json(v@),
    {
        let f = match record_fields(v) {
            Some(f) => f,
            None => return Err(()),
        };
        if !check_arity(&f, 1) {
            return Err(());
        }
        match read_url_entries(&f, "urlMetadata", 0) {
            Ok(url_metadata) => Ok(UrlContextMetadata { url_metadata }),
            Err(_) => Err(()),
        }
    }
}

proof fn lemma_metadata_literal_facts()
    ensures
        "uri"@.len() == 3,
        "title"@.len() == 5,
        "domain"@.len() == 6,
        "web"@.len() == 3,
        "text"@.len() == 4,
        "fileSearchStore"@.len() == 15,
        "retrievedUrl"@.len() == 12,
        "urlRetrievalStatus"@.len() == 18,
        "webSearchQueries"@.len() == 16,
        "groundingChunks"@.len() == 15,
        "urlMetadata"@.len() == 11,
        "URL_RETRIEVAL_STATUS_UNSPECIFIED"@.len() == 32,
        "URL_RETRIEVAL_STATUS_SUCCESS"@.len() == 28,
        "URL_RETRIEVAL_STATUS_UNSAFE"@.len() == 27,
        "URL_RETRIEVAL_STATUS_ERROR"@.len() == 26,
{
    reveal_strlit("uri");
    reveal_strlit("title");
    reveal_strlit("domain");
    reveal_strlit("web");
    reveal_strlit("text");
    reveal_strlit("fileSearchStore");
    reveal_strlit("retrievedUrl");
    reveal_strlit("urlRetrievalStatus");
    reveal_strlit("webSearchQueries");
    reveal_strlit("groundingChunks");
    reveal_strlit("urlMetadata");
    reveal_strlit("URL_RETRIEVAL_STATUS_UNSPECIFIED");
    reveal_strlit("URL_RETRIEVAL_STATUS_SUCCESS");
    reveal_strlit("URL_RETRIEVAL_STATUS_UNSAFE");
    reveal_strlit("URL_RETRIEVAL_STATUS_ERROR");
}

/// Decoding the encoding of a web source gives it back.
pub proof fn lemma_web_source_roundtrip(w: WebSourceModel)
    ensures
        web_source_from_json(web_source_json(w)) == Ok::<_, ()>(w),
{
    lemma_metadata_literal_facts();
    reveal_with_fuel(crate::json::fields_get, 4);
    let v = web_source_json(w);
    assert(record_src(v) == Some(Src::Named(v->Object_0)));
}

/// Decoding the encoding of a grounding chunk gives it back.
pub proof fn lemma_chunk_roundtrip(c: GroundingChunkModel)
    ensures
        chunk_from_json(chunk_json(c)) == Ok::<_, ()>(c),
{
    lemma_metadata_literal_facts();
    reveal_with_fuel(crate::json::fields_get, 2);
    lemma_web_source_roundtrip(c.web);
    let v = chunk_json(c);
    assert(record_src(v) == Some(Src::Named(v->Object_0)));
}

/// A status decodes from its wire name.
pub proof fn lemma_status_roundtrip(s: UrlRetrievalStatus)
    ensures
        status_from_json(Json::Str(status_name(s))) == Ok::<_, ()>(s),
{
    lemma_metadata_literal_facts();
}

/// Decoding the encoding of a URL entry gives it back.
pub proof fn lemma_url_entry_roundtrip(e: UrlMetadataEntryModel)
    ensures
        url_entry_from_json(url_entry_json(e)) == Ok::<_, ()>(e),
{
    lemma_metadata_literal_facts();
    reveal_with_fuel(crate::json::fields_get, 3);
    lemma_status_roundtrip(e.url_retrieval_status);
    let v = url_entry_json(e);
    assert(record_src(v) == Some(Src::Named(v->Object_0)));
}

/// Decoding the encoding of a file search hit gives it back.
pub proof fn lemma_file_item_roundtrip(i: FileSearchResultItemModel)
    ensures
        file_item_from_json(file_item_json(i)) == Ok::<_, ()>(i),
{
    lemma_metadata_literal_facts();
    reveal_with_fuel(crate::json::fields_get, 4);
    let v = file_item_json(i);
    assert(record_src(v) == Some(Src::Named(v->Object_0)));
}

/// Decoding the encoding of grounding metadata gives it back.
pub proof fn lemma_grounding_roundtrip(g: GroundingMetadataModel)
    ensures
        grounding_from_json(grounding_json(g)) == Ok::<_, ()>(g),
{
    lemma_metadata_literal_facts();
    reveal_with_fuel(crate::json::fields_get, 3);
    let enc = |c: GroundingChunkModel| chunk_json(c);
    let dec = |c: Json| chunk_from_json(c);
    assert forall|x: GroundingChunkModel| #[trigger] dec(enc(x)) == Ok::<GroundingChunkModel, ()>(x) by {
        lemma_chunk_roundtrip(x);
    }
    lemma_list_roundtrip(g.grounding_chunks, enc, dec);
    crate::fields::lemma_strings_roundtrip(g.web_search_queries);
    let v = grounding_json(g);
    let src = Src::Named(v->Object_0);
    assert(record_src(v) == Some(src));
    assert(Seq::new(g.grounding_chunks.len(), |i: int| enc(g.grounding_chunks[i]))
        =~= Seq::new(g.grounding_chunks.len(), |i: int| chunk_json(g.grounding_chunks[i])));
    assert(dec_default_list(src, "groundingChunks"@, 1, dec) == Ok::<_, ()>(g.grounding_chunks));
}

/// Decoding the encoding of URL context metadata gives it back.
pub proof fn lemma_url_context_roundtrip(m: UrlContextMetadataModel)
    ensures
        url_context_from_json(url_context_json(m)) == Ok::<_, ()>(m),
{
    lemma_metadata_literal_facts();
    reveal_with_fuel(crate::json::fields_get, 2);
    let enc = |e: UrlMetadataEntryModel| url_entry_json(e);
    let dec = |e: Json| url_entry_from_json(e);
    assert forall|x: UrlMetadataEntryModel| #[trigger] dec(enc(x)) == Ok::<UrlMetadataEntryModel, ()>(x) by {
        lemma_url_entry_roundtrip(x);
    }
    lemma_list_roundtrip(m.url_metadata, enc, dec);
    let v = url_context_json(m);
    let src = Src::Named(v->Object_0);
    assert(record_src(v) == Some(src));
    assert(Seq::new(m.url_metadata.len(), |i: int| enc(m.url_metadata[i]))
        =~= Seq::new(m.url_metadata.len(), |i: int| url_entry_json(m.url_metadata[i])));
    assert(dec_default_list(src, "urlMetadata"@, 0, dec) == Ok::<_, ()>(m.url_metadata));
}

} // verus!
