//! A JSON value as the engine reads it, with lookups that default on absence.

use vstd::prelude::*;
use crate::error::Error;

verus! {

/// A decoded JSON document.
///
/// A number keeps its value where it is an integer that fits `i64`; any
/// other number reads as `Number(None)`.  An object keeps its entries in
/// the order in which the decoder walks them.
#[derive(Debug)]
pub enum Json {
    Null,
    Bool(bool),
    Number(Option<i64>),
    Str(String),
    Array(Vec<Json>),
    Object(Vec<(String, Json)>),
}

/// The mathematical value of a [`Json`] document.
pub enum JsonV {
    Null,
    Bool(bool),
    Number(Option<i64>),
    Str(Seq<char>),
    Array(Seq<JsonV>),
    Object(Seq<(Seq<char>, JsonV)>),
}

impl Json {
    /// The value of this document.
    pub open spec fn value(self) -> JsonV
        decreases self,
    {
        match self {
            Json::Null => JsonV::Null,
            Json::Bool(b) => JsonV::Bool(b),
            Json::Number(n) => JsonV::Number(n),
            Json::Str(s) => JsonV::Str(s@),
            Json::Array(items) => JsonV::Array(
                Seq::new(
                    items@.len(),
                    |i: int|
                        if 0 <= i < items@.len() {
                            items@[i].value()
                        } else {
                            JsonV::Null
                        },
                ),
            ),
            Json::Object(entries) => JsonV::Object(
                Seq::new(
                    entries@.len(),
                    |i: int|
                        if 0 <= i < entries@.len() {
                            (entries@[i].0@, entries@[i].1.value())
                        } else {
                            (Seq::empty(), JsonV::Null)
                        },
                ),
            ),
        }
    }
}

impl View for Json {
    type V = JsonV;

    open spec fn view(&self) -> JsonV {
        self.value()
    }
}

/// The values of a sequence of documents.
pub open spec fn json_views(items: Seq<Json>) -> Seq<JsonV> {
    Seq::new(items.len(), |i: int| items[i]@)
}

/// The values of the entries of an object.
pub open spec fn entry_views(entries: Seq<(String, Json)>) -> Seq<(Seq<char>, JsonV)> {
    Seq::new(entries.len(), |i: int| (entries[i].0@, entries[i].1@))
}

/// The value of the first entry under `key`, if there is one.
pub open spec fn entry_at(entries: Seq<(Seq<char>, JsonV)>, key: Seq<char>) -> Option<JsonV>
    decreases entries.len(),
{
    if entries.len() == 0 {
        None
    } else if entries[0].0 == key {
        Some(entries[0].1)
    } else {
        entry_at(entries.drop_first(), key)
    }
}

impl JsonV {
    /// The member of an object under `key`.
    pub open spec fn lookup(self, key: Seq<char>) -> Option<JsonV> {
        match self {
            JsonV::Object(entries) => entry_at(entries, key),
            _ => None,
        }
    }

    /// The member under `key`; `Null` for a missing key and for anything
    /// that is not an object.
    pub open spec fn member(self, key: Seq<char>) -> JsonV {
        match self.lookup(key) {
            Some(v) => v,
            None => JsonV::Null,
        }
    }

    /// The characters of a string.
    pub open spec fn text(self) -> Option<Seq<char>> {
        match self {
            JsonV::Str(s) => Some(s),
            _ => None,
        }
    }

    /// The characters of a string, `default` for anything else.
    pub open spec fn text_or(self, default: Seq<char>) -> Seq<char> {
        match self {
            JsonV::Str(s) => s,
            _ => default,
        }
    }

    /// The items of an array.
    pub open spec fn items(self) -> Option<Seq<JsonV>> {
        match self {
            JsonV::Array(items) => Some(items),
            _ => None,
        }
    }

    /// The entries of an object.
    pub open spec fn entries(self) -> Option<Seq<(Seq<char>, JsonV)>> {
        match self {
            JsonV::Object(entries) => Some(entries),
            _ => None,
        }
    }

    /// The value of an integer that fits `i64`.
    pub open spec fn integer(self) -> Option<i64> {
        match self {
            JsonV::Number(n) => n,
            _ => None,
        }
    }

    /// The value of a boolean.
    pub open spec fn boolean(self) -> Option<bool> {
        match self {
            JsonV::Bool(b) => Some(b),
            _ => None,
        }
    }
}

/// An array's value is made of the values of its items.
pub proof fn lemma_array_view(items: Vec<Json>)
    ensures
        Json::Array(items)@ == JsonV::Array(json_views(items@)),
{
    let v = Json::Array(items)@;
    assert(v is Array);
    assert(v->Array_0.len() == items@.len());
    assert forall|i: int| 0 <= i < items@.len() implies v->Array_0[i] == json_views(items@)[i] by {}
    assert(v->Array_0 =~= json_views(items@));
}

/// An object's value is made of the values of its entries.
pub proof fn lemma_object_view(entries: Vec<(String, Json)>)
    ensures
        Json::Object(entries)@ == JsonV::Object(entry_views(entries@)),
{
    let v = Json::Object(entries)@;
    assert(v is Object);
    assert(v->Object_0.len() == entries@.len());
    assert(v->Object_0 =~= entry_views(entries@));
}

impl Json {
    /// The member of an object under `key`.
    pub fn get(&self, key: &str) -> (r: Option<&Json>)
        ensures
            match r {
                Some(j) => self@.lookup(key@) == Some(j@),
                None => self@.lookup(key@) is None,
            },
    {
        match self {
            Json::Object(entries) => {
                proof {
                    lemma_object_view(*entries);
                }
                let ghost all = entry_views(entries@);
                let mut i: usize = 0;
                assert(all.skip(0) =~= all);
                while i < entries.len()
                    invariant
                        i <= entries@.len(),
                        all == entry_views(entries@),
                        self@.lookup(key@) == entry_at(all, key@),
                        entry_at(all, key@) == entry_at(all.skip(i as int), key@),
                    decreases entries@.len() - i,
                {
                    let ghost rest = all.skip(i as int);
                    assert(rest[0] == all[i as int]);
                    assert(rest.drop_first() =~= all.skip(i + 1));
                    if crate::text::str_eq(entries[i].0.as_str(), key) {
                        assert(entry_at(rest, key@) == Some(rest[0].1));
                        return Some(&entries[i].1);
                    }
                    assert(entry_at(rest, key@) == entry_at(rest.drop_first(), key@));
                    i = i + 1;
                }
                None
            },
            _ => None,
        }
    }

    /// The characters of a string.
    pub fn as_str(&self) -> (r: Option<&str>)
        ensures
            match r {
                Some(s) => self@.text() == Some(s@),
                None => self@.text() is None,
            },
    {
        match self {
            Json::Str(s) => Some(s.as_str()),
            _ => None,
        }
    }

    /// The items of an array.
    pub fn as_array(&self) -> (r: Option<&Vec<Json>>)
        ensures
            match r {
                Some(items) => self@.items() == Some(json_views(items@)),
                None => self@.items() is None,
            },
    {
        match self {
            Json::Array(items) => {
                proof {
                    lemma_array_view(*items);
                }
                Some(items)
            },
            _ => None,
        }
    }

    /// The entries of an object.
    pub fn as_object(&self) -> (r: Option<&Vec<(String, Json)>>)
        ensures
            match r {
                Some(entries) => self@.entries() == Some(entry_views(entries@)),
                None => self@.entries() is None,
            },
    {
        match self {
            Json::Object(entries) => {
                proof {
                    lemma_object_view(*entries);
                }
                Some(entries)
            },
            _ => None,
        }
    }

    /// The value of an integer that fits `i64`.
    pub fn as_i64(&self) -> (r: Option<i64>)
        ensures
            r == self@.integer(),
    {
        match self {
            Json::Number(n) => *n,
            _ => None,
        }
    }

    /// The value of a boolean.
    pub fn as_bool(&self) -> (r: Option<bool>)
        ensures
            r == self@.boolean(),
    {
        match self {
            Json::Bool(b) => Some(*b),
            _ => None,
        }
    }

    /// The string under `key`, if the member is a string.
    pub fn str_at(&self, key: &str) -> (r: Option<&str>)
        ensures
            match r {
                Some(s) => self@.member(key@).text() == Some(s@),
                None => self@.member(key@).text() is None,
            },
    {
        match self.get(key) {
            Some(j) => j.as_str(),
            None => None,
        }
    }

    /// The string under `key` of the member under `outer`, or `default`
    /// where there is no such string.
    pub fn string_in(&self, outer: &str, key: &str, default: &str) -> (r: String)
        ensures
            r@ == self@.member(outer@).member(key@).text_or(default@),
    {
        match self.get(outer) {
            Some(inner) => inner.string_at(key, default),
            None => default.to_owned(),
        }
    }

    /// The string under `key`, or `default` where the member is no string.
    pub fn string_at(&self, key: &str, default: &str) -> (r: String)
        ensures
            r@ == self@.member(key@).text_or(default@),
    {
        match self.str_at(key) {
            Some(s) => s.to_owned(),
            None => default.to_owned(),
        }
    }
}

/// `serde_json::Value`, the decoder's own tree; it is only passed on.
#[verifier::external_type_specification]
#[verifier::external_body]
pub struct ExValue(serde_json::Value);

/// What `serde_json::from_str` makes of a text: the document, or nothing
/// where the text is not JSON.
pub uninterp spec fn json_decoded(text: Seq<char>) -> Option<JsonV>;

/// The compact text that `serde_json` writes for a document.
pub uninterp spec fn json_encoded(doc: JsonV) -> Seq<char>;

/// Copies a `serde_json::Value` node by node; a number is read with
/// `serde_json::Number::as_i64`.
#[verifier::external_body]
fn copy_from_value(v: &serde_json::Value) -> Json {
    match v {
        serde_json::Value::Null => Json::Null,
        serde_json::Value::Bool(b) => Json::Bool(*b),
        serde_json::Value::Number(n) => Json::Number(n.as_i64()),
        serde_json::Value::String(s) => Json::Str(s.clone()),
        serde_json::Value::Array(a) => Json::Array(a.iter().map(copy_from_value).collect()),
        serde_json::Value::Object(o) => Json::Object(
            o.iter().map(|(k, v)| (k.clone(), copy_from_value(v))).collect(),
        ),
    }
}

/// Copies a document into a `serde_json::Value` node by node; a number
/// without a value becomes `null`, and of two entries under one key the
/// later one stays.
#[verifier::external_body]
fn copy_to_value(doc: &Json) -> serde_json::Value {
    match doc {
        Json::Null => serde_json::Value::Null,
        Json::Bool(b) => serde_json::Value::Bool(*b),
        Json::Number(n) => serde_json::Value::from(*n),
        Json::Str(s) => serde_json::Value::String(s.clone()),
        Json::Array(a) => serde_json::Value::Array(a.iter().map(copy_to_value).collect()),
        Json::Object(o) => serde_json::Value::Object(
            o.iter().map(|(k, v)| (k.clone(), copy_to_value(v))).collect(),
        ),
    }
}

/// `serde_json::from_str` on `text`, read as a `serde_json::Value` and
/// copied: the result is the decoded document, or `None` where the
/// decoder reports an error.
#[verifier::external_body]
fn decode_text(text: &str) -> (r: Option<Json>)
    ensures
        match r {
            Some(doc) => json_decoded(text@) == Some(doc@),
            None => json_decoded(text@) is None,
        },
{
    match serde_json::from_str::<serde_json::Value>(text) {
        Ok(v) => Some(copy_from_value(&v)),
        Err(_) => None,
    }
}

/// The compact text of `doc`, written by the `Display` impl of
/// `serde_json::Value`.
#[verifier::external_body]
fn encode_text(doc: &Json) -> (text: String)
    ensures
        text@ == json_encoded(doc@),
{
    copy_to_value(doc).to_string()
}

impl Json {
    /// The string `s` as a document.
    pub fn text(s: &str) -> (doc: Json)
        ensures
            doc@ == JsonV::Str(s@),
    {
        Json::Str(s.to_owned())
    }

    /// The object with the given entries.
    pub fn object(entries: Vec<(String, Json)>) -> (doc: Json)
        ensures
            doc@ == JsonV::Object(entry_views(entries@)),
    {
        proof {
            lemma_object_view(entries);
        }
        Json::Object(entries)
    }

    /// The array with the given items.
    pub fn array(items: Vec<Json>) -> (doc: Json)
        ensures
            doc@ == JsonV::Array(json_views(items@)),
    {
        proof {
            lemma_array_view(items);
        }
        Json::Array(items)
    }

    /// Decodes a JSON text.  A text that is not JSON is a malformed
    /// response.
    pub fn parse(text: &str) -> (r: Result<Json, Error>)
        ensures
            match r {
                Ok(doc) => json_decoded(text@) == Some(doc@),
                Err(e) => e == Error::MalformedResponse && json_decoded(text@) is None,
            },
    {
        match decode_text(text) {
            Some(doc) => Ok(doc),
            None => Err(Error::MalformedResponse),
        }
    }

    /// The compact JSON text of this document.
    pub fn to_text(&self) -> (text: String)
        ensures
            text@ == json_encoded(self@),
    {
        encode_text(self)
    }
}

} // verus!
