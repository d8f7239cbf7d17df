//! JSON as the tool cells read it.

use vstd::prelude::*;

use crate::model::views;
use crate::strings::same;

verus! {

/// A JSON value. A container keeps its compact text beside its parts.
#[derive(Debug)]
pub enum Json {
    Null,
    Bool(bool),
    Number { text: String, unsigned: Option<u64> },
    Text(String),
    Array { items: Vec<Json>, text: String },
    Object { entries: Vec<(String, Json)>, text: String },
}

/// A JSON value as contracts see it.
pub ghost enum JsonV {
    Null,
    Bool(bool),
    Number { text: Seq<char>, unsigned: Option<u64> },
    Text(Seq<char>),
    Array { items: Seq<JsonV>, text: Seq<char> },
    Object { entries: Seq<(Seq<char>, JsonV)>, text: Seq<char> },
}

/// The value that `j` holds.
pub open spec fn json_view(j: Json) -> JsonV
    decreases j,
{
    match j {
        Json::Null => JsonV::Null,
        Json::Bool(b) => JsonV::Bool(b),
        Json::Number { text, unsigned } => JsonV::Number { text: text@, unsigned },
        Json::Text(s) => JsonV::Text(s@),
        Json::Array { items, text } => JsonV::Array {
            items: Seq::new(
                items@.len(),
                |i: int|
                    if 0 <= i < items@.len() {
                        json_view(items@[i])
                    } else {
                        JsonV::Null
                    },
            ),
            text: text@,
        },
        Json::Object { entries, text } => JsonV::Object {
            entries: Seq::new(
                entries@.len(),
                |i: int|
                    if 0 <= i < entries@.len() {
                        (entries@[i].0@, json_view(entries@[i].1))
                    } else {
                        (Seq::empty(), JsonV::Null)
                    },
            ),
            text: text@,
        },
    }
}

impl View for Json {
    type V = JsonV;

    open spec fn view(&self) -> JsonV {
        json_view(*self)
    }
}

/// What `serde_json::from_str` reads from a text, as a value; `None` where it
/// reads no value.
pub uninterp spec fn json_parsed(text: Seq<char>) -> Option<JsonV>;

/// A value of `serde_json`, which only the functions below look into.
#[verifier::external_type_specification]
#[verifier::external_body]
pub struct ExSerdeValue(serde_json::Value);

/// A `serde_json::Value` as a value of this library, part by part. A number keeps
/// its own text and what `as_u64` makes of it, a container its compact text.
#[verifier::external_body]
fn json_of(value: &serde_json::Value) -> Json {
    match value {
        serde_json::Value::Null => Json::Null,
        serde_json::Value::Bool(b) => Json::Bool(*b),
        serde_json::Value::Number(n) => Json::Number { text: n.to_string(), unsigned: n.as_u64() },
        serde_json::Value::String(s) => Json::Text(s.clone()),
        serde_json::Value::Array(a) => Json::Array { items: a.iter().map(json_of).collect(), text: value.to_string() },
        serde_json::Value::Object(o) => Json::Object {
            entries: o.iter().map(|(k, v)| (k.clone(), json_of(v))).collect(),
            text: value.to_string(),
        },
    }
}

/// `serde_json::from_str` into a value. What a text reads as is left to the crate.
#[verifier::external_body]
pub(crate) fn parse_json(text: &str) -> (r: Option<Json>)
    ensures
        match r {
            Some(v) => json_parsed(text@) == Some(v@),
            None => json_parsed(text@) is None,
        },
{
    serde_json::from_str::<serde_json::Value>(text).ok().as_ref().map(json_of)
}

/// The texts that `serde_json::from_str` reads from a JSON array of strings; `None`
/// where the text is no such array.
pub uninterp spec fn texts_parsed(text: Seq<char>) -> Option<Seq<Seq<char>>>;

/// What `serde_json::to_string` writes for a list of texts.
pub uninterp spec fn texts_printed(texts: Seq<Seq<char>>) -> Option<Seq<char>>;

/// `serde_json::from_str` into a list of texts. Which texts are read is left to the
/// crate.
#[verifier::external_body]
pub(crate) fn parse_texts(text: &str) -> (r: Option<Vec<String>>)
    ensures
        match r {
            Some(v) => texts_parsed(text@) == Some(views(v@)),
            None => texts_parsed(text@) is None,
        },
{
    serde_json::from_str::<Vec<String>>(text).ok()
}

/// `serde_json::to_string` of a list of texts. It fails only where a value's own
/// serialization does, or at a key that is no string, and a list of texts has
/// neither. Reading what it wrote gives the texts back.
#[verifier::external_body]
pub(crate) fn print_texts(texts: &Vec<String>) -> (r: Option<String>)
    ensures
        r is Some,
        texts_printed(views(texts@)) == Some(r->0@),
        texts_parsed(r->0@) == Some(views(texts@)),
{
    serde_json::to_string(texts).ok()
}

/// The first entry at or after `i` that has the key.
pub open spec fn entry_from(entries: Seq<(Seq<char>, JsonV)>, key: Seq<char>, i: int) -> Option<JsonV>
    decreases entries.len() - i,
{
    if i < 0 || i >= entries.len() {
        None
    } else if entries[i].0 == key {
        Some(entries[i].1)
    } else {
        entry_from(entries, key, i + 1)
    }
}

/// The value under a key of an object.
pub open spec fn json_get(v: JsonV, key: Seq<char>) -> Option<JsonV> {
    match v {
        JsonV::Object { entries, text } => entry_from(entries, key, 0),
        _ => None,
    }
}

/// The text of a string value.
pub open spec fn json_text(v: JsonV) -> Option<Seq<char>> {
    match v {
        JsonV::Text(s) => Some(s),
        _ => None,
    }
}

/// The string under a key of an object.
pub open spec fn json_field(v: JsonV, key: Seq<char>) -> Option<Seq<char>> {
    match json_get(v, key) {
        Some(x) => json_text(x),
        None => None,
    }
}

/// The string under a key of an object, or the empty text.
pub open spec fn json_field_or_empty(v: JsonV, key: Seq<char>) -> Seq<char> {
    match json_field(v, key) {
        Some(s) => s,
        None => Seq::empty(),
    }
}

/// The unsigned number under a key of an object.
pub open spec fn json_unsigned(v: JsonV, key: Seq<char>) -> Option<u64> {
    match json_get(v, key) {
        Some(JsonV::Number { text, unsigned }) => unsigned,
        _ => None,
    }
}

impl Json {
    /// The value under `key`, when this is an object that has it.
    pub fn get(&self, key: &str) -> (r: Option<&Json>)
        ensures
            match r {
                Some(x) => json_get(self@, key@) == Some(x@),
                None => json_get(self@, key@) is None,
            },
    {
        match self {
            Json::Object { entries, text } => {
                let ghost all = self@->Object_entries;
                let mut i: usize = 0;
                while i < entries.len()
                    invariant
                        i <= entries@.len(),
                        *self == (Json::Object { entries: *entries, text: *text }),
                        all == self@->Object_entries,
                        entry_from(all, key@, 0) == entry_from(all, key@, i as int),
                    decreases entries@.len() - i,
                {
                    let (k, v) = &entries[i];
                    assert(all[i as int] == (k@, v@));
                    if same(k.as_str(), key) {
                        return Some(v);
                    }
                    i += 1;
                }
                None
            },
            _ => None,
        }
    }

    /// The text, when this is a string.
    pub fn as_text(&self) -> (r: Option<&str>)
        ensures
            match r {
                Some(s) => json_text(self@) == Some(s@),
                None => json_text(self@) is None,
            },
    {
        match self {
            Json::Text(s) => Some(s.as_str()),
            _ => None,
        }
    }

    /// The string under `key`.
    pub fn field(&self, key: &str) -> (r: Option<&str>)
        ensures
            match r {
                Some(s) => json_field(self@, key@) == Some(s@),
                None => json_field(self@, key@) is None,
            },
    {
        match self.get(key) {
            Some(x) => x.as_text(),
            None => None,
        }
    }

    /// The string under `key`, or the empty text.
    pub fn field_or_empty(&self, key: &str) -> (r: String)
        ensures
            r@ == json_field_or_empty(self@, key@),
    {
        match self.field(key) {
            Some(s) => s.to_owned(),
            None => String::new(),
        }
    }

    /// The unsigned number under `key`.
    pub fn unsigned_field(&self, key: &str) -> (r: Option<u64>)
        ensures
            r == json_unsigned(self@, key@),
    {
        match self.get(key) {
            Some(Json::Number { text, unsigned }) => *unsigned,
            _ => None,
        }
    }
}

} // verus!
