//! JSON texts, read into a value that the dashboard can walk.
//!
//! The reading itself is `serde_json`'s. What it read is copied into a
//! value of this module's own, and every walk over such a value is stated
//! and proved here.

use crate::text::str_eq;
use serde_json::Value;
use vstd::prelude::*;

verus! {

/// A JSON value, as far as the dashboard reads one. Of a number it reads
/// only whether it is a whole number from 0 to the largest `u64`, and if so,
/// which. The fields of an object stand in the order in which `serde_json`
/// walks them, and no two of them share a key.
#[derive(Debug)]
pub enum Json {
    Null,
    Bool(bool),
    Number(Option<u64>),
    Text(String),
    List(Vec<Json>),
    Object(Vec<(String, Json)>),
}

/// What a `Json` holds.
pub enum JsonView {
    Null,
    Bool(bool),
    Number(Option<u64>),
    Text(Seq<char>),
    List(Seq<JsonView>),
    Object(Seq<(Seq<char>, JsonView)>),
}

impl Json {
    /// What this value holds.
    pub open spec fn shape(self) -> JsonView
        decreases self,
    {
        match self {
            Json::Null => JsonView::Null,
            Json::Bool(b) => JsonView::Bool(b),
            Json::Number(n) => JsonView::Number(n),
            Json::Text(t) => JsonView::Text(t@),
            Json::List(items) => JsonView::List(
                Seq::new(
                    items@.len(),
                    |i: int|
                        if 0 <= i < items@.len() {
                            items@[i].shape()
                        } else {
                            JsonView::Null
                        },
                ),
            ),
            Json::Object(fields) => JsonView::Object(
                Seq::new(
                    fields@.len(),
                    |i: int|
                        if 0 <= i < fields@.len() {
                            (fields@[i].0@, fields@[i].1.shape())
                        } else {
                            (Seq::empty(), JsonView::Null)
                        },
                ),
            ),
        }
    }
}

impl View for Json {
    type V = JsonView;

    open spec fn view(&self) -> JsonView {
        self.shape()
    }
}

/// The value of the first of `fields` from place `from` on that has the key
/// `key`; `Null` where none has it.
pub open spec fn field_from(fields: Seq<(Seq<char>, JsonView)>, key: Seq<char>, from: int) -> JsonView
    decreases fields.len() - from,
{
    if from < 0 || from >= fields.len() {
        JsonView::Null
    } else if fields[from].0 == key {
        fields[from].1
    } else {
        field_from(fields, key, from + 1)
    }
}

impl JsonView {
    /// The value under `key`: `Null` unless this is an object that has a
    /// field with that key.
    pub open spec fn field(self, key: Seq<char>) -> JsonView {
        match self {
            JsonView::Object(fields) => field_from(fields, key, 0),
            _ => JsonView::Null,
        }
    }

    /// The items, where this is a list.
    pub open spec fn items(self) -> Option<Seq<JsonView>> {
        match self {
            JsonView::List(items) => Some(items),
            _ => None,
        }
    }

    /// The item at place `at`, where this is a list that is long enough.
    pub open spec fn item(self, at: int) -> Option<JsonView> {
        match self {
            JsonView::List(items) => if 0 <= at < items.len() {
                Some(items[at])
            } else {
                None
            },
            _ => None,
        }
    }

    /// The number at place `at`, where this is a list that is long enough
    /// and has a number there.
    pub open spec fn number_at(self, at: int) -> Option<u64> {
        match self.item(at) {
            Some(found) => found.number(),
            None => None,
        }
    }

    /// The text, where this is a text.
    pub open spec fn text(self) -> Option<Seq<char>> {
        match self {
            JsonView::Text(t) => Some(t),
            _ => None,
        }
    }

    /// The number, where this is a whole number from 0 to the largest `u64`.
    pub open spec fn number(self) -> Option<u64> {
        match self {
            JsonView::Number(n) => n,
            _ => None,
        }
    }
}

/// What each of `items` holds.
pub open spec fn views(items: Seq<Json>) -> Seq<JsonView> {
    Seq::new(items.len(), |i: int| items[i]@)
}

/// `serde_json::Value`, a JSON value as `serde_json` reads it.
#[verifier::external_type_specification]
#[verifier::external_body]
pub struct ExValue(Value);

/// `serde_json::Error`, what `serde_json` says of a text that it cannot read.
#[verifier::external_type_specification]
#[verifier::external_body]
pub struct ExError(serde_json::Error);

/// What `serde_json::from_str` makes of the text `text`, seen as a
/// `JsonView`; `None` where it refuses the text.
pub uninterp spec fn json_of_text(text: Seq<char>) -> Option<JsonView>;

/// What a `serde_json::Value` holds, seen as a `JsonView`.
pub uninterp spec fn json_of_value(value: Value) -> JsonView;

/// `serde_json::from_str`, asked for a `serde_json::Value`. What it returns
/// depends on the text alone: `json_of_text` names it.
#[verifier::external_body]
fn read_value(text: &str) -> (read: Result<Value, serde_json::Error>)
    ensures
        match read {
            Ok(value) => json_of_text(text@) == Some(json_of_value(value)),
            Err(_) => json_of_text(text@) is None,
        },
{
    serde_json::from_str(text)
}

/// Copies a `serde_json::Value` into a `Json`, variant by variant. Of a
/// number it keeps what `serde_json::Number::as_u64` gives, and of an object
/// its fields in the order of `serde_json::Map::iter`.
#[verifier::external_body]
fn copy_value(value: &Value) -> (json: Json)
    ensures
        json@ == json_of_value(*value),
{
    match value {
        Value::Null => Json::Null,
        Value::Bool(b) => Json::Bool(*b),
        Value::Number(n) => Json::Number(n.as_u64()),
        Value::String(s) => Json::Text(s.clone()),
        Value::Array(items) => Json::List(items.iter().map(copy_value).collect()),
        Value::Object(fields) => Json::Object(
            fields.iter().map(|(key, field)| (key.clone(), copy_value(field))).collect(),
        ),
    }
}

/// Why a text could not be read.
#[derive(Debug, Clone, Copy, PartialEq, Eq, Structural)]
pub enum JsonError {
    /// The text is no JSON.
    Malformed,
    /// The text is JSON, but not of the kind that was asked for.
    WrongShape,
}

impl Json {
    /// Reads a JSON text. The text is read where `serde_json` reads it, and
    /// the value is then what `serde_json` read.
    pub fn parse(text: &str) -> (parsed: Result<Json, JsonError>)
        ensures
            match parsed {
                Ok(json) => json_of_text(text@) == Some(json@),
                Err(error) => json_of_text(text@) is None && error == JsonError::Malformed,
            },
    {
        match read_value(text) {
            Ok(value) => Ok(copy_value(&value)),
            Err(_) => Err(JsonError::Malformed),
        }
    }

    /// The value under `key`, where this is an object that has a field with
    /// that key.
    pub fn field(&self, key: &str) -> (found: Option<&Json>)
        ensures
            match found {
                Some(json) => json@ == self@.field(key@),
                None => self@.field(key@) == JsonView::Null,
            },
    {
        match self {
            Json::Object(fields) => {
                let ghost all = self@->Object_0;
                let mut i: usize = 0;
                while i < fields.len()
                    invariant
                        i <= fields@.len(),
                        self@ == JsonView::Object(all),
                        all.len() == fields@.len(),
                        forall|k: int|
                            0 <= k < fields@.len() ==> all[k] == (
                                (#[trigger] fields@[k]).0@,
                                fields@[k].1@,
                            ),
                        field_from(all, key@, 0) == field_from(all, key@, i as int),
                    decreases fields.len() - i,
                {
                    if str_eq(fields[i].0.as_str(), key) {
                        return Some(&fields[i].1);
                    }
                    i += 1;
                }
                None
            },
            _ => None,
        }
    }

    /// The items, where this is a list.
    pub fn as_array(&self) -> (items: Option<&Vec<Json>>)
        ensures
            match items {
                Some(list) => self@.items() == Some(views(list@)),
                None => self@.items() is None,
            },
    {
        match self {
            Json::List(list) => {
                assert(self@->List_0 =~= views(list@));
                Some(list)
            },
            _ => None,
        }
    }

    /// The item at place `at`, where this is a list that is long enough.
    pub fn get(&self, at: usize) -> (found: Option<&Json>)
        ensures
            match found {
                Some(json) => self@.item(at as int) == Some(json@),
                None => self@.item(at as int) is None,
            },
    {
        match self {
            Json::List(list) => {
                if at < list.len() {
                    Some(&list[at])
                } else {
                    None
                }
            },
            _ => None,
        }
    }

    /// The text, where this is a text.
    pub fn as_str(&self) -> (text: Option<&str>)
        ensures
            match text {
                Some(t) => self@.text() == Some(t@),
                None => self@.text() is None,
            },
    {
        match self {
            Json::Text(t) => Some(t.as_str()),
            _ => None,
        }
    }

    /// The number, where this is a whole number from 0 to the largest `u64`.
    pub fn as_u64(&self) -> (number: Option<u64>)
        ensures
            number == self@.number(),
    {
        match self {
            Json::Number(n) => *n,
            _ => None,
        }
    }

    /// The items of the list under `key`, where this is an object that has
    /// a list there.
    pub fn list_field(&self, key: &str) -> (items: Option<&Vec<Json>>)
        ensures
            match items {
                Some(list) => self@.field(key@).items() == Some(views(list@)),
                None => self@.field(key@).items() is None,
            },
    {
        match self.field(key) {
            Some(found) => found.as_array(),
            None => None,
        }
    }

    /// The text under `key`, where this is an object that has a text there.
    pub fn text_field(&self, key: &str) -> (text: Option<&str>)
        ensures
            match text {
                Some(t) => self@.field(key@).text() == Some(t@),
                None => self@.field(key@).text() is None,
            },
    {
        match self.field(key) {
            Some(found) => found.as_str(),
            None => None,
        }
    }

    /// The number at place `at`, where this is a list that is long enough
    /// and has a number there.
    pub fn number_at(&self, at: usize) -> (number: Option<u64>)
        ensures
            number == self@.number_at(at as int),
    {
        match self.get(at) {
            Some(found) => found.as_u64(),
            None => None,
        }
    }
}

} // verus!
