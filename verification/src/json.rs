//! The library's model of a JSON document, and the trusted bridge that turns
//! JSON text into a value of that model.
//!
//! Protocol frames arrive as JSON text. The verified logic never reads the
//! text directly: a trusted wrapper parses it with `serde_json` and rewrites
//! the parsed tree, variant for variant, into [`JsonValue`]. Everything that
//! looks inside a document — field lookup, reading a string field — is
//! verified code over this model.

use vstd::prelude::*;
use crate::text::str_eq;

verus! {

/// A JSON document: strings, booleans, numbers (kept as their literal text,
/// which none of this library's logic ever reads as a quantity), arrays, and
/// objects as ordered lists of key/value pairs.
pub enum JsonValue {
    Null,
    Bool(bool),
    Num(String),
    Str(String),
    Arr(Vec<JsonValue>),
    Obj(Vec<(String, JsonValue)>),
}

/// The first entry at or after position `i` whose key reads `key`, if any.
pub open spec fn obj_get_from(entries: Seq<(String, JsonValue)>, key: Seq<char>, i: int) -> Option<
    JsonValue,
>
    decreases entries.len() - i,
{
    if i < 0 || i >= entries.len() {
        None
    } else if entries[i].0@ == key {
        Some(entries[i].1)
    } else {
        obj_get_from(entries, key, i + 1)
    }
}

/// Field lookup: the value under `key` when `v` is an object holding that
/// key (first occurrence), `None` otherwise.
pub open spec fn spec_get(v: JsonValue, key: Seq<char>) -> Option<JsonValue> {
    match v {
        JsonValue::Obj(entries) => obj_get_from(entries@, key, 0),
        _ => None,
    }
}

/// The characters of `v` when it is a string, `None` otherwise.
pub open spec fn spec_as_str(v: JsonValue) -> Option<Seq<char>> {
    match v {
        JsonValue::Str(s) => Some(s@),
        _ => None,
    }
}

/// Field lookup followed by the string reading: the characters under `key`
/// when `v` is an object whose `key` field is a string.
pub open spec fn spec_get_str(v: JsonValue, key: Seq<char>) -> Option<Seq<char>> {
    match spec_get(v, key) {
        Some(c) => spec_as_str(c),
        None => None,
    }
}

/// The first element of `v` when it is a non-empty array, `None` otherwise.
pub open spec fn spec_arr_first(v: JsonValue) -> Option<JsonValue> {
    match v {
        JsonValue::Arr(items) => if items@.len() > 0 {
            Some(items@[0])
        } else {
            None
        },
        _ => None,
    }
}

fn obj_get_at<'a>(entries: &'a Vec<(String, JsonValue)>, key: &str, i: usize) -> (r: Option<
    &'a JsonValue,
>)
    requires
        i <= entries@.len(),
    ensures
        match r {
            Some(x) => obj_get_from(entries@, key@, i as int) == Some(*x),
            None => obj_get_from(entries@, key@, i as int) is None,
        },
    decreases entries@.len() - i,
{
    if i == entries.len() {
        None
    } else {
        let pair = &entries[i];
        if str_eq(pair.0.as_str(), key) {
            Some(&pair.1)
        } else {
            obj_get_at(entries, key, i + 1)
        }
    }
}

/// Field lookup on the model, with [`spec_get`] as its meaning.
pub fn json_get<'a>(v: &'a JsonValue, key: &str) -> (r: Option<&'a JsonValue>)
    ensures
        match r {
            Some(x) => spec_get(*v, key@) == Some(*x),
            None => spec_get(*v, key@) is None,
        },
{
    match v {
        JsonValue::Obj(entries) => obj_get_at(entries, key, 0),
        _ => None,
    }
}

/// String reading on the model, with [`spec_as_str`] as its meaning.
pub fn json_as_str<'a>(v: &'a JsonValue) -> (r: Option<&'a str>)
    ensures
        match r {
            Some(s) => spec_as_str(*v) == Some(s@),
            None => spec_as_str(*v) is None,
        },
{
    match v {
        JsonValue::Str(s) => Some(s.as_str()),
        _ => None,
    }
}

/// The first element of an array on the model, with [`spec_arr_first`] as
/// its meaning.
pub fn json_arr_first<'a>(v: &'a JsonValue) -> (r: Option<&'a JsonValue>)
    ensures
        match r {
            Some(x) => spec_arr_first(*v) == Some(*x),
            None => spec_arr_first(*v) is None,
        },
{
    match v {
        JsonValue::Arr(items) => if items.len() > 0 {
            Some(&items[0])
        } else {
            None
        },
        _ => None,
    }
}

#[verifier::external_type_specification]
#[verifier::external_body]
pub struct ExSerdeJsonValue(serde_json::Value);

/// What parsing a piece of JSON text yields: `None` on malformed text, the
/// parsed document otherwise. Parsing is a function of the text alone.
pub uninterp spec fn json_of(text: Seq<char>) -> Option<JsonValue>;

/// Relies on the variants of `serde_json::Value`: each arm moves one variant
/// of the parsed tree into the library's model; a number keeps its literal
/// text via `to_string`.
#[verifier::external_body]
fn to_model(v: serde_json::Value) -> JsonValue {
    match v {
        serde_json::Value::Null => JsonValue::Null,
        serde_json::Value::Bool(b) => JsonValue::Bool(b),
        serde_json::Value::Number(n) => JsonValue::Num(n.to_string()),
        serde_json::Value::String(s) => JsonValue::Str(s),
        serde_json::Value::Array(a) => JsonValue::Arr(a.into_iter().map(to_model).collect()),
        serde_json::Value::Object(m) => JsonValue::Obj(
            m.into_iter().map(|p| (p.0, to_model(p.1))).collect(),
        ),
    }
}

/// Relies on `serde_json::from_str::<serde_json::Value>`: it parses JSON text
/// deterministically, returning `Err` exactly on malformed text. The parsed
/// document, rewritten into the library's model, is named [`json_of`].
#[verifier::external_body]
pub fn parse_json(text: &str) -> (r: Option<JsonValue>)
    ensures
        r == json_of(text@),
{
    serde_json::from_str::<serde_json::Value>(text).ok().map(to_model)
}

} // verus!
