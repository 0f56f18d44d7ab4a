//! The boundary to `serde_json`.
//!
//! A request is a JSON object. The library never looks inside a
//! `serde_json::Value` itself: it asks `serde_json` for the member under a
//! key and works on what comes back. What is stated here of `serde_json` is
//! taken on trust; everything built on it is proved.

use serde_json::Value;
use vstd::prelude::*;

verus! {

/// `serde_json::Value`, which Verus carries through without looking inside.
#[verifier::external_type_specification]
#[verifier::external_body]
pub struct ExValue(serde_json::Value);

/// What a JSON object holds under one key, as far as a request is read.
pub enum Entry {
    /// A JSON string, with its text.
    Text(String),
    /// A JSON number.
    Number,
    /// Anything else: null, a boolean, an array or an object.
    Other,
}

/// The members of a JSON value by key. A value that is not an object has
/// none.
pub uninterp spec fn members(data: serde_json::Value) -> Map<Seq<char>, Entry>;

/// The members of the JSON document that `text` spells, or `None` where
/// `text` is not one JSON document.
pub uninterp spec fn document(text: Seq<char>) -> Option<Map<Seq<char>, Entry>>;

/// The member of `fields` under `key`, if there is one.
pub open spec fn member(fields: Map<Seq<char>, Entry>, key: Seq<char>) -> Option<Entry> {
    if fields.contains_key(key) {
        Some(fields[key])
    } else {
        None
    }
}

/// Parses `text` as JSON.
///
/// Calls `serde_json::from_str` for a `Value`. Trusted: the call succeeds
/// exactly on the texts that `document` knows, and the value that comes
/// back has the members that `document` gives for the text.
#[verifier::external_body]
pub fn json(text: &str) -> (r: Option<Value>)
    ensures
        match r {
            Some(data) => document(text@) == Some(members(data)),
            None => document(text@) is None,
        },
{
    serde_json::from_str::<Value>(text).ok()
}

/// Looks up the member of `data` under `field`.
///
/// Calls `serde_json::Value::get` with a string key, which finds a member
/// only in an object, and tells the variants of what it found apart.
/// Trusted: the result is the member that `members` gives for the key.
#[verifier::external_body]
pub(crate) fn entry(data: &Value, field: &str) -> (r: Option<Entry>)
    ensures
        r == member(members(*data), field@),
{
    match data.get(field) {
        None => None,
        Some(Value::String(text)) => Some(Entry::Text(text.clone())),
        Some(Value::Number(_)) => Some(Entry::Number),
        Some(_) => Some(Entry::Other),
    }
}

} // verus!
