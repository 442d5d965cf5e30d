//! JSON documents, as `serde_json` decodes them.
//!
//! A document is opaque to the verifier. What the rest of the library reads
//! from one is named here, and the functions below are believed to return
//! what those names stand for; nothing in this file is proved.

use vstd::prelude::*;

verus! {

#[verifier::external_type_specification]
#[verifier::external_body]
pub struct ExValue(serde_json::Value);

/// The document that `serde_json::from_slice` decodes from `bytes`, where
/// they are the text of one JSON value.
pub uninterp spec fn parsed_json(bytes: Seq<u8>) -> Option<serde_json::Value>;

/// The length in bytes of the longest string that a document holds, at any
/// depth; 0 where it holds none.
pub uninterp spec fn longest_text(doc: serde_json::Value) -> nat;

/// The members of an object whose value is a string, by name. A document
/// that is no object has none.
pub uninterp spec fn text_members(doc: serde_json::Value) -> Map<Seq<char>, Seq<char>>;

/// The members of an object whose value is an integer from 0 to
/// `u64::MAX`, by name. A number written with a fraction or an exponent is
/// none of them.
pub uninterp spec fn number_members(doc: serde_json::Value) -> Map<Seq<char>, u64>;

/// The members of an object whose value is an array of strings, by name.
pub uninterp spec fn text_list_members(doc: serde_json::Value) -> Map<Seq<char>, Seq<Seq<char>>>;

/// The text that the `Debug` format gives for a document.
pub uninterp spec fn rendering(doc: serde_json::Value) -> Seq<char>;

/// The value that `m` holds under `name`, if any.
pub open spec fn lookup<V>(m: Map<Seq<char>, V>, name: Seq<char>) -> Option<V> {
    if m.contains_key(name) {
        Some(m[name])
    } else {
        None
    }
}

/// The text of an optional string.
pub open spec fn text_of(s: Option<String>) -> Option<Seq<char>> {
    match s {
        Some(t) => Some(t@),
        None => None,
    }
}

/// The texts of an optional vector of strings.
pub open spec fn texts_of(v: Option<Vec<String>>) -> Option<Seq<Seq<char>>> {
    match v {
        Some(l) => Some(Seq::new(l@.len(), |i: int| l@[i]@)),
        None => None,
    }
}

/// Calls `serde_json::from_slice` for a `Value`. Believed: the result is
/// the document that the bytes spell, the same for the same bytes, and there
/// is none where they are not the text of one JSON value; no string of the
/// document is longer than the text it was decoded from.
#[verifier::external_body]
pub(crate) fn parse_json(bytes: &[u8]) -> (doc: Option<serde_json::Value>)
    ensures
        doc == parsed_json(bytes@),
        doc matches Some(d) ==> longest_text(d) <= bytes@.len(),
{
    serde_json::from_slice::<serde_json::Value>(bytes).ok()
}

/// Calls `Value::get` and `Value::as_str`. Believed: the result is the
/// string that the object holds under `name`, and there is none where the
/// document is no object, has no such member, or holds another kind of value
/// there.
#[verifier::external_body]
pub(crate) fn text_member(doc: &serde_json::Value, name: &str) -> (text: Option<String>)
    ensures
        text_of(text) == lookup(text_members(*doc), name@),
{
    Some(doc.get(name)?.as_str()?.to_string())
}

/// Calls `Value::get` and `Value::as_u64`. Believed: the result is the
/// number that the object holds under `name`, where that is an integer from
/// 0 to `u64::MAX`, and there is none otherwise.
#[verifier::external_body]
pub(crate) fn number_member(doc: &serde_json::Value, name: &str) -> (number: Option<u64>)
    ensures
        number == lookup(number_members(*doc), name@),
{
    doc.get(name)?.as_u64()
}

/// Calls `Value::get` and `serde_json::from_value` for a `Vec<String>`.
/// Believed: the result holds the strings of the array that the object
/// holds under `name`, in order, and there is none where that member is
/// missing or is anything but an array of strings.
#[verifier::external_body]
pub(crate) fn text_list_member(doc: &serde_json::Value, name: &str) -> (list: Option<Vec<String>>)
    ensures
        texts_of(list) == lookup(text_list_members(*doc), name@),
{
    serde_json::from_value::<Vec<String>>(doc.get(name)?.clone()).ok()
}

/// Formats a document with `Debug`. Believed: the result is the same text
/// for the same document.
#[verifier::external_body]
pub(crate) fn render(doc: &serde_json::Value) -> (text: String)
    ensures
        text@ == rendering(*doc),
{
    format!("{:?}", doc)
}

} // verus!
