//! Reading JSON documents with serde_json, one level at a time.
//!
//! A part of a document is handed on as the JSON text of that part.

use vstd::prelude::*;
use crate::text;

verus! {

/// The member of a JSON object under a key, as JSON text; nothing where the text
/// is no JSON, is no object or has no such member.
pub uninterp spec fn json_member(doc: Seq<char>, key: Seq<char>) -> Option<Seq<char>>;

/// Looks a member up with `serde_json::Value::get` and writes it out again. The
/// result depends on the two texts alone and is named [`json_member`].
#[verifier::external_body]
pub(crate) fn member(doc: &str, key: &str) -> (r: Option<String>)
    ensures
        text::text_opt(r) == json_member(doc@, key@),
{
    let value = serde_json::from_str::<serde_json::Value>(doc).ok()?;
    value.get(key).map(|v| v.to_string())
}

/// The elements of a JSON array, each as JSON text, or the reason why the text is
/// no JSON array.
pub uninterp spec fn json_elements(doc: Seq<char>) -> Result<Seq<Seq<char>>, Seq<char>>;

/// Reads an array with `serde_json::from_str::<Vec<serde_json::Value>>` and
/// writes its elements out again. The result depends on the text alone and is
/// named [`json_elements`].
#[verifier::external_body]
pub(crate) fn elements(doc: &str) -> (r: Result<Vec<String>, String>)
    ensures
        match r {
            Ok(list) => json_elements(doc@) == Ok::<Seq<Seq<char>>, Seq<char>>(text::texts(list@)),
            Err(reason) => json_elements(doc@) == Err::<Seq<Seq<char>>, Seq<char>>(reason@),
        },
{
    serde_json::from_str::<Vec<serde_json::Value>>(doc)
        .map(|list| list.iter().map(|v| v.to_string()).collect())
        .map_err(|e| e.to_string())
}

/// The text that a JSON string stands for; nothing where the document is none.
pub uninterp spec fn json_str(doc: Seq<char>) -> Option<Seq<char>>;

/// Reads a string with `serde_json::Value::as_str`. The result depends on the
/// text alone and is named [`json_str`].
#[verifier::external_body]
pub(crate) fn as_str(doc: &str) -> (r: Option<String>)
    ensures
        text::text_opt(r) == json_str(doc@),
{
    let value = serde_json::from_str::<serde_json::Value>(doc).ok()?;
    value.as_str().map(|s| s.to_owned())
}

/// The integer that a JSON number stands for, where it fits.
pub uninterp spec fn json_i64(doc: Seq<char>) -> Option<i64>;

/// Reads an integer with `serde_json::Value::as_i64`. The result depends on the
/// text alone and is named [`json_i64`].
#[verifier::external_body]
pub(crate) fn as_i64(doc: &str) -> (r: Option<i64>)
    ensures
        r == json_i64(doc@),
{
    serde_json::from_str::<serde_json::Value>(doc).ok()?.as_i64()
}

/// The natural number that a JSON number stands for, where it fits.
pub uninterp spec fn json_u64(doc: Seq<char>) -> Option<u64>;

/// Reads a natural number with `serde_json::Value::as_u64`. The result depends on
/// the text alone and is named [`json_u64`].
#[verifier::external_body]
pub(crate) fn as_u64(doc: &str) -> (r: Option<u64>)
    ensures
        r == json_u64(doc@),
{
    serde_json::from_str::<serde_json::Value>(doc).ok()?.as_u64()
}

/// The truth value that a JSON document is, where it is one.
pub uninterp spec fn json_bool(doc: Seq<char>) -> Option<bool>;

/// Reads a truth value with `serde_json::Value::as_bool`. The result depends on
/// the text alone and is named [`json_bool`].
#[verifier::external_body]
pub(crate) fn as_bool(doc: &str) -> (r: Option<bool>)
    ensures
        r == json_bool(doc@),
{
    serde_json::from_str::<serde_json::Value>(doc).ok()?.as_bool()
}

// ---------------------------------------------------------------------------
// Members of a given kind
// ---------------------------------------------------------------------------

/// The string under a key.
pub open spec fn str_member(doc: Seq<char>, key: Seq<char>) -> Option<Seq<char>> {
    match json_member(doc, key) {
        Some(part) => json_str(part),
        None => None,
    }
}

/// The integer under a key.
pub open spec fn i64_member(doc: Seq<char>, key: Seq<char>) -> Option<i64> {
    match json_member(doc, key) {
        Some(part) => json_i64(part),
        None => None,
    }
}

/// The natural number under a key.
pub open spec fn u64_member(doc: Seq<char>, key: Seq<char>) -> Option<u64> {
    match json_member(doc, key) {
        Some(part) => json_u64(part),
        None => None,
    }
}

/// The truth value under a key.
pub open spec fn bool_member(doc: Seq<char>, key: Seq<char>) -> Option<bool> {
    match json_member(doc, key) {
        Some(part) => json_bool(part),
        None => None,
    }
}

/// The string under a key.
pub fn get_str(doc: &str, key: &str) -> (r: Option<String>)
    ensures
        text::text_opt(r) == str_member(doc@, key@),
{
    match member(doc, key) {
        Some(part) => as_str(part.as_str()),
        None => None,
    }
}

/// The integer under a key.
pub fn get_i64(doc: &str, key: &str) -> (r: Option<i64>)
    ensures
        r == i64_member(doc@, key@),
{
    match member(doc, key) {
        Some(part) => as_i64(part.as_str()),
        None => None,
    }
}

/// The natural number under a key.
pub fn get_u64(doc: &str, key: &str) -> (r: Option<u64>)
    ensures
        r == u64_member(doc@, key@),
{
    match member(doc, key) {
        Some(part) => as_u64(part.as_str()),
        None => None,
    }
}

/// The truth value under a key.
pub fn get_bool(doc: &str, key: &str) -> (r: Option<bool>)
    ensures
        r == bool_member(doc@, key@),
{
    match member(doc, key) {
        Some(part) => as_bool(part.as_str()),
        None => None,
    }
}

/// A string, or another in its place.
pub open spec fn text_or(o: Option<Seq<char>>, other: Seq<char>) -> Seq<char> {
    match o {
        Some(s) => s,
        None => other,
    }
}

/// The string under a key, or another in its place.
pub fn get_str_or(doc: &str, key: &str, other: &str) -> (r: String)
    ensures
        r@ == text_or(str_member(doc@, key@), other@),
{
    match get_str(doc, key) {
        Some(s) => s,
        None => other.to_owned(),
    }
}

} // verus!
