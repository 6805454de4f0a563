//! The JSON values that the request body is made of, as `serde_json` parses
//! and reads them. Everything here is taken on trust from that crate.

use vstd::prelude::*;

verus! {

/// `serde_json::Value`, a JSON value of any kind. Nothing inside it is
/// visible here: it is read through the functions below.
#[verifier::external_type_specification]
#[verifier::external_body]
pub struct ExValue(serde_json::Value);

/// `serde_json::Error`, why a text could not be parsed. Only the fact of
/// the failure is used.
#[verifier::external_type_specification]
#[verifier::external_body]
pub struct ExError(serde_json::Error);

/// The member that `serde_json::Value::get` finds under a string key: `None`
/// when the value is no object or the object has no such key.
pub uninterp spec fn json_member(value: serde_json::Value, key: Seq<char>) -> Option<serde_json::Value>;

/// The text that `serde_json::Value::as_str` reads: `None` when the value is
/// not a JSON string.
pub uninterp spec fn json_text(value: serde_json::Value) -> Option<Seq<char>>;

/// `serde_json::Value::get` with a string key. The result is the member
/// that `json_member` names.
#[verifier::external_body]
pub(crate) fn member<'a>(value: &'a serde_json::Value, key: &str) -> (found: Option<&'a serde_json::Value>)
    ensures
        match found {
            Some(v) => json_member(*value, key@) == Some(*v),
            None => json_member(*value, key@) is None,
        },
{
    value.get(key)
}

/// `serde_json::Value::as_str`. The result is the text that `json_text`
/// names.
#[verifier::external_body]
pub(crate) fn text<'a>(value: &'a serde_json::Value) -> (found: Option<&'a str>)
    ensures
        match found {
            Some(s) => json_text(*value) == Some(s@),
            None => json_text(*value) is None,
        },
{
    value.as_str()
}

/// The value that `serde_json::from_slice` parses from the bytes of a JSON
/// document, and `None` for bytes that are no such document.
pub uninterp spec fn json_document(bytes: Seq<u8>) -> Option<serde_json::Value>;

/// `serde_json::from_slice` into a `serde_json::Value`. On success the
/// result is the value that `json_document` names; the call fails exactly
/// where that name is `None`.
#[verifier::external_body]
pub(crate) fn parse_document(bytes: &[u8]) -> (parsed: Result<serde_json::Value, serde_json::Error>)
    ensures
        match parsed {
            Ok(value) => json_document(bytes@) == Some(value),
            Err(_) => json_document(bytes@) is None,
        },
{
    serde_json::from_slice(bytes)
}

/// `Clone::clone` of a `serde_json::Value`: a second value equal to the
/// first.
#[verifier::external_body]
pub(crate) fn duplicate(value: &serde_json::Value) -> (copy: serde_json::Value)
    ensures
        copy == *value,
{
    value.clone()
}

/// What `serde_json::from_str` makes of a text when asked for a
/// `HashMap<String, String>`: the keys with their values where the text is a
/// JSON object whose values are all strings, and `None` for any other text.
pub uninterp spec fn flat_json_object(text: Seq<char>) -> Option<Map<Seq<char>, Seq<char>>>;

/// The value under a key in a list of pairs: that of the first pair with
/// this key.
pub open spec fn first_value(pairs: Seq<(String, String)>, key: Seq<char>) -> Option<Seq<char>>
    decreases pairs.len(),
{
    if pairs.len() == 0 {
        None
    } else if pairs[0].0@ == key {
        Some(pairs[0].1@)
    } else {
        first_value(pairs.drop_first(), key)
    }
}

/// A list of pairs as a mapping from keys to values.
pub open spec fn pairs_map(pairs: Seq<(String, String)>) -> Map<Seq<char>, Seq<char>> {
    Map::new(
        |key: Seq<char>| first_value(pairs, key) is Some,
        |key: Seq<char>| first_value(pairs, key).unwrap(),
    )
}

/// `serde_json::from_str` into a `HashMap<String, String>`, whose entries
/// are handed out as pairs, in no particular order. On success the pairs make
/// up the mapping that `flat_json_object` names; the call fails exactly
/// where that name is `None`.
#[verifier::external_body]
pub(crate) fn parse_flat_object(text: &str) -> (parsed: Result<Vec<(String, String)>, serde_json::Error>)
    ensures
        match parsed {
            Ok(pairs) => flat_json_object(text@) == Some(pairs_map(pairs@)),
            Err(_) => flat_json_object(text@) is None,
        },
{
    let fields: std::collections::HashMap<String, String> = serde_json::from_str(text)?;
    Ok(fields.into_iter().collect())
}

} // verus!
