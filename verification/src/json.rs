//! JSON documents, read with `serde_json`.
//!
//! A reply of the inference service is a JSON document of which this library
//! reads strings only, each found under a path of object keys. The items of
//! this file give `serde_json`'s functions their contracts; none of them is
//! proved.

use vstd::prelude::*;

verus! {

/// A path of object keys, outermost first.
pub type KeyPath = Seq<Seq<char>>;

/// A parsed JSON document, `serde_json::Value`. Its inside is not visible to
/// the verifier; [`json_texts`] says what this library reads of it.
#[verifier::external_type_specification]
#[verifier::external_body]
pub struct ExValue(serde_json::Value);

/// The error of `serde_json`. Nothing is read of it.
#[verifier::external_type_specification]
#[verifier::external_body]
pub struct ExJsonError(serde_json::Error);

/// The strings that a JSON value holds, each under the path of object keys
/// that leads to it. A value that is itself a string holds that string under
/// the empty path; an object holds, under a key followed by a path, what its
/// member of that key holds under the path; null, booleans, numbers and
/// arrays hold nothing.
pub uninterp spec fn json_texts(value: serde_json::Value) -> Map<KeyPath, Seq<char>>;

/// What `serde_json::from_slice` makes of `bytes`: nothing where they are not
/// one JSON document, else the strings that the document holds.
pub uninterp spec fn parsed_texts(bytes: Seq<u8>) -> Option<Map<KeyPath, Seq<char>>>;

/// The part of `texts` that stands under `key`, with `key` taken off each path.
pub open spec fn texts_under(texts: Map<KeyPath, Seq<char>>, key: Seq<char>) -> Map<
    KeyPath,
    Seq<char>,
> {
    Map::new(
        |path: KeyPath| texts.contains_key(seq![key] + path),
        |path: KeyPath| texts[seq![key] + path],
    )
}

/// Calls `serde_json::from_slice` for a `Value`. The contract claims that
/// whether the bytes parse, and which strings the document then holds, depends
/// on the bytes alone.
#[verifier::external_body]
pub(crate) fn parse_document(bytes: &[u8]) -> (r: Result<serde_json::Value, serde_json::Error>)
    ensures
        r is Ok <==> parsed_texts(bytes@) is Some,
        r matches Ok(doc) ==> Some(json_texts(doc)) == parsed_texts(bytes@),
{
    serde_json::from_slice(bytes)
}

/// Indexes a `Value` by a string, `value[key]`: the member of that key where
/// the value is an object that has one, else a null value. The contract claims
/// that the result holds what the value holds under `key`.
#[verifier::external_body]
pub(crate) fn member<'a>(value: &'a serde_json::Value, key: &str) -> (r: &'a serde_json::Value)
    ensures
        json_texts(*r) == texts_under(json_texts(*value), key@),
{
    &value[key]
}

/// `Value::as_str` returns the string of a value that is a string, and
/// nothing for any other value: the string that the value holds under the
/// empty path.
pub assume_specification[ serde_json::Value::as_str ](value: &serde_json::Value) -> (r: Option<
    &str,
>)
    ensures
        r is Some <==> json_texts(*value).contains_key(Seq::empty()),
        r matches Some(s) ==> s@ == json_texts(*value)[Seq::empty()],
;

} // verus!
