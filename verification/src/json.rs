//! Reading members out of a JSON text.
//!
//! The parsing is `serde_json`'s. What it finds in a text is a function of the
//! text and the member asked for; the functions below name those results, and
//! the rest of the crate is proved over the names.

use vstd::prelude::*;

verus! {

/// The string that the top-level object of `body` holds under `key`; `None`
/// where `body` is no JSON text, its top level is no object, the member is
/// missing, or the member is no string.
pub uninterp spec fn json_text(body: Seq<char>, key: Seq<char>) -> Option<Seq<char>>;

/// The integer that the top-level object of `body` holds under `key`; `None`
/// where there is no such member, or where it is no number, is written with
/// a fraction or an exponent, or lies out of the range of `i64`.
pub uninterp spec fn json_integer(body: Seq<char>, key: Seq<char>) -> Option<i64>;

/// The number that the top-level object of `body` holds under `key`, as the
/// bits of its IEEE 754 double; `None` where there is no such member or it
/// is no number.
pub uninterp spec fn json_number(body: Seq<char>, key: Seq<char>) -> Option<u64>;

/// For a `body` whose top level is an array: for each element in order, the
/// string that the element holds under `key`, if it holds one. `None` where
/// `body` is no JSON text or its top level is no array.
pub uninterp spec fn json_items_text(body: Seq<char>, key: Seq<char>) -> Option<
    Seq<Option<Seq<char>>>,
>;

/// Parses `body` with `serde_json::from_str`, looks `key` up with
/// `Value::get` and reads the member with `Value::as_str`.
///
/// Trusted: the result is `json_text` of the two texts.
#[verifier::external_body]
pub(crate) fn text_member(body: &str, key: &str) -> (found: Option<String>)
    ensures
        found.deep_view() == json_text(body@, key@),
{
    let document = serde_json::from_str::<serde_json::Value>(body).ok()?;
    document.get(key)?.as_str().map(|text| text.to_string())
}

/// Parses `body` with `serde_json::from_str`, looks `key` up with
/// `Value::get` and reads the member with `Value::as_i64`.
///
/// Trusted: the result is `json_integer` of the two texts.
#[verifier::external_body]
pub(crate) fn integer_member(body: &str, key: &str) -> (found: Option<i64>)
    ensures
        found == json_integer(body@, key@),
{
    let document = serde_json::from_str::<serde_json::Value>(body).ok()?;
    document.get(key)?.as_i64()
}

/// Parses `body` with `serde_json::from_str`, looks `key` up with
/// `Value::get`, reads the member with `Value::as_f64` and hands out the
/// bits of the double.
///
/// Trusted: the result is `json_number` of the two texts.
#[verifier::external_body]
pub(crate) fn number_member(body: &str, key: &str) -> (found: Option<u64>)
    ensures
        found == json_number(body@, key@),
{
    let document = serde_json::from_str::<serde_json::Value>(body).ok()?;
    document.get(key)?.as_f64().map(|number| number.to_bits())
}

/// Parses `body` with `serde_json::from_str`, takes its elements with
/// `Value::as_array` and reads from each the member `key` with `Value::get`
/// and `Value::as_str`.
///
/// Trusted: the result is `json_items_text` of the two texts.
#[verifier::external_body]
pub(crate) fn items_text_member(body: &str, key: &str) -> (found: Option<Vec<Option<String>>>)
    ensures
        found.deep_view() == json_items_text(body@, key@),
{
    let document = serde_json::from_str::<serde_json::Value>(body).ok()?;
    let items = document.as_array()?.iter();
    Some(items.map(|item| item.get(key)?.as_str().map(|text| text.to_string())).collect())
}

} // verus!
