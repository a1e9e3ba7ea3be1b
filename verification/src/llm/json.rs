//! Reading the arguments of a tool call, which arrive as JSON. The parsing
//! and the access to what a value holds are `serde_json`'s; this module
//! states what the engine relies on.

use vstd::prelude::*;

verus! {

/// `serde_json::Value`, a JSON value. Nothing is known of what is in one
/// but what the functions below state.
#[verifier::external_type_specification]
#[verifier::external_body]
pub struct ExJsonValue(serde_json::Value);

/// `serde_json::Error`, why a text is no JSON. It is never looked into.
#[verifier::external_type_specification]
#[verifier::external_body]
pub struct ExJsonError(serde_json::Error);

/// What a JSON value holds, as far as the engine reads it.
pub enum JsonContents {
    /// A number that is a whole number, not negative, and fits 64 bits.
    Unsigned(u64),
    /// A string.
    Text(Seq<char>),
    /// An array, with its items in order.
    List(Seq<serde_json::Value>),
    /// An object, with the member that stands under each of its keys.
    Object(Map<Seq<char>, serde_json::Value>),
    /// Anything else: null, true or false, or another number.
    Other,
}

/// What the JSON value holds that a text stands for, if the text is
/// well-formed JSON.
pub uninterp spec fn json_of_text(text: Seq<char>) -> Option<JsonContents>;

/// What a JSON value holds.
pub uninterp spec fn json_contents(value: serde_json::Value) -> JsonContents;

/// `serde_json::from_str` at the type `serde_json::Value`: the value that
/// the text stands for, or an error. The result depends on the text alone.
#[verifier::external_body]
pub(crate) fn json_from_text(text: &str) -> (parsed: Result<serde_json::Value, serde_json::Error>)
    ensures
        match parsed {
            Ok(value) => json_of_text(text@) == Some(json_contents(value)),
            Err(_) => json_of_text(text@) is None,
        },
{
    serde_json::from_str::<serde_json::Value>(text)
}

/// `serde_json::Value::get` with a string index: the member of an object
/// under the key. A value that is no object has no members.
#[verifier::external_body]
pub(crate) fn json_member<'a>(value: &'a serde_json::Value, key: &str) -> (member: Option<
    &'a serde_json::Value,
>)
    ensures
        member == match json_contents(*value) {
            JsonContents::Object(members) => if members.contains_key(key@) {
                Some(&members[key@])
            } else {
                None
            },
            _ => None,
        },
{
    value.get(key)
}

/// `serde_json::Value::as_u64`: the number, if the value is a whole number
/// that is not negative and fits 64 bits.
#[verifier::external_body]
pub(crate) fn json_unsigned(value: &serde_json::Value) -> (number: Option<u64>)
    ensures
        number == match json_contents(*value) {
            JsonContents::Unsigned(n) => Some(n),
            _ => None,
        },
{
    value.as_u64()
}

/// `serde_json::Value::as_str`: the text, if the value is a string.
#[verifier::external_body]
pub(crate) fn json_text<'a>(value: &'a serde_json::Value) -> (text: Option<&'a str>)
    ensures
        match text {
            Some(found) => json_contents(*value) == JsonContents::Text(found@),
            None => !(json_contents(*value) is Text),
        },
{
    value.as_str()
}

/// `serde_json::Value::as_array`: the items, if the value is an array.
#[verifier::external_body]
pub(crate) fn json_items<'a>(value: &'a serde_json::Value) -> (items: Option<
    &'a Vec<serde_json::Value>,
>)
    ensures
        match items {
            Some(found) => json_contents(*value) == JsonContents::List(found@),
            None => !(json_contents(*value) is List),
        },
{
    value.as_array()
}

} // verus!
