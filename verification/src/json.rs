//! The boundary to the JSON parser.
//!
//! A configuration document is JSON text. Reading the text is the work of
//! `serde_json`; what this crate reads off the parsed document is a handful
//! of questions it can ask of a value: is it text, a flag, null, a list, an
//! object with named members. Each answer has a name here, and the functions
//! below are believed to give exactly those answers.

use vstd::prelude::*;

verus! {

/// `serde_json::Value`, a parsed JSON value, carried through as it is.
#[verifier::external_type_specification]
#[verifier::external_body]
pub struct ExJsonValue(serde_json::Value);

/// `serde_json::Error`, the parser's complaint, carried through as it is.
#[verifier::external_type_specification]
#[verifier::external_body]
pub struct ExJsonError(serde_json::Error);

/// The members of an object: names and values, in order.
pub type Members = Seq<(Seq<char>, serde_json::Value)>;

/// The value that a text stands for as a JSON document, if it is one.
pub uninterp spec fn json_document(text: Seq<char>) -> Option<serde_json::Value>;

/// The text of a JSON string; nothing for any other value.
pub uninterp spec fn json_text(value: serde_json::Value) -> Option<Seq<char>>;

/// The truth value of a JSON boolean; nothing for any other value.
pub uninterp spec fn json_flag(value: serde_json::Value) -> Option<bool>;

/// Whether a value is JSON's `null`.
pub uninterp spec fn json_null(value: serde_json::Value) -> bool;

/// The elements of a JSON array, in order; nothing for any other value.
pub uninterp spec fn json_items(value: serde_json::Value) -> Option<Seq<serde_json::Value>>;

/// The members of a JSON object, each a name and a value, in the order in
/// which the object holds them; nothing for any other value.
pub uninterp spec fn json_members(value: serde_json::Value) -> Option<Members>;

/// The members that a list of borrowed names and values stands for.
pub open spec fn members_of(members: Seq<(&String, &serde_json::Value)>) -> Members {
    members.map_values(|m: (&String, &serde_json::Value)| (m.0@, *m.1))
}

/// Whether no name occurs twice among the members.
pub open spec fn distinct_names(members: Members) -> bool {
    forall|i: int, j: int|
        0 <= i < j < members.len() ==> (#[trigger] members[i]).0 != (#[trigger] members[j]).0
}

/// Parses a text as a JSON document.
///
/// Trusted: this is `serde_json::from_str` at the type `serde_json::Value`.
/// The contract claims only that the outcome is a function of the text: the
/// same text gives the same value, or fails, every time. The parser reads
/// nothing but the text.
#[verifier::external_body]
pub(crate) fn parse_value(text: &str) -> (parsed: Result<serde_json::Value, serde_json::Error>)
    ensures
        match parsed {
            Ok(value) => json_document(text@) == Some(value),
            Err(_) => json_document(text@) is None,
        },
{
    serde_json::from_str::<serde_json::Value>(text)
}

/// What the parser says of a text that is no JSON document.
///
/// Trusted: this is the `Display` form of `serde_json::Error`. Nothing is
/// claimed of the message.
#[verifier::external_body]
pub(crate) fn error_text(error: &serde_json::Error) -> (message: String) {
    error.to_string()
}

/// The text of a value that is a JSON string.
///
/// Trusted: this is `serde_json::Value::as_str`, which hands out the text of
/// the `String` variant and nothing for the others.
#[verifier::external_body]
pub(crate) fn value_text<'a>(value: &'a serde_json::Value) -> (text: Option<&'a str>)
    ensures
        match text {
            Some(t) => json_text(*value) == Some(t@),
            None => json_text(*value) is None,
        },
{
    value.as_str()
}

/// The truth value of a value that is a JSON boolean.
///
/// Trusted: this is `serde_json::Value::as_bool`, which hands out the field
/// of the `Bool` variant and nothing for the others.
#[verifier::external_body]
pub(crate) fn value_flag(value: &serde_json::Value) -> (flag: Option<bool>)
    ensures
        flag == json_flag(*value),
{
    value.as_bool()
}

/// Whether a value is `null`.
///
/// Trusted: this is `serde_json::Value::is_null`, true of the `Null` variant
/// alone.
#[verifier::external_body]
pub(crate) fn value_is_null(value: &serde_json::Value) -> (null: bool)
    ensures
        null == json_null(*value),
{
    value.is_null()
}

/// The elements of a value that is a JSON array.
///
/// Trusted: this is `serde_json::Value::as_array`, which hands out the
/// vector of the `Array` variant and nothing for the others.
#[verifier::external_body]
pub(crate) fn value_items<'a>(value: &'a serde_json::Value) -> (items: Option<
    &'a Vec<serde_json::Value>,
>)
    ensures
        match items {
            Some(list) => json_items(*value) == Some(list@),
            None => json_items(*value) is None,
        },
{
    value.as_array()
}

/// The members of a value that is a JSON object.
///
/// Trusted: this is `serde_json::Value::as_object`, which hands out the map
/// of the `Object` variant and nothing for the others, followed by
/// `serde_json::Map::iter`, which walks the map's entries in the map's own
/// order. The map holds each name once. With the feature `preserve_order`
/// its order is that in which the names first stood in the document, and
/// rests on nothing else.
#[verifier::external_body]
pub(crate) fn value_members<'a>(value: &'a serde_json::Value) -> (members: Option<
    Vec<(&'a String, &'a serde_json::Value)>,
>)
    ensures
        match members {
            Some(list) => json_members(*value) == Some(members_of(list@)) && distinct_names(
                members_of(list@),
            ),
            None => json_members(*value) is None,
        },
{
    value.as_object().map(|map| map.iter().collect())
}

} // verus!
