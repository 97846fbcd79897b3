use vstd::prelude::*;
use serde_json::Value;

verus! {

/// A parsed JSON value of `serde_json`, opaque here: the functions below
/// say what it holds.
#[verifier::external_type_specification]
#[verifier::external_body]
pub struct ExValue(serde_json::Value);

/// The error of `serde_json`, opaque here.
#[verifier::external_type_specification]
#[verifier::external_body]
pub struct ExError(serde_json::Error);

/// What a member of a JSON object is, as far as the protocol reads it.
pub enum JsonField {
    /// A string.
    Text(Seq<char>),
    /// An integer that is not negative and fits 64 bits.
    Number(u64),
    /// Anything else: null, a boolean, another number, an array, an object.
    Other,
}

/// The members of a JSON value by key, if it is an object; a value that
/// is no object has none.
pub uninterp spec fn json_fields(value: Value) -> Map<Seq<char>, JsonField>;

/// The members of the JSON value that a text encodes, if the text is
/// exactly one JSON value.
pub uninterp spec fn json_document(data: Seq<u8>) -> Option<Map<Seq<char>, JsonField>>;

/// The string member of a given key, if there is one.
pub open spec fn text_of(fields: Map<Seq<char>, JsonField>, key: Seq<char>) -> Option<Seq<char>> {
    if fields.contains_key(key) {
        match fields[key] {
            JsonField::Text(text) => Some(text),
            _ => None,
        }
    } else {
        None
    }
}

/// The non-negative integer member of a given key, if there is one.
pub open spec fn number_of(fields: Map<Seq<char>, JsonField>, key: Seq<char>) -> Option<u64> {
    if fields.contains_key(key) {
        match fields[key] {
            JsonField::Number(number) => Some(number),
            _ => None,
        }
    } else {
        None
    }
}

/// Parses a text as one JSON value, by `serde_json::from_slice`. The
/// parser reads its input alone, so what it returns is a function of the
/// bytes: the contract gives that function a name and says no more of it.
#[verifier::external_body]
pub(crate) fn parse_json(data: &Vec<u8>) -> (r: Result<Value, serde_json::Error>)
    ensures
        match r {
            Ok(value) => json_document(data@) == Some(json_fields(value)),
            Err(_) => json_document(data@) is None,
        },
{
    serde_json::from_slice::<Value>(data.as_slice())
}

/// Looks a member up by `serde_json::Value::get` and hands it out if it
/// is a string: `get` finds a member only in an object that has the key.
#[verifier::external_body]
pub(crate) fn text_member(value: &Value, key: &str) -> (r: Option<String>)
    ensures
        match r {
            Some(text) => text_of(json_fields(*value), key@) == Some(text@),
            None => text_of(json_fields(*value), key@) is None,
        },
{
    match value.get(key) {
        Some(Value::String(text)) => Some(text.clone()),
        _ => None,
    }
}

/// Looks a member up by `serde_json::Value::get` and hands it out by
/// `serde_json::Value::as_u64`, which gives a number only for an integer
/// that is not negative and fits 64 bits.
#[verifier::external_body]
pub(crate) fn number_member(value: &Value, key: &str) -> (r: Option<u64>)
    ensures
        r == number_of(json_fields(*value), key@),
{
    match value.get(key) {
        Some(member) => member.as_u64(),
        None => None,
    }
}

} // verus!
