//! JSON values, as far as the wire protocol reads and writes them.
//!
//! Parsing and printing of JSON text is done by `serde_json`. The protocol
//! code never looks inside a `serde_json::Value` itself: it goes through the
//! small functions of this module, each of which states what the
//! corresponding `serde_json` call does in terms of the mathematical value
//! [`Json`] that a `Value` stands for. None of those statements is proved;
//! they are the documented behaviour of `serde_json`, taken on trust.

use vstd::prelude::*;
use vstd::string::StringSliceAdditionalSpecFns;
use vstd::utf8::encode_utf8_decode_utf8;

verus! {

#[verifier::external_type_specification]
#[verifier::external_body]
pub struct ExValue(serde_json::Value);

#[verifier::external_type_specification]
#[verifier::external_body]
pub struct ExNumber(serde_json::Number);

#[verifier::external_type_specification]
#[verifier::external_body]
pub struct ExJsonError(serde_json::Error);

/// A JSON number: an integer, or a real number given by the bits of its
/// double precision representation.
pub enum NumberModel {
    Integer(int),
    Real { bits: u64 },
}

/// A JSON value.
pub enum Json {
    Null,
    Bool(bool),
    Number(NumberModel),
    String(Seq<char>),
    Array(Seq<Json>),
    Object(Map<Seq<char>, Json>),
}

impl Json {
    /// The member `key` of an object; `None` for other values and for
    /// objects without that member.
    pub open spec fn member(self, key: Seq<char>) -> Option<Json> {
        match self {
            Json::Object(members) => if members.contains_key(key) {
                Some(members[key])
            } else {
                None
            },
            _ => None,
        }
    }

    /// The text of a string; `None` for other values.
    pub open spec fn text(self) -> Option<Seq<char>> {
        match self {
            Json::String(text) => Some(text),
            _ => None,
        }
    }

    /// The value of an integer between `0` and `max`; `None` for other values.
    pub open spec fn natural(self, max: int) -> Option<int> {
        match self {
            Json::Number(NumberModel::Integer(n)) => if 0 <= n <= max {
                Some(n)
            } else {
                None
            },
            _ => None,
        }
    }
}

/// The JSON value that a `serde_json::Value` holds.
pub uninterp spec fn json_of(value: serde_json::Value) -> Json;

/// The number that a `serde_json::Number` holds.
pub uninterp spec fn number_of(number: serde_json::Number) -> NumberModel;

/// The value that `serde_json` reads from a text, if it accepts the text.
pub uninterp spec fn parsed(text: Seq<u8>) -> Option<Json>;

/// The text that `serde_json` prints for a value.
pub uninterp spec fn printed(json: Json) -> Seq<u8>;

/// The JSON values of a list of `serde_json` values.
pub open spec fn jsons_of(values: Seq<serde_json::Value>) -> Seq<Json> {
    values.map_values(|value: serde_json::Value| json_of(value))
}

/// `serde_json::from_slice` at type `Value`: reads a whole JSON text. The
/// outcome depends on the bytes alone; on success the value is the one the
/// text denotes.
#[verifier::external_body]
pub(crate) fn parse(text: &[u8]) -> (result: Result<serde_json::Value, serde_json::Error>)
    ensures
        result matches Ok(value) ==> parsed(text@) == Some(json_of(value)),
        result is Err ==> parsed(text@) is None,
{
    serde_json::from_slice::<serde_json::Value>(text)
}

/// `serde_json::to_vec` on a `Value`: prints the value as JSON text. Printing
/// a `Value` into memory cannot fail: the names of members are strings, a
/// `Value` holds no number that JSON cannot write, and the writer is a
/// vector. The text depends on the value alone: members are printed in the
/// order of their names, which is how `serde_json` keeps them unless it is
/// built to preserve the order of insertion.
#[verifier::external_body]
pub(crate) fn print(value: &serde_json::Value) -> (result: Result<Vec<u8>, serde_json::Error>)
    ensures
        result is Ok,
        result matches Ok(text) ==> text@ == printed(json_of(*value)),
{
    serde_json::to_vec(value)
}

/// `Value::get` with a string index: the member of an object, and `None` for
/// a value that is no object or has no such member.
#[verifier::external_body]
pub(crate) fn member<'a>(value: &'a serde_json::Value, key: &str) -> (result: Option<
    &'a serde_json::Value,
>)
    ensures
        match json_of(*value).member(key@) {
            Some(json) => result matches Some(found) && json_of(*found) == json,
            None => result is None,
        },
{
    value.get(key)
}

/// `Value::as_str`: the text of a string, and `None` for any other value.
#[verifier::external_body]
pub(crate) fn as_text<'a>(value: &'a serde_json::Value) -> (result: Option<&'a str>)
    ensures
        match json_of(*value) {
            Json::String(text) => result matches Some(found) && found@ == text,
            _ => result is None,
        },
{
    value.as_str()
}

/// `Value::as_bool`: the truth value of a boolean, and `None` for any other value.
#[verifier::external_body]
pub(crate) fn as_bool(value: &serde_json::Value) -> (result: Option<bool>)
    ensures
        match json_of(*value) {
            Json::Bool(b) => result == Some(b),
            _ => result is None,
        },
{
    value.as_bool()
}

/// `Value::as_u64`: the value of an integer that fits `u64`, and `None` for
/// any other value, negative integers and real numbers included.
#[verifier::external_body]
pub(crate) fn as_u64(value: &serde_json::Value) -> (result: Option<u64>)
    ensures
        match json_of(*value).natural(u64::MAX as int) {
            Some(n) => result == Some(n as u64),
            None => result is None,
        },
{
    value.as_u64()
}

/// `Value::as_number`: the number of a numeric value, and `None` for any other value.
#[verifier::external_body]
pub(crate) fn as_number(value: &serde_json::Value) -> (result: Option<serde_json::Number>)
    ensures
        match json_of(*value) {
            Json::Number(number) => result matches Some(found) && number_of(found) == number,
            _ => result is None,
        },
{
    value.as_number().cloned()
}

/// `Value::as_array`: the elements of an array, and `None` for any other value.
#[verifier::external_body]
pub(crate) fn as_array<'a>(value: &'a serde_json::Value) -> (result: Option<
    &'a Vec<serde_json::Value>,
>)
    ensures
        match json_of(*value) {
            Json::Array(items) => result matches Some(found) && jsons_of(found@) == items,
            _ => result is None,
        },
{
    value.as_array()
}

/// `Value::is_null`.
#[verifier::external_body]
pub(crate) fn is_null(value: &serde_json::Value) -> (result: bool)
    ensures
        result == (json_of(*value) is Null),
{
    value.is_null()
}

/// `Value::is_object`.
#[verifier::external_body]
pub(crate) fn is_object(value: &serde_json::Value) -> (result: bool)
    ensures
        result == (json_of(*value) is Object),
{
    value.is_object()
}

/// `Value::clone`: a value that holds the same JSON.
#[verifier::external_body]
pub(crate) fn duplicate(value: &serde_json::Value) -> (result: serde_json::Value)
    ensures
        json_of(result) == json_of(*value),
{
    value.clone()
}

/// `Value::from` a `String`: the JSON string with that text.
#[verifier::external_body]
pub(crate) fn text_value(text: String) -> (result: serde_json::Value)
    ensures
        json_of(result) == Json::String(text@),
{
    serde_json::Value::from(text)
}

/// `Value::from` a `bool`.
#[verifier::external_body]
pub(crate) fn bool_value(b: bool) -> (result: serde_json::Value)
    ensures
        json_of(result) == Json::Bool(b),
{
    serde_json::Value::from(b)
}

/// `Value::from` a `u32`: the JSON integer of that value.
#[verifier::external_body]
pub(crate) fn u32_value(n: u32) -> (result: serde_json::Value)
    ensures
        json_of(result) == Json::Number(NumberModel::Integer(n as int)),
{
    serde_json::Value::from(n)
}

/// `Value::Array`: the JSON array of the given elements, in their order.
#[verifier::external_body]
pub(crate) fn array_value(items: Vec<serde_json::Value>) -> (result: serde_json::Value)
    ensures
        json_of(result) == Json::Array(jsons_of(items@)),
{
    serde_json::Value::Array(items)
}

/// `Value::Object` of `Map::new`: the JSON object without members.
#[verifier::external_body]
pub(crate) fn empty_object() -> (result: serde_json::Value)
    ensures
        json_of(result) == Json::Object(Map::empty()),
{
    serde_json::Value::Object(serde_json::Map::new())
}

/// `Map::insert` on the map of an object: sets the member `key`, replacing
/// an earlier member of that name.
#[verifier::external_body]
pub(crate) fn set_member(object: &mut serde_json::Value, key: &str, value: serde_json::Value)
    requires
        json_of(*old(object)) is Object,
    ensures
        json_of(*final(object)) == Json::Object(
            json_of(*old(object))->Object_0.insert(key@, json_of(value)),
        ),
{
    if let Some(members) = object.as_object_mut() {
        members.insert(key.to_owned(), value);
    }
}

/// Whether two texts hold the same characters.
pub(crate) fn same_text(a: &str, b: &str) -> (result: bool)
    ensures
        result == (a@ == b@),
{
    let left = a.as_bytes();
    let right = b.as_bytes();
    if left.len() != right.len() {
        return false;
    }
    let mut i: usize = 0;
    while i < left.len()
        invariant
            left@ == a.spec_bytes(),
            right@ == b.spec_bytes(),
            left@.len() == right@.len(),
            i <= left@.len(),
            forall|j: int| 0 <= j < i ==> left@[j] == right@[j],
        decreases left@.len() - i,
    {
        if left[i] != right[i] {
            return false;
        }
        i += 1;
    }
    proof {
        // Texts with the same bytes are the same text.
        assert(left@ =~= right@);
        encode_utf8_decode_utf8(a@);
        encode_utf8_decode_utf8(b@);
    }
    true
}

} // verus!
