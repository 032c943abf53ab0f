//! JSON values as `serde_json` parses and holds them.
//!
//! A `serde_json::Value` is read through a model of it, [`Json`]. Nothing
//! that this file says of `serde_json` is proved: each contract states, of
//! one function of that crate, what its source shows.

use vstd::prelude::*;

verus! {

#[verifier::external_type_specification]
#[verifier::external_body]
pub struct ExValue(serde_json::Value);

#[verifier::external_type_specification]
#[verifier::external_body]
pub struct ExJsonError(serde_json::Error);

/// A JSON number: an integer with its value, or a number with a fraction or
/// an exponent.
pub enum JsonNumber {
    Integer(int),
    Float,
}

/// A JSON value.
pub enum Json {
    Null,
    Bool(bool),
    Number(JsonNumber),
    Text(Seq<char>),
    Array(Seq<Json>),
    Object(Map<Seq<char>, Json>),
}

/// What a `serde_json::Value` holds.
pub uninterp spec fn content(v: serde_json::Value) -> Json;

/// What `serde_json::from_slice` reads from `bytes` as a `serde_json::Value`:
/// `None` where it fails.
pub uninterp spec fn parsed(bytes: Seq<u8>) -> Option<Json>;

/// The member of an object under `key`: `None` for a value that is no
/// object or has no such member.
pub open spec fn field(json: Json, key: Seq<char>) -> Option<Json> {
    match json {
        Json::Object(members) => if members.contains_key(key) {
            Some(members[key])
        } else {
            None
        },
        _ => None,
    }
}

/// The text of a JSON string: `None` for any other value.
pub open spec fn text(json: Json) -> Option<Seq<char>> {
    match json {
        Json::Text(chars) => Some(chars),
        _ => None,
    }
}

/// The value of a JSON integer that fits in an `i64`: `None` for any other
/// value.
pub open spec fn integer(json: Json) -> Option<i64> {
    match json {
        Json::Number(JsonNumber::Integer(i)) => if i64::MIN <= i <= i64::MAX {
            Some(i as i64)
        } else {
            None
        },
        _ => None,
    }
}

/// The elements of a JSON array: `None` for any other value.
pub open spec fn elements(json: Json) -> Option<Seq<Json>> {
    match json {
        Json::Array(items) => Some(items),
        _ => None,
    }
}

/// What each of `values` holds, in their order.
pub open spec fn contents(values: Seq<serde_json::Value>) -> Seq<Json> {
    Seq::new(values.len(), |i: int| content(values[i]))
}

/// What an optional value holds.
pub open spec fn optional_content(value: Option<serde_json::Value>) -> Option<Json> {
    match value {
        Some(v) => Some(content(v)),
        None => None,
    }
}

/// `serde_json::from_slice`, read as a `serde_json::Value`: what it reads
/// depends on the bytes alone, and it is `Ok` exactly where it reads a
/// value.
#[verifier::external_body]
pub(crate) fn parse_value(bytes: &[u8]) -> (r: Result<serde_json::Value, serde_json::Error>)
    ensures
        r is Ok <==> parsed(bytes@) is Some,
        r is Ok ==> parsed(bytes@) == Some(content(r->Ok_0)),
{
    serde_json::from_slice::<serde_json::Value>(bytes)
}

/// `serde_json::Value::get` with a string key: the member of an object
/// under that key; `None` where `v` is no object or has no such member.
#[verifier::external_body]
pub(crate) fn get_member<'a>(v: &'a serde_json::Value, key: &str) -> (r: Option<
    &'a serde_json::Value,
>)
    ensures
        r is Some <==> field(content(*v), key@) is Some,
        r is Some ==> field(content(*v), key@) == Some(content(*r->Some_0)),
{
    v.get(key)
}

/// `serde_json::Value::as_str`: the text of a JSON string, `None` for any
/// other value.
#[verifier::external_body]
pub(crate) fn as_text<'a>(v: &'a serde_json::Value) -> (r: Option<&'a str>)
    ensures
        r is Some <==> text(content(*v)) is Some,
        r is Some ==> text(content(*v)) == Some(r->Some_0@),
{
    v.as_str()
}

/// `serde_json::Value::as_i64`: the value of a JSON integer that fits in an
/// `i64`, `None` for any other value.
#[verifier::external_body]
pub(crate) fn as_integer(v: &serde_json::Value) -> (r: Option<i64>)
    ensures
        r == integer(content(*v)),
{
    v.as_i64()
}

/// `serde_json::Value::is_number`: whether `v` is a JSON number.
#[verifier::external_body]
pub(crate) fn check_number(v: &serde_json::Value) -> (r: bool)
    ensures
        r == (content(*v) is Number),
{
    v.is_number()
}

/// `serde_json::Value::as_array`: the elements of a JSON array, `None` for
/// any other value.
#[verifier::external_body]
pub(crate) fn as_elements<'a>(v: &'a serde_json::Value) -> (r: Option<
    &'a Vec<serde_json::Value>,
>)
    ensures
        r is Some <==> elements(content(*v)) is Some,
        r is Some ==> elements(content(*v)) == Some(contents(r->Some_0@)),
{
    v.as_array()
}

/// `Clone::clone` of a `serde_json::Value`: a value equal to `v`.
pub assume_specification[ <serde_json::Value as Clone>::clone ](v: &serde_json::Value) -> (r:
    serde_json::Value)
    ensures
        r == *v,
;

} // verus!
