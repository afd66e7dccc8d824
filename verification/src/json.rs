//! The trusted boundary to `serde_json`.
//!
//! The wire formats carry JSON documents; decoding, encoding and field
//! lookup are done by `serde_json`, and each call the logic makes goes
//! through exactly one wrapper here. A `serde_json::Value` is opaque to
//! the verifier, but every call is a function of its arguments alone
//! (the default `serde_json::Map` is a `BTreeMap`: no ordering or hashing
//! nondeterminism), so each result is given a name that the wrappers'
//! contracts and the parsers' contracts share.

use vstd::prelude::*;

verus! {

#[verifier::external_type_specification]
#[verifier::external_body]
pub struct ExValue(serde_json::Value);

#[verifier::external_type_specification]
#[verifier::external_body]
pub struct ExJsonError(serde_json::Error);

#[verifier::external_type_specification]
#[verifier::external_body]
#[verifier::reject_recursive_types(K)]
#[verifier::reject_recursive_types(V)]
pub struct ExJsonMap<K, V>(serde_json::Map<K, V>);

/// The JSON text that `serde_json::to_string` renders for a value; a
/// function of the value alone (object keys serialize in sorted order).
pub uninterp spec fn json_text(v: serde_json::Value) -> Seq<char>;

/// The inner string of a JSON string value, and `None` for every other
/// kind of value; a function of the value alone.
pub uninterp spec fn json_str_value(v: serde_json::Value) -> Option<Seq<char>>;

/// What `serde_json::from_str` makes of a text: the parsed value, or
/// `None` when the text is not valid JSON; a function of the text alone.
pub uninterp spec fn json_parsed(s: Seq<char>) -> Option<serde_json::Value>;

/// What `serde_json::Value::get` yields for a string key: the field's
/// value when the value is an object with that field, else `None`.
pub uninterp spec fn json_field(v: serde_json::Value, key: Seq<char>) -> Option<serde_json::Value>;

/// What `serde_json::Value::as_u64` yields: the number when the value is
/// an integer representable as `u64`, else `None`.
pub uninterp spec fn json_u64_value(v: serde_json::Value) -> Option<u64>;

/// What a `serde_json::Map` holds: its string keys and their values. The
/// backing `BTreeMap` carries no insertion order, so the contents
/// determine the map.
pub uninterp spec fn json_map_model(m: serde_json::Map<String, serde_json::Value>) -> Map<
    Seq<char>,
    serde_json::Value,
>;

/// The object value built from given contents; equal contents give equal
/// values, since the backing `BTreeMap` compares by contents.
pub uninterp spec fn json_of_object(m: Map<Seq<char>, serde_json::Value>) -> serde_json::Value;

/// The string value holding the given characters.
pub uninterp spec fn json_of_string(s: Seq<char>) -> serde_json::Value;

/// The number value holding the given integer.
pub uninterp spec fn json_of_u64(n: u64) -> serde_json::Value;

/// Relies on `serde_json::to_string`: renders a value as JSON text. On a
/// `Value` it cannot fail — object keys are strings and no contained
/// serializer errs — so the result is always `Ok`.
#[verifier::external_body]
pub(crate) fn to_json_string(v: &serde_json::Value) -> (r: Result<String, serde_json::Error>)
    ensures
        r is Ok,
        r matches Ok(s) ==> s@ == json_text(*v),
{
    serde_json::to_string(v)
}

/// Relies on `serde_json::Value::as_str`: yields the inner string exactly
/// when the value is a JSON string.
#[verifier::external_body]
pub(crate) fn json_as_str(v: &serde_json::Value) -> (r: Option<String>)
    ensures
        r is Some <==> json_str_value(*v) is Some,
        r matches Some(s) ==> json_str_value(*v) == Some(s@),
{
    match v.as_str() {
        Some(s) => Some(s.to_owned()),
        None => None,
    }
}

/// Relies on `serde_json::from_str`: parses JSON text into a value,
/// succeeding exactly when the text is valid JSON.
#[verifier::external_body]
pub(crate) fn parse_json(s: &str) -> (r: Result<serde_json::Value, serde_json::Error>)
    ensures
        r is Ok <==> json_parsed(s@) is Some,
        r matches Ok(v) ==> json_parsed(s@) == Some(v),
{
    serde_json::from_str(s)
}

/// Relies on the `Display` implementation of `serde_json::Error` for a
/// description of a parse failure.
#[verifier::external_body]
pub(crate) fn json_error_text(e: &serde_json::Error) -> String {
    format!("{}", e)
}

/// Relies on `serde_json::Value::get` with a string key, and on the
/// derived `Clone` of `Value` to hand the field out owned.
#[verifier::external_body]
pub(crate) fn json_get(v: &serde_json::Value, key: &str) -> (r: Option<serde_json::Value>)
    ensures
        r == json_field(*v, key@),
{
    match v.get(key) {
        Some(x) => Some(x.clone()),
        None => None,
    }
}

/// Relies on `serde_json::Value::as_u64`.
#[verifier::external_body]
pub(crate) fn json_as_u64(v: &serde_json::Value) -> (r: Option<u64>)
    ensures
        r == json_u64_value(*v),
{
    v.as_u64()
}

/// The contents of an object with no fields.
pub open spec fn empty_json_map() -> Map<Seq<char>, serde_json::Value> {
    Map::empty()
}

/// Relies on `serde_json::Map::new`: the new map is empty.
#[verifier::external_body]
pub(crate) fn json_map_new() -> (r: serde_json::Map<String, serde_json::Value>)
    ensures
        json_map_model(r) == empty_json_map(),
{
    serde_json::Map::new()
}

/// Relies on `serde_json::Map::insert` with a string key: the key now
/// maps to the value, every other entry unchanged.
#[verifier::external_body]
pub(crate) fn json_map_insert(
    m: &mut serde_json::Map<String, serde_json::Value>,
    key: &str,
    value: serde_json::Value,
)
    ensures
        json_map_model(*final(m)) == json_map_model(*old(m)).insert(key@, value),
{
    m.insert(key.to_owned(), value);
}

/// Relies on the `serde_json::Value::Object` constructor: the object
/// holding exactly the map's contents.
#[verifier::external_body]
pub(crate) fn json_object(m: serde_json::Map<String, serde_json::Value>) -> (r: serde_json::Value)
    ensures
        r == json_of_object(json_map_model(m)),
{
    serde_json::Value::Object(m)
}

/// Relies on the `serde_json::Value::String` constructor.
#[verifier::external_body]
pub(crate) fn json_string(s: &str) -> (r: serde_json::Value)
    ensures
        r == json_of_string(s@),
{
    serde_json::Value::String(s.to_owned())
}

/// Relies on `From<u64>` for `serde_json::Value`, which builds a number.
#[verifier::external_body]
pub(crate) fn json_u64(n: u64) -> (r: serde_json::Value)
    ensures
        r == json_of_u64(n),
{
    serde_json::Value::from(n)
}

} // verus!
