//! The parts of `serde_json` that the bridge relies on.
use vstd::prelude::*;

verus! {

#[verifier::external_type_specification]
#[verifier::external_body]
pub struct ExValue(serde_json::Value);

#[verifier::external_type_specification]
#[verifier::external_body]
#[verifier::reject_recursive_types(K)]
#[verifier::reject_recursive_types(V)]
pub struct ExMap<K, V>(serde_json::Map<K, V>);

/// The fields of a JSON object, by key.
pub uninterp spec fn object_entries(m: serde_json::Map<String, serde_json::Value>) -> Map<
    Seq<char>,
    serde_json::Value,
>;

/// The JSON object whose fields are these.
pub uninterp spec fn json_object(e: Map<Seq<char>, serde_json::Value>) -> serde_json::Value;

/// The JSON number `n`.
pub uninterp spec fn json_u64(n: u64) -> serde_json::Value;

/// The JSON string `s`.
pub uninterp spec fn json_string(s: Seq<char>) -> serde_json::Value;

/// The JSON boolean `b`.
pub uninterp spec fn json_bool(b: bool) -> serde_json::Value;

/// The JSON array of these strings.
pub uninterp spec fn json_strings(items: Seq<Seq<char>>) -> serde_json::Value;

/// The JSON array of these strings, or `null` for none.
pub uninterp spec fn json_optional_strings(items: Option<Seq<Seq<char>>>) -> serde_json::Value;

/// The value under `key` in an object; `null` where there is none.
pub uninterp spec fn json_field(v: serde_json::Value, key: Seq<char>) -> serde_json::Value;

/// The value as an `i64`, if it is an integer that fits.
pub uninterp spec fn json_as_i64(v: serde_json::Value) -> Option<i64>;

/// The value's text, if it is a string.
pub uninterp spec fn json_as_str(v: serde_json::Value) -> Option<Seq<char>>;

/// The value's elements, if it is an array.
pub uninterp spec fn json_as_array(v: serde_json::Value) -> Option<Seq<serde_json::Value>>;

/// The compact serialization of a JSON value.
pub uninterp spec fn json_bytes(v: serde_json::Value) -> Seq<u8>;

/// The JSON value that a text denotes, if it is one.
pub uninterp spec fn parsed_json(s: Seq<char>) -> Option<serde_json::Value>;

/// The fields of an empty object.
pub open spec fn no_fields() -> Map<Seq<char>, serde_json::Value> {
    Map::empty()
}

/// A JSON value is an object.
pub open spec fn is_object(v: serde_json::Value) -> bool {
    exists|e: Map<Seq<char>, serde_json::Value>| v == json_object(e)
}

/// Relies on the `Object` variant of `serde_json::Value` holding a
/// `serde_json::Map`: an object value hands its map out, and two objects
/// are the same value only with the same fields; any other value comes back.
#[verifier::external_body]
pub(crate) fn into_object(v: serde_json::Value) -> (r: Result<
    serde_json::Map<String, serde_json::Value>,
    serde_json::Value,
>)
    ensures
        r matches Ok(m) ==> v == json_object(object_entries(m)),
        r matches Ok(m) ==> forall|e: Map<Seq<char>, serde_json::Value>|
            v == #[trigger] json_object(e) ==> e == object_entries(m),
        r matches Err(w) ==> w == v && !is_object(v),
{
    match v {
        serde_json::Value::Object(m) => Ok(m),
        other => Err(other),
    }
}

/// Relies on `serde_json::Value::Object`: wraps a map as an object value.
#[verifier::external_body]
pub(crate) fn object_value(m: serde_json::Map<String, serde_json::Value>) -> (r:
    serde_json::Value)
    ensures
        r == json_object(object_entries(m)),
{
    serde_json::Value::Object(m)
}

/// Relies on `serde_json::Map::insert`: the key afterwards maps to the new
/// value, whether or not it was present, and no other key changes.
#[verifier::external_body]
pub(crate) fn set_field(
    m: &mut serde_json::Map<String, serde_json::Value>,
    key: &str,
    value: serde_json::Value,
)
    ensures
        object_entries(*final(m)) == object_entries(*old(m)).insert(key@, value),
{
    m.insert(key.to_string(), value);
}

/// Relies on `From<u64> for serde_json::Value`: a JSON number.
#[verifier::external_body]
pub(crate) fn u64_value(n: u64) -> (r: serde_json::Value)
    ensures
        r == json_u64(n),
{
    serde_json::Value::from(n)
}

/// Relies on `From<&str> for serde_json::Value`: a JSON string.
#[verifier::external_body]
pub(crate) fn string_value(s: &str) -> (r: serde_json::Value)
    ensures
        r == json_string(s@),
{
    serde_json::Value::from(s)
}

/// Relies on `serde_json::Map::new`: a map with no fields.
#[verifier::external_body]
pub(crate) fn empty_map() -> (r: serde_json::Map<String, serde_json::Value>)
    ensures
        object_entries(r) == no_fields(),
{
    serde_json::Map::new()
}

/// Relies on `From<bool> for serde_json::Value`: a JSON boolean.
#[verifier::external_body]
pub(crate) fn bool_value(b: bool) -> (r: serde_json::Value)
    ensures
        r == json_bool(b),
{
    serde_json::Value::from(b)
}

/// Relies on `From<Vec<String>> for serde_json::Value`: an array of JSON
/// strings, in order.
#[verifier::external_body]
pub(crate) fn strings_value(items: Vec<String>) -> (r: serde_json::Value)
    ensures
        r == json_strings(items@.map_values(|s: String| s@)),
{
    serde_json::Value::from(items)
}

/// Relies on `From<Option<Vec<String>>> for serde_json::Value`: `null` for
/// `None`, else an array of JSON strings, in order.
#[verifier::external_body]
pub(crate) fn optional_strings_value(items: Option<Vec<String>>) -> (r: serde_json::Value)
    ensures
        r == json_optional_strings(
            match items {
                Some(v) => Some(v@.map_values(|s: String| s@)),
                None => None,
            },
        ),
{
    serde_json::Value::from(items)
}

/// Relies on `Index<&str> for serde_json::Value`: the field under `key`, or
/// `null` when the value is no object or has no such field.
#[verifier::external_body]
pub(crate) fn field_of<'a>(v: &'a serde_json::Value, key: &str) -> (r: &'a serde_json::Value)
    ensures
        *r == json_field(*v, key@),
{
    &v[key]
}

/// Relies on `serde_json::Value::as_i64`.
#[verifier::external_body]
pub(crate) fn as_i64(v: &serde_json::Value) -> (r: Option<i64>)
    ensures
        r == json_as_i64(*v),
{
    v.as_i64()
}

/// Relies on `serde_json::Value::as_str`.
#[verifier::external_body]
pub(crate) fn as_str<'a>(v: &'a serde_json::Value) -> (r: Option<&'a str>)
    ensures
        r is None <==> json_as_str(*v) is None,
        r matches Some(s) ==> json_as_str(*v) == Some(s@),
{
    v.as_str()
}

/// Relies on `serde_json::Value::as_array`.
#[verifier::external_body]
pub(crate) fn as_array<'a>(v: &'a serde_json::Value) -> (r: Option<&'a Vec<serde_json::Value>>)
    ensures
        r is None <==> json_as_array(*v) is None,
        r matches Some(a) ==> json_as_array(*v) == Some(a@),
{
    v.as_array()
}

/// Relies on `serde_json::to_vec`: the compact serialization of a value.
/// Serializing a `Value` into a `Vec` does not fail: object keys are strings,
/// numbers are finite, and writing to memory cannot fail.
#[verifier::external_body]
pub(crate) fn to_json_bytes(v: &serde_json::Value) -> (r: Result<Vec<u8>, String>)
    ensures
        r is Ok,
        r matches Ok(b) ==> b@ == json_bytes(*v),
{
    serde_json::to_vec(v).map_err(|e| e.to_string())
}

/// Relies on `serde_json::from_str`: the value a text denotes, or the reason
/// it denotes none.
#[verifier::external_body]
pub(crate) fn parse_json(s: &str) -> (r: Result<serde_json::Value, String>)
    ensures
        r matches Ok(v) ==> parsed_json(s@) == Some(v),
        r is Err <==> parsed_json(s@) is None,
{
    serde_json::from_str(s).map_err(|e| e.to_string())
}

} // verus!
