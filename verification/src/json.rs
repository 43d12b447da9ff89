//! A mathematical model of the JSON values this service reads, and the
//! trusted boundary to `serde_json`, which does the actual parsing.
//!
//! The decoder only ever looks at objects, strings and unsigned integers;
//! every other JSON shape (null, booleans, floats, arrays, integers outside
//! the ranges of `u64` and `i64`) is modelled as [`JsonData::Other`], a shape
//! the decoder uniformly rejects.

use vstd::prelude::*;

verus! {

/// The model of a parsed JSON value, as far as this service reads one.
///
/// `Num(n)` stands for a JSON number that is an integer (`serde_json`
/// represents those as `u64` or `i64`; floats fall under `Other`).
/// `Text` stands for a JSON string, `Object` for a JSON object keyed by its
/// member names. Everything else is `Other`.
pub enum JsonData {
    Num(int),
    Text(Seq<char>),
    Object(Map<Seq<char>, JsonData>),
    Other,
}

#[verifier::external_type_specification]
#[verifier::external_body]
pub struct ExValue(serde_json::Value);

#[verifier::external_type_specification]
#[verifier::external_body]
pub struct ExJsonError(serde_json::Error);

/// What a `serde_json::Value` holds, seen through the model above.
pub uninterp spec fn json_model(v: serde_json::Value) -> JsonData;

/// What parsing a text as JSON yields: `None` where the text is not valid
/// JSON, otherwise the model of the parsed value.
pub uninterp spec fn json_of_text(s: Seq<char>) -> Option<JsonData>;

/// Relies on `serde_json::from_str::<Value>`: parsing is a function of the
/// input text alone; it succeeds exactly on valid JSON.
#[verifier::external_body]
pub(crate) fn parse_json(s: &str) -> (r: Result<serde_json::Value, serde_json::Error>)
    ensures
        match r {
            Ok(v) => json_of_text(s@) == Some(json_model(v)),
            Err(_) => json_of_text(s@) is None,
        },
{
    serde_json::from_str(s)
}

/// Relies on `serde_json::Value::is_object`: true exactly on the `Object`
/// variant.
#[verifier::external_body]
pub(crate) fn json_is_object(v: &serde_json::Value) -> (r: bool)
    ensures
        r == (json_model(*v) is Object),
{
    v.is_object()
}

/// Relies on `serde_json::Value::get` with a string index: on an object it
/// looks the key up among the members, on anything else it returns `None`.
#[verifier::external_body]
pub(crate) fn json_get<'a>(v: &'a serde_json::Value, key: &str) -> (r: Option<&'a serde_json::Value>)
    ensures
        match json_model(*v) {
            JsonData::Object(m) => {
                &&& m.contains_key(key@) ==> (r matches Some(w) && json_model(*w) == m[key@])
                &&& !m.contains_key(key@) ==> r is None
            },
            _ => r is None,
        },
{
    v.get(key)
}

/// Relies on `serde_json::Value::as_u64`: `Some` exactly when the value is a
/// JSON number holding an integer that fits in `u64`.
#[verifier::external_body]
pub(crate) fn json_as_u64(v: &serde_json::Value) -> (r: Option<u64>)
    ensures
        r == (match json_model(*v) {
            JsonData::Num(n) => if 0 <= n <= u64::MAX { Some(n as u64) } else { None::<u64> },
            _ => None::<u64>,
        }),
{
    v.as_u64()
}

/// Relies on `serde_json::Value::as_str`: `Some` exactly on the `String`
/// variant, handing its characters back.
#[verifier::external_body]
pub(crate) fn json_as_string(v: &serde_json::Value) -> (r: Option<String>)
    ensures
        match json_model(*v) {
            JsonData::Text(s) => r matches Some(t) && t@ == s,
            _ => r is None,
        },
{
    match v.as_str() {
        Some(s) => Some(s.to_string()),
        None => None,
    }
}

} // verus!
