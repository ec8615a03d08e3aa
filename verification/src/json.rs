//! A mathematical model of the JSON documents the endpoints return, and the
//! trusted boundary to `serde_json`, which does the actual parsing.
//!
//! The library never inspects a `serde_json::Value` directly: every reading
//! of one goes through the small wrappers below, whose contracts are stated
//! over the model. Verified code then reasons about the model alone.
use vstd::prelude::*;

verus! {

/// Model of a parsed JSON value, as far as this library reads one.
///
/// Numbers appear only where the endpoints promise an unsigned integer, so
/// the model keeps a number's exact `u64` value where it has one and collapses
/// every other number (negative, fractional, too large) into `OtherNum`.
pub enum JsonVal {
    Null,
    Bool(bool),
    UInt(u64),
    OtherNum,
    Str(Seq<char>),
    Arr(Seq<JsonVal>),
    Obj(Map<Seq<char>, JsonVal>),
}

/// What `serde_json::from_slice::<Value>` makes of the bytes: `None` when
/// they are not one well-formed JSON document, otherwise the model of the
/// parsed value. Parsing is a function of the bytes alone.
pub uninterp spec fn json_model(bytes: Seq<u8>) -> Option<JsonVal>;

/// The model of what a `serde_json::Value` holds.
pub uninterp spec fn value_model(v: serde_json::Value) -> JsonVal;

#[verifier::external_type_specification]
#[verifier::external_body]
pub struct ExValue(serde_json::Value);

/// Relies on `serde_json::from_slice::<Value>`: returns `Ok` exactly when
/// the bytes form one well-formed JSON document, and then yields its value.
#[verifier::external_body]
pub(crate) fn parse_json(bytes: &[u8]) -> (r: Option<serde_json::Value>)
    ensures
        r is Some <==> json_model(bytes@) is Some,
        (r matches Some(v) ==> json_model(bytes@) == Some(value_model(v))),
{
    serde_json::from_slice(bytes).ok()
}

/// Relies on `serde_json::Value::get` with a string index: `Some` exactly
/// when the value is an object with that key, yielding the value under it.
#[verifier::external_body]
pub(crate) fn json_get<'a>(v: &'a serde_json::Value, key: &str) -> (r: Option<
    &'a serde_json::Value,
>)
    ensures
        r is Some <==> (value_model(*v) matches JsonVal::Obj(m) && m.contains_key(key@)),
        (r matches Some(c) ==> (value_model(*v) matches JsonVal::Obj(m) && value_model(*c)
            == m[key@])),
{
    v.get(key)
}

/// Relies on `serde_json::Value::get` with a `usize` index: `Some` exactly
/// when the value is an array long enough, yielding the element there.
#[verifier::external_body]
pub(crate) fn json_get_at<'a>(v: &'a serde_json::Value, idx: usize) -> (r: Option<
    &'a serde_json::Value,
>)
    ensures
        r is Some <==> (value_model(*v) matches JsonVal::Arr(items) && idx < items.len()),
        (r matches Some(c) ==> (value_model(*v) matches JsonVal::Arr(items) && value_model(*c)
            == items[idx as int])),
{
    v.get(idx)
}

/// Relies on `serde_json::Value::as_str`: `Some` exactly on a JSON string,
/// yielding its characters.
#[verifier::external_body]
pub(crate) fn json_as_str(v: &serde_json::Value) -> (r: Option<String>)
    ensures
        r is Some <==> value_model(*v) is Str,
        (r matches Some(s) ==> value_model(*v) == JsonVal::Str(s@)),
{
    match v.as_str() {
        Some(s) => Some(s.to_owned()),
        None => None,
    }
}

/// Relies on `serde_json::Value::as_u64`: `Some` exactly on a JSON number
/// that is an unsigned 64-bit integer, yielding its value.
#[verifier::external_body]
pub(crate) fn json_as_u64(v: &serde_json::Value) -> (r: Option<u64>)
    ensures
        r is Some <==> value_model(*v) is UInt,
        (r matches Some(n) ==> value_model(*v) == JsonVal::UInt(n)),
{
    v.as_u64()
}

/// Relies on `serde_json::Value::as_bool`: `Some` exactly on a JSON boolean,
/// yielding its value.
#[verifier::external_body]
pub(crate) fn json_as_bool(v: &serde_json::Value) -> (r: Option<bool>)
    ensures
        r is Some <==> value_model(*v) is Bool,
        (r matches Some(b) ==> value_model(*v) == JsonVal::Bool(b)),
{
    v.as_bool()
}

/// The value under `key` when `doc` is an object that has it.
pub open spec fn field_of(doc: JsonVal, key: Seq<char>) -> Option<JsonVal> {
    match doc {
        JsonVal::Obj(m) => if m.contains_key(key) {
            Some(m[key])
        } else {
            None
        },
        _ => None,
    }
}

/// The value under `data.<key>`: every structured endpoint nests its payload
/// under a top-level `data` object.
pub open spec fn data_field(doc: JsonVal, key: Seq<char>) -> Option<JsonVal> {
    match field_of(doc, "data"@) {
        Some(d) => field_of(d, key),
        None => None,
    }
}

/// The string under `data.<key>`, when there is one.
pub open spec fn data_str(doc: JsonVal, key: Seq<char>) -> Option<Seq<char>> {
    match data_field(doc, key) {
        Some(JsonVal::Str(s)) => Some(s),
        _ => None,
    }
}

/// The unsigned integer under `data.<key>`, when there is one.
pub open spec fn data_u64(doc: JsonVal, key: Seq<char>) -> Option<u64> {
    match data_field(doc, key) {
        Some(JsonVal::UInt(n)) => Some(n),
        _ => None,
    }
}

/// The boolean under `data.<key>`, when there is one.
pub open spec fn data_bool(doc: JsonVal, key: Seq<char>) -> Option<bool> {
    match data_field(doc, key) {
        Some(JsonVal::Bool(b)) => Some(b),
        _ => None,
    }
}

/// The string at index `idx` of the array under `data.<key>`, when there is
/// one.
pub open spec fn data_arr_str(doc: JsonVal, key: Seq<char>, idx: int) -> Option<Seq<char>> {
    match data_field(doc, key) {
        Some(JsonVal::Arr(items)) => if 0 <= idx < items.len() {
            match items[idx] {
                JsonVal::Str(s) => Some(s),
                _ => None,
            }
        } else {
            None
        },
        _ => None,
    }
}

/// Looks up the string under `data.<key>` in a parsed document.
pub(crate) fn get_data_str(doc: &serde_json::Value, key: &str) -> (r: Option<String>)
    ensures
        r is Some <==> data_str(value_model(*doc), key@) is Some,
        (r matches Some(s) ==> data_str(value_model(*doc), key@) == Some(s@)),
{
    match json_get(doc, "data") {
        Some(d) => match json_get(d, key) {
            Some(f) => json_as_str(f),
            None => None,
        },
        None => None,
    }
}

/// Looks up the unsigned integer under `data.<key>` in a parsed document.
pub(crate) fn get_data_u64(doc: &serde_json::Value, key: &str) -> (r: Option<u64>)
    ensures
        r is Some <==> data_u64(value_model(*doc), key@) is Some,
        (r matches Some(n) ==> data_u64(value_model(*doc), key@) == Some(n)),
{
    match json_get(doc, "data") {
        Some(d) => match json_get(d, key) {
            Some(f) => json_as_u64(f),
            None => None,
        },
        None => None,
    }
}

/// Looks up the boolean under `data.<key>` in a parsed document.
pub(crate) fn get_data_bool(doc: &serde_json::Value, key: &str) -> (r: Option<bool>)
    ensures
        r is Some <==> data_bool(value_model(*doc), key@) is Some,
        (r matches Some(b) ==> data_bool(value_model(*doc), key@) == Some(b)),
{
    match json_get(doc, "data") {
        Some(d) => match json_get(d, key) {
            Some(f) => json_as_bool(f),
            None => None,
        },
        None => None,
    }
}

/// Looks up the string at `idx` of the array under `data.<key>` in a parsed
/// document.
pub(crate) fn get_data_arr_str(doc: &serde_json::Value, key: &str, idx: usize) -> (r: Option<
    String,
>)
    ensures
        r is Some <==> data_arr_str(value_model(*doc), key@, idx as int) is Some,
        (r matches Some(s) ==> data_arr_str(value_model(*doc), key@, idx as int) == Some(s@)),
{
    match json_get(doc, "data") {
        Some(d) => match json_get(d, key) {
            Some(f) => match json_get_at(f, idx) {
                Some(e) => json_as_str(e),
                None => None,
            },
            None => None,
        },
        None => None,
    }
}

} // verus!
