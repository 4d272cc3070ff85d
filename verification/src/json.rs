//! Trusted boundary to the JSON engine.
//!
//! Both the provider's batch-quote responses and the persisted
//! watchlist file are JSON. The parsing itself is done by `serde_json`;
//! everything that reads the parsed tree lives in verified code and goes
//! through the small wrappers below.
//!
//! What a parsed [`serde_json::Value`] holds is named by [`value_model`]:
//! an abstract [`JsonModel`] tree. The model of the document a text
//! parses to is named by [`json_model_of`]. Every accessor's contract is
//! stated over the model, so verified callers can say exactly what they
//! read.

use vstd::prelude::*;

verus! {

#[verifier::external_type_specification]
#[verifier::external_body]
pub struct ExValue(serde_json::Value);

#[verifier::external_type_specification]
#[verifier::external_body]
pub struct ExJsonError(serde_json::Error);

/// The abstract shape of a parsed JSON value. A number carries the two
/// integer readings the engine offers (`None` where the number is a
/// float or out of range); object keys are deduplicated, as the engine
/// deduplicates them while parsing.
pub enum JsonModel {
    /// JSON `null`.
    Null,
    /// A boolean.
    Bool(bool),
    /// A number: its `i64` reading and its `u64` reading.
    Num(Option<i64>, Option<u64>),
    /// A string.
    Str(Seq<char>),
    /// An array, in document order.
    Arr(Seq<JsonModel>),
    /// An object, one entry per distinct key.
    Obj(Map<Seq<char>, JsonModel>),
}

/// What this parsed value holds.
pub uninterp spec fn value_model(v: serde_json::Value) -> JsonModel;

/// Whether `serde_json` accepts this text as a JSON document. The
/// outcome depends on the text alone.
pub uninterp spec fn json_wellformed(s: Seq<char>) -> bool;

/// The model of the document this text parses to (meaningful only where
/// `json_wellformed` holds). The outcome depends on the text alone.
pub uninterp spec fn json_model_of(s: Seq<char>) -> JsonModel;

/// The value under `key` when `m` is an object that has it.
pub open spec fn spec_field(m: JsonModel, key: Seq<char>) -> Option<JsonModel> {
    match m {
        JsonModel::Obj(fields) => if fields.contains_key(key) {
            Some(fields[key])
        } else {
            None
        },
        _ => None,
    }
}

/// The text when `m` is a string.
pub open spec fn spec_str(m: JsonModel) -> Option<Seq<char>> {
    match m {
        JsonModel::Str(t) => Some(t),
        _ => None,
    }
}

/// The elements when `m` is an array.
pub open spec fn spec_arr(m: JsonModel) -> Option<Seq<JsonModel>> {
    match m {
        JsonModel::Arr(elems) => Some(elems),
        _ => None,
    }
}

/// The `i64` reading when `m` is a number that has one.
pub open spec fn spec_num_i64(m: JsonModel) -> Option<i64> {
    match m {
        JsonModel::Num(i, _) => i,
        _ => None,
    }
}

/// The `u64` reading when `m` is a number that has one.
pub open spec fn spec_num_u64(m: JsonModel) -> Option<u64> {
    match m {
        JsonModel::Num(_, u) => u,
        _ => None,
    }
}

/// The text of the string under `key`, when the object has one.
pub open spec fn spec_field_str(m: JsonModel, key: Seq<char>) -> Option<Seq<char>> {
    match spec_field(m, key) {
        Some(f) => spec_str(f),
        None => None,
    }
}

/// The `i64` reading of the number under `key`, when the object has one.
pub open spec fn spec_field_i64(m: JsonModel, key: Seq<char>) -> Option<i64> {
    match spec_field(m, key) {
        Some(f) => spec_num_i64(f),
        None => None,
    }
}

/// The `u64` reading of the number under `key`, when the object has one.
pub open spec fn spec_field_u64(m: JsonModel, key: Seq<char>) -> Option<u64> {
    match spec_field(m, key) {
        Some(f) => spec_num_u64(f),
        None => None,
    }
}

/// Relies on `serde_json::from_str::<Value>`: parses the text into a
/// JSON tree, succeeding exactly on the text the engine accepts, and the
/// tree holds the text's document.
#[verifier::external_body]
pub(crate) fn parse_json(s: &str) -> (r: Result<serde_json::Value, serde_json::Error>)
    ensures
        r is Ok <==> json_wellformed(s@),
        r matches Ok(v) ==> value_model(v) == json_model_of(s@),
{
    serde_json::from_str(s)
}

/// Relies on `serde_json::Error`'s display form for the failure
/// description shown to the user.
#[verifier::external_body]
pub(crate) fn json_error_message(e: &serde_json::Error) -> String {
    format!("{}", e)
}

/// Relies on `serde_json::Value::get`: the value under this key when
/// `v` is an object that has it, `None` otherwise.
#[verifier::external_body]
pub(crate) fn json_get<'a>(v: &'a serde_json::Value, key: &str) -> (r: Option<
    &'a serde_json::Value,
>)
    ensures
        match value_model(*v) {
            JsonModel::Obj(fields) => {
                &&& fields.contains_key(key@) ==> (r matches Some(x) && value_model(*x)
                    == fields[key@])
                &&& !fields.contains_key(key@) ==> r is None
            },
            _ => r is None,
        },
{
    v.get(key)
}

/// Relies on `serde_json::Value::as_array`: the elements, in document
/// order, when `v` is an array, `None` otherwise.
#[verifier::external_body]
pub(crate) fn json_as_array<'a>(v: &'a serde_json::Value) -> (r: Option<
    &'a Vec<serde_json::Value>,
>)
    ensures
        match value_model(*v) {
            JsonModel::Arr(elems) => r matches Some(a) && (a@.len() == elems.len() && forall|
                i: int,
            |
                0 <= i < elems.len() ==> value_model(#[trigger] a@[i]) == elems[i]),
            _ => r is None,
        },
{
    v.as_array()
}

/// Relies on `serde_json::Value::as_str`: the text when `v` is a
/// string, `None` otherwise.
#[verifier::external_body]
pub(crate) fn json_as_str<'a>(v: &'a serde_json::Value) -> (r: Option<&'a str>)
    ensures
        match value_model(*v) {
            JsonModel::Str(t) => r matches Some(s) && s@ == t,
            _ => r is None,
        },
{
    v.as_str()
}

/// Relies on `serde_json::Value::as_i64`: the number when `v` is an
/// integer that fits an `i64`, `None` otherwise (including floats).
#[verifier::external_body]
pub(crate) fn json_as_i64(v: &serde_json::Value) -> (r: Option<i64>)
    ensures
        r == spec_num_i64(value_model(*v)),
{
    v.as_i64()
}

/// Relies on `serde_json::Value::as_u64`: the number when `v` is a
/// non-negative integer that fits a `u64`, `None` otherwise.
#[verifier::external_body]
pub(crate) fn json_as_u64(v: &serde_json::Value) -> (r: Option<u64>)
    ensures
        r == spec_num_u64(value_model(*v)),
{
    v.as_u64()
}

} // verus!
