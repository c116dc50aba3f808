//! Trusted boundary to the `serde_json` crate, together with the model the
//! rest of the crate reasons over. A document held by a `serde_json::Value`
//! is modelled as the spec-level tree [`Json`]; [`value_model`] names that
//! tree and [`parsed_doc`] names what parsing a text yields. Each wrapper's
//! contract ties the accessor's result to the model, so the decoders above
//! this boundary carry exact contracts. Everything below the model is read
//! from the crate's source; everything above it is verified.

use vstd::prelude::*;

verus! {

/// The model of a JSON document: a number is modelled by what it yields
/// when read as a signed or an unsigned integer (both empty for a number
/// that is neither, such as a fraction).
pub enum Json {
    Null,
    Bool(bool),
    Num(Option<i64>, Option<u64>),
    Text(Seq<char>),
    Arr(Seq<Json>),
    Obj(Map<Seq<char>, Json>),
}

/// The member `k` of `j`: present only when `j` is an object that has it.
pub open spec fn member(j: Json, k: Seq<char>) -> Option<Json> {
    match j {
        Json::Obj(m) => if m.contains_key(k) {
            Some(m[k])
        } else {
            None
        },
        _ => None,
    }
}

/// The document a `serde_json::Value` holds.
pub uninterp spec fn value_model(v: serde_json::Value) -> Json;

/// What parsing a text as one JSON document yields: the document's model,
/// or nothing when the text is not one well-formed document (or overruns
/// the parser's nesting limit).
pub uninterp spec fn parsed_doc(s: Seq<char>) -> Option<Json>;

#[verifier::external_type_specification]
#[verifier::external_body]
pub struct ExValue(serde_json::Value);

/// Relies on `serde_json::from_str::<Value>`: `Some` exactly when `s` is one
/// complete, well-formed JSON document, and then the parsed document.
#[verifier::external_body]
pub(crate) fn parse_json(s: &str) -> (r: Option<serde_json::Value>)
    ensures
        match r {
            Some(v) => parsed_doc(s@) == Some(value_model(v)),
            None => parsed_doc(s@) is None,
        },
{
    serde_json::from_str(s).ok()
}

/// Relies on `serde_json::Value::get`: looks the member `key` up when `v` is
/// a JSON object; `None` when `v` is no object or has no such member.
#[verifier::external_body]
pub(crate) fn obj_get<'a>(v: &'a serde_json::Value, key: &str) -> (r: Option<
    &'a serde_json::Value,
>)
    ensures
        match r {
            Some(x) => member(value_model(*v), key@) == Some(value_model(*x)),
            None => member(value_model(*v), key@) is None,
        },
{
    v.get(key)
}

/// Relies on `serde_json::Value::as_str`: the content when `v` is a JSON
/// string, `None` otherwise.
#[verifier::external_body]
pub(crate) fn value_as_str<'a>(v: &'a serde_json::Value) -> (r: Option<&'a str>)
    ensures
        match value_model(*v) {
            Json::Text(t) => r matches Some(s) && s@ == t,
            _ => r is None,
        },
{
    v.as_str()
}

/// Relies on `serde_json::Value::as_i64`: the value when `v` is an integer
/// representable as `i64`, `None` otherwise.
#[verifier::external_body]
pub(crate) fn value_as_i64(v: &serde_json::Value) -> (r: Option<i64>)
    ensures
        match value_model(*v) {
            Json::Num(i, _) => r == i,
            _ => r is None,
        },
{
    v.as_i64()
}

/// Relies on `serde_json::Value::as_u64`: the value when `v` is an integer
/// representable as `u64`, `None` otherwise.
#[verifier::external_body]
pub(crate) fn value_as_u64(v: &serde_json::Value) -> (r: Option<u64>)
    ensures
        match value_model(*v) {
            Json::Num(_, u) => r == u,
            _ => r is None,
        },
{
    v.as_u64()
}

/// Relies on `serde_json::Value::as_array`: the elements, in order, when `v`
/// is a JSON array, `None` otherwise.
#[verifier::external_body]
pub(crate) fn value_as_array<'a>(v: &'a serde_json::Value) -> (r: Option<
    &'a Vec<serde_json::Value>,
>)
    ensures
        match value_model(*v) {
            Json::Arr(elems) => r matches Some(a) && a@.len() == elems.len() && (forall|i: int|
                0 <= i < elems.len() ==> value_model(#[trigger] a@[i]) == elems[i]),
            _ => r is None,
        },
{
    v.as_array()
}

/// Relies on `serde_json::Value::is_null`: whether `v` is JSON `null`.
#[verifier::external_body]
pub(crate) fn value_is_null(v: &serde_json::Value) -> (r: bool)
    ensures
        r == (value_model(*v) is Null),
{
    v.is_null()
}

/// Relies on `serde_json::Value::clone` (derived): an owned copy equal to
/// `v`.
#[verifier::external_body]
pub(crate) fn clone_value(v: &serde_json::Value) -> (r: serde_json::Value)
    ensures
        r == *v,
{
    v.clone()
}

} // verus!
