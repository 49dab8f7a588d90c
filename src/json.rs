//! A mathematical model of a `serde_json::Value`, and the few calls into
//! serde_json that decoding an answer makes.
use vstd::prelude::*;

verus! {

#[verifier::external_type_specification]
#[verifier::external_body]
pub struct ExValue(serde_json::Value);

#[verifier::external_type_specification]
#[verifier::external_body]
pub struct ExJsonError(serde_json::Error);

/// A JSON document as a mathematical value. Numbers are not read by this
/// library and carry nothing.
pub enum JsonModel {
    Null,
    Bool(bool),
    Number,
    Str(Seq<char>),
    Array(Seq<JsonModel>),
    Object(Map<Seq<char>, JsonModel>),
}

/// What a `serde_json::Value` holds.
pub uninterp spec fn json_model(v: serde_json::Value) -> JsonModel;

/// The document that serde_json reads from a text, if it accepts the text
/// (JSON within its nesting limit).
pub uninterp spec fn json_parse(s: Seq<char>) -> Option<JsonModel>;

/// The member `key` of an object.
pub open spec fn field(j: JsonModel, key: Seq<char>) -> Option<JsonModel> {
    match j {
        JsonModel::Object(m) => if m.contains_key(key) {
            Some(m[key])
        } else {
            None
        },
        _ => None,
    }
}

/// The element at `i` of an array.
pub open spec fn item(j: JsonModel, i: int) -> Option<JsonModel> {
    match j {
        JsonModel::Array(s) => if 0 <= i < s.len() {
            Some(s[i])
        } else {
            None
        },
        _ => None,
    }
}

/// The characters of a JSON string.
pub open spec fn text_of(j: JsonModel) -> Option<Seq<char>> {
    match j {
        JsonModel::Str(s) => Some(s),
        _ => None,
    }
}

pub open spec fn opt_model(r: Option<&serde_json::Value>) -> Option<JsonModel> {
    match r {
        Some(v) => Some(json_model(*v)),
        None => None,
    }
}

/// Relies on `serde_json::from_str::<Value>`: its outcome depends on the text
/// alone; on success it gives the document that the text holds.
#[verifier::external_body]
pub(crate) fn parse_json(s: &str) -> (r: Result<serde_json::Value, serde_json::Error>)
    ensures
        r is Ok <==> json_parse(s@) is Some,
        r is Ok ==> json_parse(s@) == Some(json_model(r->Ok_0)),
{
    serde_json::from_str::<serde_json::Value>(s)
}

/// Relies on `Value::get` with a `&str` index: the member of an object,
/// `None` for a missing key or a value that is not an object.
#[verifier::external_body]
pub(crate) fn json_field<'a>(v: &'a serde_json::Value, key: &str) -> (r: Option<&'a serde_json::Value>)
    ensures
        opt_model(r) == field(json_model(*v), key@),
{
    v.get(key)
}

/// Relies on `Value::get` with a `usize` index: the element of an array,
/// `None` out of bounds or for a value that is not an array.
#[verifier::external_body]
pub(crate) fn json_item<'a>(v: &'a serde_json::Value, i: usize) -> (r: Option<&'a serde_json::Value>)
    ensures
        opt_model(r) == item(json_model(*v), i as int),
{
    v.get(i)
}

/// Relies on `Value::as_str`: the characters of a string value, `None` for
/// any other value.
#[verifier::external_body]
pub(crate) fn json_text<'a>(v: &'a serde_json::Value) -> (r: Option<&'a str>)
    ensures
        r is Some <==> text_of(json_model(*v)) is Some,
        r is Some ==> text_of(json_model(*v)) == Some(r->Some_0@),
{
    v.as_str()
}

/// Relies on `Value::as_array`: the elements of an array value, `None` for
/// any other value.
#[verifier::external_body]
pub(crate) fn json_array<'a>(v: &'a serde_json::Value) -> (r: Option<&'a Vec<serde_json::Value>>)
    ensures
        r is Some <==> json_model(*v) is Array,
        r is Some ==> {
            let s = json_model(*v)->Array_0;
            &&& r->Some_0@.len() == s.len()
            &&& forall|i: int| 0 <= i < s.len() ==> json_model(#[trigger] r->Some_0@[i]) == s[i]
        },
{
    v.as_array()
}

} // verus!
