//! JSON documents as `serde_json` parses them.
//!
//! The parser and the accessors of `serde_json::Value` are called as they
//! are; what they return is described over [`JsonModel`], and none of it is
//! proved here.

use vstd::prelude::*;

verus! {

/// Mathematical content of a JSON document.
pub enum JsonModel {
    Null,
    Bool(bool),
    /// A number, as the bit pattern of its double-precision value.
    Number(u64),
    Text(Seq<char>),
    Array(Seq<JsonModel>),
    Object(Map<Seq<char>, JsonModel>),
}

/// `serde_json::Value`, carried through verified code as an opaque value.
#[verifier::external_type_specification]
#[verifier::external_body]
pub struct ExValue(serde_json::Value);

/// `serde_json::Error`, carried through verified code as an opaque value.
#[verifier::external_type_specification]
#[verifier::external_body]
pub struct ExError(serde_json::Error);

/// What a `serde_json::Value` holds.
pub uninterp spec fn json_model(value: serde_json::Value) -> JsonModel;

/// What `serde_json::from_str` makes of a text: the document it denotes, or
/// `None` where the text is not one complete JSON document.
pub uninterp spec fn parsed_json(text: Seq<char>) -> Option<JsonModel>;

/// Calls `serde_json::from_str` for a `Value`. The parser's result depends on
/// the text alone; it is `Ok` exactly where `parsed_json` is `Some`, and the
/// value then holds that document.
#[verifier::external_body]
pub(crate) fn parse_value(text: &str) -> (r: Result<serde_json::Value, serde_json::Error>)
    ensures
        match r {
            Ok(value) => parsed_json(text@) == Some(json_model(value)),
            Err(_) => parsed_json(text@) is None,
        },
{
    serde_json::from_str::<serde_json::Value>(text)
}

/// Calls `Value::is_object`: true exactly for a JSON object.
#[verifier::external_body]
pub(crate) fn is_object(value: &serde_json::Value) -> (b: bool)
    ensures
        b == (json_model(*value) is Object),
{
    value.is_object()
}

/// Calls `Value::get` with a string key: the member of that name where the
/// value is an object that has one, `None` otherwise.
#[verifier::external_body]
pub(crate) fn member<'a>(value: &'a serde_json::Value, key: &str) -> (r: Option<&'a serde_json::Value>)
    ensures
        r is Some <==> has_member(json_model(*value), key@),
        r matches Some(found) ==> json_model(*found) == json_model(*value)->Object_0[key@],
{
    value.get(key)
}

/// Calls `Value::is_null`: true exactly for JSON `null`.
#[verifier::external_body]
pub(crate) fn is_null(value: &serde_json::Value) -> (b: bool)
    ensures
        b == (json_model(*value) is Null),
{
    value.is_null()
}

/// Calls `Value::as_str`: the text of a JSON string, `None` for any other
/// kind of value.
#[verifier::external_body]
pub(crate) fn as_text<'a>(value: &'a serde_json::Value) -> (r: Option<&'a str>)
    ensures
        r is Some <==> json_model(*value) is Text,
        r matches Some(text) ==> text@ == json_model(*value)->Text_0,
{
    value.as_str()
}

/// Calls `Value::as_f64` and takes the bit pattern of what it returns: the
/// double-precision bits of a JSON number, `None` for any other kind of value.
#[verifier::external_body]
pub(crate) fn number_bits(value: &serde_json::Value) -> (r: Option<u64>)
    ensures
        r is Some <==> json_model(*value) is Number,
        r matches Some(bits) ==> bits == json_model(*value)->Number_0,
{
    value.as_f64().map(|number| number.to_bits())
}

/// Whether a document is an object with a member of the given name.
pub open spec fn has_member(doc: JsonModel, key: Seq<char>) -> bool {
    doc matches JsonModel::Object(members) && members.dom().contains(key)
}

} // verus!
