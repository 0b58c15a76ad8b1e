//! Event payloads: JSON objects whose fields are texts, flags and nulls.

use vstd::prelude::*;

use crate::native::optional_text;

verus! {

/// `serde_json::Map`, the JSON object that an event carries.
#[verifier::external_type_specification]
#[verifier::external_body]
#[verifier::reject_recursive_types(K)]
#[verifier::reject_recursive_types(V)]
pub struct ExternalJsonObject<K, V>(serde_json::Map<K, V>);

/// `serde_json::Value`, a value in a JSON object.
#[verifier::external_type_specification]
#[verifier::external_body]
pub struct ExternalJsonValue(serde_json::Value);

/// The value of a payload's field.
#[derive(Debug, PartialEq)]
pub enum PayloadValue<S> {
    Text(S),
    Flag(bool),
    Null,
}

impl View for PayloadValue<String> {
    type V = PayloadValue<Seq<char>>;

    open spec fn view(&self) -> PayloadValue<Seq<char>> {
        match *self {
            PayloadValue::Text(text) => PayloadValue::Text(text@),
            PayloadValue::Flag(flag) => PayloadValue::Flag(flag),
            PayloadValue::Null => PayloadValue::Null,
        }
    }
}

/// The fields of a payload, by name.
pub uninterp spec fn payload_fields(object: serde_json::Map<String, serde_json::Value>) -> Map<
    Seq<char>,
    PayloadValue<Seq<char>>,
>;

/// `serde_json::Map::new` makes an object without fields.
#[verifier::external_body]
pub(crate) fn empty_payload() -> (object: serde_json::Map<String, serde_json::Value>)
    ensures
        payload_fields(object) == (Map::<Seq<char>, PayloadValue<Seq<char>>>::empty()),
{
    serde_json::Map::new()
}

/// `serde_json::Map::insert` puts a value under a name, in place of any that stood
/// there, and leaves the other fields as they are. A text becomes a JSON string, a flag
/// a JSON boolean.
#[verifier::external_body]
pub(crate) fn set_field(
    object: &mut serde_json::Map<String, serde_json::Value>,
    name: &str,
    value: PayloadValue<String>,
)
    ensures
        payload_fields(*final(object)) == payload_fields(*old(object)).insert(name@, value@),
{
    let value = match value {
        PayloadValue::Text(text) => serde_json::Value::String(text),
        PayloadValue::Flag(flag) => serde_json::Value::Bool(flag),
        PayloadValue::Null => serde_json::Value::Null,
    };
    object.insert(name.to_string(), value);
}

/// The value of a field for an optional text: null where there is none.
pub open spec fn optional_value(text: Option<Seq<char>>) -> PayloadValue<Seq<char>> {
    match text {
        Some(text) => PayloadValue::Text(text),
        None => PayloadValue::Null,
    }
}

pub(crate) fn optional_field(text: &Option<String>) -> (value: PayloadValue<String>)
    ensures
        value@ == optional_value(optional_text(*text)),
{
    match text {
        Some(text) => PayloadValue::Text(text.clone()),
        None => PayloadValue::Null,
    }
}

} // verus!
