//! JSON payloads. Parsing is left to `serde_json`; this module says what
//! the pipeline reads from a parsed document and how it reads it.

use vstd::prelude::*;
use crate::model::Decimal;

verus! {

#[verifier::external_type_specification]
#[verifier::external_body]
pub struct ExJsonValue(serde_json::Value);

#[verifier::external_type_specification]
#[verifier::external_body]
#[verifier::reject_recursive_types(K)]
#[verifier::reject_recursive_types(V)]
pub struct ExJsonMap<K, V>(serde_json::Map<K, V>);

#[verifier::external_type_specification]
#[verifier::external_body]
pub struct ExJsonError(serde_json::Error);

/// The two numeric readings of a JSON value: as a 64-bit signed integer and
/// as a decimal number. Each is absent where the value has no such reading.
#[derive(Debug, PartialEq, Eq)]
pub struct FieldReading {
    pub integer: Option<i64>,
    pub decimal: Option<Decimal>,
}

/// What a `FieldReading` says.
pub struct FieldView {
    pub integer: Option<i64>,
    pub decimal: Option<Seq<char>>,
}

impl View for FieldReading {
    type V = FieldView;

    open spec fn view(&self) -> FieldView {
        FieldView {
            integer: self.integer,
            decimal: match self.decimal {
                Some(d) => Some(d@),
                None => None,
            },
        }
    }
}

/// What an optional `FieldReading` says.
pub open spec fn option_view(field: Option<FieldReading>) -> Option<FieldView> {
    match field {
        Some(reading) => Some(reading@),
        None => None,
    }
}

/// The fields of a JSON object: for each key, the numeric readings of its
/// value.
pub uninterp spec fn json_fields(object: serde_json::Map<String, serde_json::Value>) -> Map<
    Seq<char>,
    FieldView,
>;

/// The fields of a JSON value that is an object; `None` for any other value.
pub uninterp spec fn json_object(value: serde_json::Value) -> Option<Map<Seq<char>, FieldView>>;

/// What a text is as JSON: `None` where it is not one well-formed document,
/// else the fields of the document if it is an object.
pub uninterp spec fn json_document(text: Seq<char>) -> Option<Option<Map<Seq<char>, FieldView>>>;

/// The readings under `key`, if the object has that key.
pub open spec fn field_of(fields: Map<Seq<char>, FieldView>, key: Seq<char>) -> Option<FieldView> {
    if fields.dom().contains(key) {
        Some(fields[key])
    } else {
        None
    }
}

/// Calls `serde_json::from_str` for a `serde_json::Value`. The contract
/// claims that the outcome depends on the text alone: an error exactly where
/// the text is no JSON document, else the document.
#[verifier::external_body]
pub(crate) fn parse_value(text: &str) -> (r: Result<serde_json::Value, serde_json::Error>)
    ensures
        match r {
            Ok(value) => json_document(text@) == Some(json_object(value)),
            Err(_) => json_document(text@) is None,
        },
{
    serde_json::from_str::<serde_json::Value>(text)
}

/// Calls `serde_json::Value::as_object`: the map of an object, nothing for
/// any other value.
#[verifier::external_body]
pub(crate) fn value_as_object(value: &serde_json::Value) -> (r: Option<
    &serde_json::Map<String, serde_json::Value>,
>)
    ensures
        match r {
            Some(object) => json_object(*value) == Some(json_fields(*object)),
            None => json_object(*value) is None,
        },
{
    value.as_object()
}

/// Calls `serde_json::Map::contains_key`: whether the object has the key.
#[verifier::external_body]
pub(crate) fn object_contains_key(
    object: &serde_json::Map<String, serde_json::Value>,
    key: &str,
) -> (r: bool)
    ensures
        r == json_fields(*object).dom().contains(key@),
{
    object.contains_key(key)
}

/// Calls `serde_json::Map::get` and reads the value found with
/// `serde_json::Value::as_i64` and `serde_json::Value::as_f64`, the latter
/// written out in decimal notation. Nothing comes back where the key is
/// absent.
#[verifier::external_body]
pub(crate) fn object_reading(
    object: &serde_json::Map<String, serde_json::Value>,
    key: &str,
) -> (r: Option<FieldReading>)
    ensures
        match r {
            Some(reading) => field_of(json_fields(*object), key@) == Some(reading@),
            None => field_of(json_fields(*object), key@) is None,
        },
{
    object.get(key).map(
        |v| FieldReading {
            integer: v.as_i64(),
            decimal: v.as_f64().map(|x| Decimal { text: x.to_string() }),
        },
    )
}

} // verus!
