//! JSON numbers and values from serde_json, and the canonical text encoding
//! of the generic value.

use crate::value::GenericValue;
use vstd::prelude::*;

verus! {

#[verifier::external_type_specification]
#[verifier::external_body]
pub struct ExNumber(serde_json::Number);

/// Relies on the `Clone` that serde_json derives for `Number`: a field-wise copy.
pub assume_specification[ <serde_json::Number as Clone>::clone ](n: &serde_json::Number) -> (r:
    serde_json::Number)
    ensures
        r == *n,
;

#[verifier::external_type_specification]
#[verifier::external_body]
pub struct ExJsonValue(serde_json::Value);

/// What a generic value holds, as mathematical values: the JSON value it
/// stands for.
pub enum JsonModel {
    Str(Seq<char>),
    Int(int),
    Float(serde_json::Number),
    Bool(bool),
    Array(Seq<JsonModel>),
    Object(Seq<(Seq<char>, JsonModel)>),
    Null,
}

impl GenericValue {
    /// The JSON value that this generic value stands for.
    pub open spec fn json_model(self) -> JsonModel
        decreases self,
    {
        match self {
            GenericValue::Str(s) => JsonModel::Str(s@),
            GenericValue::Int(i) => JsonModel::Int(i as int),
            GenericValue::Float(n) => JsonModel::Float(n),
            GenericValue::Bool(b) => JsonModel::Bool(b),
            GenericValue::Array(items) => JsonModel::Array(
                Seq::new(
                    items@.len(),
                    |i: int|
                        if 0 <= i < items@.len() {
                            items@[i].json_model()
                        } else {
                            JsonModel::Null
                        },
                ),
            ),
            GenericValue::Object(entries) => JsonModel::Object(
                Seq::new(
                    entries@.len(),
                    |i: int|
                        if 0 <= i < entries@.len() {
                            (entries@[i].0@, entries@[i].1.json_model())
                        } else {
                            (Seq::empty(), JsonModel::Null)
                        },
                ),
            ),
            GenericValue::Null => JsonModel::Null,
        }
    }
}

/// The compact JSON text that serde_json writes for a JSON value.
pub uninterp spec fn json_encoding(m: JsonModel) -> Seq<char>;

/// Builds the serde_json value of a generic value, one for one: relies on the
/// variants of serde_json::Value, on `From<i64>` for serde_json::Number, and
/// on serde_json::Map collecting key-value pairs.
#[verifier::external_body]
fn json_of(v: &GenericValue) -> serde_json::Value {
    match v {
        GenericValue::Str(s) => serde_json::Value::String(s.clone()),
        GenericValue::Int(i) => serde_json::Value::Number((*i).into()),
        GenericValue::Float(x) => serde_json::Value::Number(x.clone()),
        GenericValue::Bool(b) => serde_json::Value::Bool(*b),
        GenericValue::Array(a) => serde_json::Value::Array(a.iter().map(json_of).collect()),
        GenericValue::Object(o) => serde_json::Value::Object(o.iter().map(|(k, x)| (k.clone(), json_of(x))).collect()),
        GenericValue::Null => serde_json::Value::Null,
    }
}

/// Relies on the `Display` of serde_json::Value: its compact JSON text, which
/// depends on the value alone and cannot fail for a value whose keys are strings.
#[verifier::external_body]
fn json_text(v: &GenericValue) -> (r: String)
    ensures
        r@ == json_encoding(v.json_model()),
{
    json_of(v).to_string()
}

/// The canonical text encoding of a generic value: compact JSON.
pub fn encode(v: &GenericValue) -> (r: String)
    ensures
        r@ == json_encoding(v.json_model()),
{
    json_text(v)
}

} // verus!
