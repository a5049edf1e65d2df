//! The compact JSON text of a value, as `serde_json` writes it.

use vstd::prelude::*;
use crate::json::{Json, JsonV};

verus! {

/// What `serde_json::to_string` writes for the `serde_json::Value` a value
/// converts to: no white space, strings escaped, and an object's members in
/// the order of `serde_json`'s map.
pub uninterp spec fn json_text(v: JsonV) -> Seq<char>;

/// A library value as a `serde_json` value, member for member; a number is
/// read from its text, and one `serde_json` cannot read becomes `null`.
#[verifier::external_body]
pub(crate) fn value_of_json(v: &Json) -> serde_json::Value {
    match v {
        Json::Null => serde_json::Value::Null,
        Json::Bool(b) => serde_json::Value::Bool(*b),
        Json::Number(n) => n.parse::<serde_json::Number>().map(serde_json::Value::Number).unwrap_or(serde_json::Value::Null),
        Json::String(s) => serde_json::Value::String(s.clone()),
        Json::Array(a) => serde_json::Value::Array(a.iter().map(value_of_json).collect()),
        Json::Object(o) => serde_json::Value::Object(o.iter().map(|(k, x)| (k.clone(), value_of_json(x))).collect()),
    }
}

/// `serde_json::to_string` of a value; the result is named `json_text`.
/// Writing a `serde_json::Value` does not fail (its map keys are strings).
#[verifier::external_body]
fn serde_json_text(v: &Json) -> (s: String)
    ensures
        s@ == json_text(v@),
{
    serde_json::to_string(&value_of_json(v)).unwrap_or_default()
}

/// The compact JSON text of a value, as `serde_json` writes it.
pub fn to_json_text(v: &Json) -> (s: String)
    ensures
        s@ == json_text(v@),
{
    serde_json_text(v)
}

} // verus!
