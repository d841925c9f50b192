//! A JSON value as the library reads it, and the one place where text is
//! parsed into it.

use vstd::prelude::*;

verus! {

/// One JSON value. Object members keep the order in which the parser hands
/// them over; a number keeps its text.
pub enum Json {
    Null,
    Bool(bool),
    Number(String),
    Str(String),
    Array(Vec<Json>),
    Object(Vec<(String, Json)>),
}

/// The value that serde_json reads from a text, or `None` where serde_json
/// refuses the text: not one JSON value, or nested deeper than its limit.
pub uninterp spec fn json_parse(text: Seq<char>) -> Option<Json>;

#[verifier::external_type_specification]
#[verifier::external_body]
pub struct ExJsonValue(serde_json::Value);

/// Relies on serde_json's `Value` enum: copies a parsed value into `Json`,
/// variant by variant, members in the order that `Value`'s map yields them.
#[verifier::external_body]
fn json_from_value(v: serde_json::Value) -> Json {
    match v {
        serde_json::Value::Null => Json::Null,
        serde_json::Value::Bool(b) => Json::Bool(b),
        serde_json::Value::Number(n) => Json::Number(n.to_string()),
        serde_json::Value::String(s) => Json::Str(s),
        serde_json::Value::Array(a) => Json::Array(a.into_iter().map(json_from_value).collect()),
        serde_json::Value::Object(m) => Json::Object(
            m.into_iter().map(|(k, x)| (k, json_from_value(x))).collect(),
        ),
    }
}

/// Relies on serde_json::from_str into `serde_json::Value`: whether it
/// succeeds, and the value it reads, depend on the text alone. The error carries serde_json's own description.
#[verifier::external_body]
pub(crate) fn parse_json(text: &str) -> (r: Result<Json, String>)
    ensures
        r is Ok <==> json_parse(text@) is Some,
        r matches Ok(j) ==> json_parse(text@) == Some(j),
{
    match serde_json::from_str::<serde_json::Value>(text) {
        Ok(v) => Ok(json_from_value(v)),
        Err(e) => Err(e.to_string()),
    }
}

} // verus!
