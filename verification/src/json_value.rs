//! Parsed JSON trees as plain values.
//!
//! Inbound state broadcasts are JSON text. Parsing is the `serde_json`
//! crate's business; what it returns for a given text is named by
//! [`json_of`], and the one trusted wrapper below hands the parsed tree
//! over as a [`JsonModel`] — a library type of plain values. Everything
//! downstream — which fields are required, what counts as malformed,
//! what the resulting snapshot looks like — is verified code in the
//! snapshot module, specified exactly over the named tree.

use vstd::prelude::*;

verus! {

/// A JSON value as plain data. Numbers keep the distinctions the
/// decoder needs: a non-negative integer, a negative integer, or — for
/// any other number — the JSON text it was written as.
pub enum JsonModel {
    Null,
    Bool(bool),
    UInt(u64),
    Int(i64),
    NumText(String),
    Text(String),
    Arr(Vec<JsonModel>),
    Obj(Vec<(String, JsonModel)>),
}

/// The tree that `serde_json` parses this text to, or nothing when the
/// text is not valid JSON. Parsing is a function of the text alone.
pub uninterp spec fn json_of(s: Seq<char>) -> Option<JsonModel>;

#[verifier::external_type_specification]
#[verifier::external_body]
pub struct ExValue(serde_json::Value);

/// Relies on `serde_json::from_str::<Value>`: whether the text parses,
/// and the tree it parses to, depend on the text alone; `from_str`
/// returns an error (it does not panic) on malformed input. The tree is
/// handed over through [`value_model`].
#[verifier::external_body]
pub(crate) fn parse_json_model(s: &str) -> (r: Option<JsonModel>)
    ensures
        r == json_of(s@),
{
    serde_json::from_str::<serde_json::Value>(s).ok().map(|v| value_model(&v))
}

/// The recursive step of [`parse_json_model`]: carries each
/// `serde_json::Value` variant over to its [`JsonModel`] counterpart,
/// one arm per variant, moving the fields. Relies on
/// `serde_json::Number::as_u64`/`as_i64` (exact integer probes) and on
/// the `Display` rendering of a number being its JSON text.
#[verifier::external_body]
fn value_model(v: &serde_json::Value) -> JsonModel {
    match v {
        serde_json::Value::Null => JsonModel::Null,
        serde_json::Value::Bool(b) => JsonModel::Bool(*b),
        serde_json::Value::Number(n) => match (n.as_u64(), n.as_i64()) {
            (Some(u), _) => JsonModel::UInt(u),
            (_, Some(i)) => JsonModel::Int(i),
            _ => JsonModel::NumText(n.to_string()),
        },
        serde_json::Value::String(s) => JsonModel::Text(s.clone()),
        serde_json::Value::Array(a) => JsonModel::Arr(a.iter().map(value_model).collect()),
        serde_json::Value::Object(m) => JsonModel::Obj(
            m.iter().map(|(k, x)| (k.clone(), value_model(x))).collect(),
        ),
    }
}

} // verus!
