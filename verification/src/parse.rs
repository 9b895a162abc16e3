//! The one trusted boundary of the library: turning manifest text into the
//! library's tree goes through serde_json's parser.

use vstd::prelude::*;
use crate::tree::TreeValue;

verus! {

/// Declares serde_json's value type, so that the converter below can take it.
#[verifier::external_type_specification]
#[verifier::external_body]
pub struct ExValue(serde_json::Value);

/// The tree that JSON text parses to, if it parses at all: what serde_json's
/// parser returns, carried over into the library's tree shape. A function of
/// the text alone — serde_json parses deterministically, and its object maps
/// iterate in one fixed order (insertion order under this build's feature
/// set, which enables preserve_order).
pub uninterp spec fn json_tree(text: Seq<char>) -> Option<TreeValue>;

/// Converts a parsed serde_json value into the library's tree, variant for
/// variant. Numeric values are carried as the bare number marker (no
/// extractor reads them); object entries keep serde_json's iteration order.
#[verifier::external_body]
fn tree_of_value(v: &serde_json::Value) -> TreeValue {
    match v {
        serde_json::Value::Null => TreeValue::Null,
        serde_json::Value::Bool(b) => TreeValue::Bool(*b),
        serde_json::Value::Number(_) => TreeValue::Number,
        serde_json::Value::String(s) => TreeValue::Text(s.clone()),
        serde_json::Value::Array(items) => TreeValue::Array(
            items.iter().map(tree_of_value).collect(),
        ),
        serde_json::Value::Object(entries) => TreeValue::Object(
            entries.iter().map(|(k, val)| (k.clone(), tree_of_value(val))).collect(),
        ),
    }
}

/// Relies on serde_json::from_str: parses JSON text, returning a value on
/// well-formed input and an error otherwise; `json_tree` names the outcome.
#[verifier::external_body]
pub(crate) fn parse_json(text: &str) -> (r: Option<TreeValue>)
    ensures
        r == json_tree(text@),
{
    match serde_json::from_str::<serde_json::Value>(text) {
        Ok(v) => Some(tree_of_value(&v)),
        Err(_) => None,
    }
}

} // verus!
