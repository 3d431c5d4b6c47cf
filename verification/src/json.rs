//! JSON documents that the pipeline carries without looking inside.

use vstd::prelude::*;
use crate::views::opt_view;

verus! {

/// `serde_json::Value`, known to the verifier as an opaque value.
#[verifier::external_type_specification]
#[verifier::external_body]
pub struct ExJsonValue(serde_json::Value);

/// Calls `serde_json::Value::clone`: the copy is the same document.
#[verifier::external_body]
pub(crate) fn clone_value(value: &serde_json::Value) -> (res: serde_json::Value)
    ensures
        res == *value,
{
    value.clone()
}

/// A copy of an optional document.
pub fn clone_opt_value(value: &Option<serde_json::Value>) -> (res: Option<serde_json::Value>)
    ensures
        res == *value,
{
    match value {
        Some(v) => Some(clone_value(v)),
        None => None,
    }
}

/// A copy of a list of documents.
pub fn clone_values(values: &Vec<serde_json::Value>) -> (res: Vec<serde_json::Value>)
    ensures
        res@ == values@,
{
    let mut out: Vec<serde_json::Value> = Vec::new();
    let mut i: usize = 0;
    while i < values.len()
        invariant
            i <= values.len(),
            out@ == values@.subrange(0, i as int),
        decreases values.len() - i,
    {
        out.push(clone_value(&values[i]));
        proof {
            assert(values@.subrange(0, i + 1) =~= values@.subrange(0, i as int).push(
                values@[i as int],
            ));
        }
        i = i + 1;
    }
    proof {
        assert(values@.subrange(0, i as int) =~= values@);
    }
    out
}

/// A copy of an optional list of documents.
pub fn clone_opt_values(values: &Option<Vec<serde_json::Value>>) -> (res: Option<
    Vec<serde_json::Value>,
>)
    ensures
        opt_view(res) == opt_view(*values),
{
    match values {
        Some(v) => Some(clone_values(v)),
        None => None,
    }
}

} // verus!
