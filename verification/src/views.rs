//! Models of optional values.

use vstd::prelude::*;

verus! {

/// The model of an optional value: the model of what it holds, if anything.
pub open spec fn opt_view<T: View>(o: Option<T>) -> Option<T::V> {
    match o {
        Some(x) => Some(x@),
        None => None,
    }
}

/// The model of an optional change to an optional value.
pub open spec fn opt_opt_view<T: View>(o: Option<Option<T>>) -> Option<Option<T::V>> {
    match o {
        Some(x) => Some(opt_view(x)),
        None => None,
    }
}

/// The model of an optional list of records.
pub open spec fn opt_deep_view<T: DeepView>(o: Option<Vec<T>>) -> Option<Seq<T::V>> {
    match o {
        Some(v) => Some(v.deep_view()),
        None => None,
    }
}

/// The first of two optional values that is present.
pub open spec fn or_else<T>(first: Option<T>, second: Option<T>) -> Option<T> {
    if first.is_some() {
        first
    } else {
        second
    }
}

/// A copy of an optional text.
pub fn clone_opt_text(value: &Option<String>) -> (res: Option<String>)
    ensures
        opt_view(res) == opt_view(*value),
{
    match value {
        Some(text) => Some(text.clone()),
        None => None,
    }
}

/// A copy of an optional change to an optional text.
pub fn clone_opt_opt_text(value: &Option<Option<String>>) -> (res: Option<Option<String>>)
    ensures
        opt_opt_view(res) == opt_opt_view(*value),
{
    match value {
        Some(inner) => Some(clone_opt_text(inner)),
        None => None,
    }
}

} // verus!
