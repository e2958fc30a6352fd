//! Views of results: what a `Result` holds, seen through the views of its parts.

use vstd::prelude::*;

verus! {

/// A result with its value seen through its view, the error kept as it is.
pub open spec fn ok_view<T: DeepView, E>(result: Result<T, E>) -> Result<T::V, E> {
    match result {
        Ok(value) => Ok(value.deep_view()),
        Err(error) => Err(error),
    }
}

/// A result with both its value and its error seen through their views.
pub open spec fn result_view<T: DeepView, E: DeepView>(result: Result<T, E>) -> Result<T::V, E::V> {
    match result {
        Ok(value) => Ok(value.deep_view()),
        Err(error) => Err(error.deep_view()),
    }
}

} // verus!
