//! Views of the options and results that the functions of the crate return.

use vstd::prelude::*;

verus! {

/// The view of what an option holds.
pub open spec fn option_view<T: View>(value: Option<T>) -> Option<T::V> {
    match value {
        Some(inner) => Some(inner@),
        None => None,
    }
}

/// The view of what a result holds, on either side.
pub open spec fn result_view<T: View, E: View>(value: Result<T, E>) -> Result<T::V, E::V> {
    match value {
        Ok(inner) => Ok(inner@),
        Err(error) => Err(error@),
    }
}

/// The view of what a result with an optional value holds.
pub open spec fn optional_result_view<T: View, E: View>(value: Result<Option<T>, E>) -> Result<
    Option<T::V>,
    E::V,
> {
    match value {
        Ok(inner) => Ok(option_view(inner)),
        Err(error) => Err(error@),
    }
}

} // verus!
