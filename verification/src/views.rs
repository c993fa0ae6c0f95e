//! Views of the containers that hold the library's values.

use vstd::prelude::*;

verus! {

/// The views of `items`, one for one.
pub open spec fn views<T: View>(items: Seq<T>) -> Seq<T::V> {
    Seq::new(items.len(), |i: int| items[i]@)
}

/// The view of what `item` holds, where it holds something.
pub open spec fn opt_view<T: View>(item: Option<T>) -> Option<T::V> {
    match item {
        Some(value) => Some(value@),
        None => None,
    }
}

/// The view of what `outcome` holds, on either side.
pub open spec fn result_view<T: View, E: View>(outcome: Result<T, E>) -> Result<T::V, E::V> {
    match outcome {
        Ok(value) => Ok(value@),
        Err(error) => Err(error@),
    }
}

/// The views of the items that `items` holds, one for one.
pub open spec fn opt_views<T: View>(items: Seq<Option<T>>) -> Seq<Option<T::V>> {
    Seq::new(items.len(), |i: int| opt_view(items[i]))
}

/// What `outcome` failed with, where it failed.
pub open spec fn failure<T, E>(outcome: Result<T, E>) -> Option<E> {
    match outcome {
        Ok(_) => None,
        Err(error) => Some(error),
    }
}

} // verus!
