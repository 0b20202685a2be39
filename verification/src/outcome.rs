//! Results seen through the views of what they hold.

use vstd::prelude::*;

verus! {

/// What `result` stands for: the view of its value, or the view of its error.
pub open spec fn viewed<T: View, E: View>(result: Result<T, E>) -> Result<T::V, E::V> {
    match result {
        Ok(value) => Ok(value@),
        Err(error) => Err(error@),
    }
}

} // verus!
