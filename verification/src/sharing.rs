//! Shared ownership of the keys' state.

use std::sync::Arc;

use vstd::prelude::*;

verus! {

/// Calls std's `Arc::clone`, which hands out another pointer to the same
/// allocation; the contract claims that the result holds the same value.
#[verifier::external_body]
pub(crate) fn arc_clone<T>(shared: &Arc<T>) -> (copy: Arc<T>)
    ensures
        copy == *shared,
{
    Arc::clone(shared)
}

} // verus!
