//! The GraphQL surface of the service.

use vstd::prelude::*;

verus! {

/// The service's mutations.
pub struct MutationRoot;

impl MutationRoot {
    /// The reply to `mutateCount`: whether the repository applied the
    /// mutation. A failed mutation is reported as `false`, not as an error.
    pub fn mutate_count<E>(&self, outcome: &Result<(), E>) -> (r: bool)
        ensures
            r == outcome is Ok,
    {
        outcome.is_ok()
    }
}

} // verus!
