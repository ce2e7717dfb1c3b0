//! Ordering of published runtime state.

use vstd::prelude::*;

verus! {

/// Accepts `candidate` only when it advances past the last published
/// revision, and records it when it does. Out-of-order events are ignored.
pub fn advance_revision(published_revision: &mut u32, candidate: u32) -> (advanced: bool)
    ensures
        advanced == (candidate > *old(published_revision)),
        *final(published_revision) == if advanced {
            candidate
        } else {
            *old(published_revision)
        },
{
    if candidate <= *published_revision {
        return false;
    }
    *published_revision = candidate;
    true
}

} // verus!
