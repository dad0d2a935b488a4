//! The one randomness primitive the library draws on.

use vstd::prelude::*;

verus! {

/// Relies on `rand::random_range`: a uniformly random integer in `lo..hi`,
/// from the thread-local generator. The call panics on an empty range, so
/// one is ruled out; of the value, only its bounds can be promised.
#[verifier::external_body]
pub(crate) fn random_in_range(lo: u64, hi: u64) -> (r: u64)
    requires
        lo < hi,
    ensures
        lo <= r < hi,
{
    rand::random_range(lo..hi)
}

} // verus!
