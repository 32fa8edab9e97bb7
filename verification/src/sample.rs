//! The library's one source of randomness.

use vstd::prelude::*;

verus! {

/// Relies on `rand::random_range`: a uniform draw from the half-open range
/// `lo..hi` on the thread-local generator. It panics only on an empty
/// range, which the precondition rules out; nothing more than the range of
/// the result can be promised of a random draw.
#[verifier::external_body]
pub(crate) fn sample_uniform(lo: i64, hi: i64) -> (r: i64)
    requires
        lo < hi,
    ensures
        lo <= r < hi,
{
    rand::random_range(lo..hi)
}

} // verus!
