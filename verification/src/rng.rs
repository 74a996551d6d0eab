//! The library's only source of randomness: thin trusted wrappers over the
//! `rand` crate's thread-local generator.  Every caller is verified against
//! what holds of every possible outcome.

use vstd::prelude::*;

verus! {

/// Relies on `rand::random_range` over the inclusive range `lo..=hi`: the
/// sampled value lies in the range.  The call panics on an empty range, so
/// one is excluded here.
#[verifier::external_body]
pub(crate) fn random_in_range(lo: i64, hi: i64) -> (r: i64)
    requires
        lo <= hi,
    ensures
        lo <= r <= hi,
{
    rand::random_range(lo..=hi)
}

/// Relies on `rand::random::<bool>`: a coin flip.  Nothing is promised of
/// the outcome; callers must be correct whichever way it falls.
#[verifier::external_body]
pub(crate) fn random_flip() -> bool {
    rand::random::<bool>()
}

} // verus!
