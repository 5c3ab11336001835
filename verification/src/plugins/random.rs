//! Random choices, through the `rand` crate.
use vstd::prelude::*;

verus! {

/// Calls `rand::random::<bool>()`. The outcome is chance: nothing is stated of it.
#[verifier::external_body]
pub(crate) fn random_bool() -> (r: bool) {
    rand::random::<bool>()
}

/// Calls `rand::random_range(lo..=hi)`, which panics on an empty range and
/// otherwise yields a value inside the range. Which value is chance.
#[verifier::external_body]
pub(crate) fn random_in_range(lo: i64, hi: i64) -> (r: i64)
    requires
        lo <= hi,
    ensures
        lo <= r <= hi,
{
    rand::random_range(lo..=hi)
}

} // verus!
