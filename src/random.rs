use rand::Rng;
use vstd::prelude::*;

verus! {

/// Relies on `rand::rng()` and `rand::Rng::random_range` over `lo..=hi`: the value
/// drawn lies in the range; `random_range` panics on an empty range, which
/// `lo <= hi` rules out.
#[verifier::external_body]
pub(crate) fn random_inclusive(lo: usize, hi: usize) -> (r: usize)
    requires
        lo <= hi,
    ensures
        lo <= r <= hi,
{
    rand::rng().random_range(lo..=hi)
}

} // verus!
