use vstd::prelude::*;
use rand::Rng;

verus! {

/// Relies on `rand::thread_rng` and `rand::Rng::gen_range`: the call draws a
/// uniformly distributed value from the inclusive range `lo..=hi`.  Nothing
/// more than the range can be promised of a random draw.  `gen_range` panics
/// on an empty range, which the precondition excludes.
#[verifier::external_body]
pub(crate) fn random_in(lo: u8, hi: u8) -> (r: u8)
    requires
        lo <= hi,
    ensures
        lo <= r <= hi,
{
    let mut rng = rand::thread_rng();
    rng.gen_range(lo..=hi)
}

} // verus!
