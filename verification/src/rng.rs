//! The one place the crate reaches outside itself: drawing a random number.

use vstd::prelude::*;

verus! {

/// Relies on `rand::Rng::gen_range` on a `RangeInclusive<u64>` from
/// `rand::thread_rng`: the draw is uniform over `lo..=hi` and always lies
/// within those bounds. `gen_range` panics on an empty range, hence the
/// requirement `lo <= hi`. Nothing more is claimed: the value depends on the
/// thread-local generator, so two calls on the same bounds may differ.
#[verifier::external_body]
pub(crate) fn draw_uniform(lo: u64, hi: u64) -> (r: u64)
    requires
        lo <= hi,
    ensures
        lo <= r <= hi,
{
    let mut rng = rand::thread_rng();
    rand::Rng::gen_range(&mut rng, lo..=hi)
}

} // verus!
