//! The crate's single source of randomness: a uniform draw from a half-open
//! integer range, used for obstacle dimensions and spawn delays.

use rand::Rng;
use vstd::prelude::*;

verus! {

/// Relies on rand's `Rng::gen_range` over the half-open range `lo..hi`: it
/// returns a uniformly distributed value in `[lo, hi)` and panics only when
/// the range is empty. Nothing more than the bounds can be promised of a
/// random draw.
#[verifier::external_body]
pub(crate) fn rand_in_range(lo: i64, hi: i64) -> (r: i64)
    requires
        lo < hi,
    ensures
        lo <= r < hi,
{
    rand::thread_rng().gen_range(lo..hi)
}

} // verus!
