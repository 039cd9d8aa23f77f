//! The library's single source of randomness: a uniform draw from a
//! half-open integer range, used to pick enemies and to redraw the
//! wild-encounter threshold.

use vstd::prelude::*;

use rand::Rng;

verus! {

/// Relies on `rand::Rng::gen_range` over a `u32` range: it panics only
/// on an empty range, which the precondition rules out, and otherwise
/// returns a value of the half-open range `lo..hi`.
#[verifier::external_body]
pub(crate) fn rand_in_range(lo: u32, hi: u32) -> (r: u32)
    requires
        lo < hi,
    ensures
        lo <= r < hi,
{
    rand::thread_rng().gen_range(lo..hi)
}

} // verus!
