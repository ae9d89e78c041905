//! The one point where the simulation draws randomness: picking a food cell.

use vstd::prelude::*;

verus! {

/// Relies on rand's `Rng::gen_range` over the thread-local generator: on the
/// range `0..n` it panics only when the range is empty and otherwise returns
/// a value drawn from inside the range, so below `n`. Nothing is assumed
/// about which value comes back.
#[verifier::external_body]
pub(crate) fn random_below(n: u32) -> (r: u32)
    requires
        n > 0,
    ensures
        r < n,
{
    rand::Rng::gen_range(&mut rand::thread_rng(), 0..n)
}

} // verus!
