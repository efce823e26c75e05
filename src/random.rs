//! Random draws, from the thread-local generator of `rand`.
use vstd::prelude::*;

verus! {

/// Relies on rand::Rng::gen_range (rand 0.8) on rand::thread_rng: a value
/// drawn from `lo..hi`. It panics on an empty range, which `requires` rules
/// out.
#[verifier::external_body]
pub(crate) fn random_in(lo: i64, hi: i64) -> (r: i64)
    requires
        lo < hi,
    ensures
        lo <= r < hi,
{
    rand::Rng::gen_range(&mut rand::thread_rng(), lo..hi)
}

} // verus!
