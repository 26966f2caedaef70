//! The two sources of randomness a round draws on. Nothing is assumed of
//! which value comes back, only of its range.

use vstd::prelude::*;

verus! {

/// Relies on rand::Rng::gen_range over the half-open range 0..n: the result
/// is drawn uniformly from the range, so in particular it is below n. The
/// call panics on an empty range, which `n >= 1` rules out.
#[verifier::external_body]
pub(crate) fn random_below(n: u64) -> (r: u64)
    requires
        n >= 1,
    ensures
        r < n,
{
    rand::Rng::gen_range(&mut rand::thread_rng(), 0..n)
}

/// Relies on rand::Rng::gen::<bool>: a coin flip. Nothing is assumed of the
/// outcome; callers must be correct for either value.
#[verifier::external_body]
pub(crate) fn random_coin() -> bool {
    rand::Rng::gen::<bool>(&mut rand::thread_rng())
}

} // verus!
