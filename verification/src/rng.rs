//! The crate's only source of randomness: thin trusted fronts for the
//! `rand` crate, used when decorating a fresh level with clouds and when
//! scattering block fragments.

use vstd::prelude::*;

verus! {

/// Relies on rand::Rng::gen_range on rand::thread_rng: a sample from the
/// half-open range `lo..hi`, which panics only on an empty range.
#[verifier::external_body]
pub(crate) fn gen_range_i64(lo: i64, hi: i64) -> (r: i64)
    requires
        lo < hi,
    ensures
        lo <= r < hi,
{
    rand::Rng::gen_range(&mut rand::thread_rng(), lo..hi)
}

/// Relies on rand::random: a coin toss; nothing is promised of the outcome.
#[verifier::external_body]
pub(crate) fn random_bool() -> bool {
    rand::random()
}

} // verus!
