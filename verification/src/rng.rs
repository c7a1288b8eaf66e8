use vstd::prelude::*;

verus! {

/// Relies on rand's `Rng::random_range` over the range `0..bound`: the call
/// panics only when the range is empty, and the drawn value lies within the
/// range. Nothing more is promised of a random value.
#[verifier::external_body]
pub(crate) fn random_u64_below(bound: u64) -> (r: u64)
    requires
        bound > 0,
    ensures
        r < bound,
{
    rand::Rng::random_range(&mut rand::rng(), 0..bound)
}

} // verus!
