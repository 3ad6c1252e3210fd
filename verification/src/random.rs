use vstd::prelude::*;
use rand::Rng;

verus! {

/// Draws an index uniformly from `0..bound` with the thread-local generator
/// (`rand::rng()` followed by `Rng::random_range(0..bound)`). The contract
/// claims only what holds of every outcome: the index is below `bound`.
/// `random_range` panics on an empty range, which `requires` leaves out.
#[verifier::external_body]
pub(crate) fn random_index(bound: usize) -> (i: usize)
    requires
        0 < bound,
    ensures
        i < bound,
{
    rand::rng().random_range(0..bound)
}

/// Draws `true` with probability `numerator / denominator` with the
/// thread-local generator (`Rng::random_ratio`). Of every outcome the
/// contract claims only what `Bernoulli::from_ratio` fixes: a zero numerator
/// always gives `false`, a numerator equal to the denominator always `true`.
/// The call panics when `numerator > denominator` or `denominator == 0`,
/// which `requires` leaves out.
#[verifier::external_body]
pub(crate) fn random_ratio(numerator: u32, denominator: u32) -> (b: bool)
    requires
        0 < denominator,
        numerator <= denominator,
    ensures
        numerator == 0 ==> !b,
        numerator == denominator ==> b,
{
    rand::rng().random_ratio(numerator, denominator)
}

} // verus!
