use vstd::prelude::*;
use rand::rngs::ThreadRng;
use rand::Rng;

verus! {

/// The random generator of `rand` that belongs to a thread, opaque here.
#[verifier::external_type_specification]
#[verifier::external_body]
pub struct ExThreadRng(rand::rngs::ThreadRng);

/// Hands out the generator of the current thread, by `rand::thread_rng`.
/// Nothing is claimed of the generator.
#[verifier::external_body]
pub(crate) fn thread_generator() -> ThreadRng {
    rand::thread_rng()
}

/// Draws a number by `rand::Rng::gen_range` on the range from `low` to
/// `high`, both included: the draw lies in the range. The call panics on
/// an empty range, which is left out here. Two draws may differ.
#[verifier::external_body]
pub(crate) fn random_between(rng: &mut ThreadRng, low: u64, high: u64) -> (r: u64)
    requires
        low <= high,
    ensures
        low <= r <= high,
{
    rng.gen_range(low..=high)
}

} // verus!
