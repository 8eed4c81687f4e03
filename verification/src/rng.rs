//! The random numbers the game draws, from the `rand` crate.
use rand::Rng;
use rand::seq::SliceRandom;
use rand::rngs::ThreadRng;
use vstd::prelude::*;

verus! {

/// `rand::rngs::ThreadRng`, the per-thread generator the game draws from.
#[verifier::external_type_specification]
#[verifier::external_body]
pub struct ExThreadRng(ThreadRng);

/// Calls `rand::Rng::gen_range` with the range `0..upper`. rand's documentation
/// promises a value inside the range and a panic on an empty range; which value
/// comes out is left unsaid, as it is random.
#[verifier::external_body]
pub(crate) fn random_index(rng: &mut ThreadRng, upper: usize) -> (i: usize)
    requires
        upper > 0,
    ensures
        i < upper,
{
    rng.gen_range(0..upper)
}

/// Calls `rand::seq::SliceRandom::choose` on a list of indices and copies the
/// element it picks. rand documents the result as one random element of the
/// slice, or none when the slice is empty; which element comes out is left
/// unsaid, as it is random.
#[verifier::external_body]
pub(crate) fn choose_index(rng: &mut ThreadRng, indices: &Vec<usize>) -> (r: Option<usize>)
    ensures
        r is None <==> indices@.len() == 0,
        r matches Some(i) ==> indices@.contains(i),
{
    indices.choose(rng).copied()
}

} // verus!
