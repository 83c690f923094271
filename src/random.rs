//! The random source of generation and the draws made from it.
use vstd::prelude::*;

verus! {

/// Declares `rand::rngs::ThreadRng`, the caller's generator, which generation
/// carries by exclusive reference and never looks inside.
#[verifier::external_type_specification]
#[verifier::external_body]
pub struct ExThreadRng(rand::rngs::ThreadRng);

/// Relies on `rand::Rng::gen_range` over `u64`: a value drawn uniformly from
/// the half-open range `0..bound`; it panics on an empty range, which
/// `requires` leaves out.
#[verifier::external_body]
pub(crate) fn random_below(rng: &mut rand::rngs::ThreadRng, bound: u64) -> (r: u64)
    requires
        bound > 0,
    ensures
        r < bound,
{
    rand::Rng::gen_range(rng, 0..bound)
}

/// Relies on `rand::random`: a value drawn from the thread-local generator;
/// nothing is promised of it.
pub assume_specification<T>[ rand::random::<T> ]() -> (r: T)
    where
        rand::distributions::Standard: rand::distributions::Distribution<T>,
;

} // verus!
