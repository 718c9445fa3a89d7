//! The chance that provider selection and the terminal animation rest on,
//! drawn from `rand`'s thread-local generator.
use vstd::prelude::*;

use rand::rngs::ThreadRng;
use rand::seq::IndexedRandom;
use rand::RngExt;

use crate::data::models::Provider;

verus! {

#[verifier::external_type_specification]
#[verifier::external_body]
pub struct ExThreadRng(ThreadRng);

/// Calls `rand::rng`, a handle to the thread's random generator. Nothing is
/// claimed of it.
#[verifier::external_body]
pub(crate) fn thread_rng() -> ThreadRng {
    rand::rng()
}

/// Calls `IndexedRandom::choose` on `providers`. Claimed from the `rand`
/// source: the answer is `None` exactly when the slice is empty, and otherwise
/// one of its elements. Which element is left to chance.
#[verifier::external_body]
pub(crate) fn choose_provider<'a>(providers: &'a [Provider], rng: &mut ThreadRng) -> (r: Option<
    &'a Provider,
>)
    ensures
        r is None <==> providers@.len() == 0,
        r matches Some(p) ==> providers@.contains(*p),
{
    providers.choose(rng)
}

/// Calls `RngExt::random_range` on `0..bound`. Claimed from the `rand`
/// source: the number is below `bound`; the call panics on an empty range,
/// which `requires` rules out. Which number is left to chance.
#[verifier::external_body]
pub(crate) fn random_below(rng: &mut ThreadRng, bound: usize) -> (r: usize)
    requires
        bound > 0,
    ensures
        r < bound,
{
    rng.random_range(0..bound)
}

} // verus!
