//! The source of random brick hitpoints. The calls into the `rand` crate
//! stand behind trusted wrappers; everything that consumes the drawn
//! values is verified for every value the contracts admit.

use vstd::prelude::*;
use rand::Rng;

verus! {

/// The thread-local random number generator of the `rand` crate, opaque
/// to the verifier.
#[verifier::external_type_specification]
#[verifier::external_body]
pub struct ExThreadRng(rand::rngs::ThreadRng);

/// Relies on rand::thread_rng: returns a handle to the thread-local
/// generator. Nothing is assumed of its state.
#[verifier::external_body]
pub(crate) fn new_thread_rng() -> rand::rngs::ThreadRng {
    rand::thread_rng()
}

/// Relies on rand::Rng::gen_range with the range 1..4: the sample lies
/// uniformly in that half-open range, so between 1 and 3 inclusive.
/// Nothing else is assumed: the value may differ on every call.
#[verifier::external_body]
pub(crate) fn gen_hitpoint(rng: &mut rand::rngs::ThreadRng) -> (hp: i8)
    ensures
        1 <= hp <= 3,
{
    rng.gen_range(1..4)
}

} // verus!
