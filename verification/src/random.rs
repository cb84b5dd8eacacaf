//! The source of chance.

use vstd::prelude::*;

verus! {

/// Thirty-two uniformly drawn bits.
///
/// Calls `rand::RngCore::next_u32` on the generator that `rand::thread_rng`
/// hands out for the running thread. Nothing is claimed of the bits: two
/// calls may return anything. The generator is seeded from the system when a
/// thread first asks for it, and gives up only where the system has no
/// entropy to give.
#[verifier::external_body]
pub(crate) fn random_word() -> u32 {
    rand::RngCore::next_u32(&mut rand::thread_rng())
}

} // verus!
