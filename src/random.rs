//! The random source that the random-AND instruction draws from.

use vstd::prelude::*;

use rand::Rng;

verus! {

/// The thread-local generator of `rand`, carried through as an opaque value.
#[verifier::external_type_specification]
#[verifier::external_body]
pub struct ExThreadRng(rand::rngs::ThreadRng);

/// Relies on `rand::thread_rng`: it hands out a handle to the generator of
/// the current thread. Nothing is known of its state.
pub assume_specification[ rand::thread_rng ]() -> (r: rand::rngs::ThreadRng);

/// Relies on `rand::Rng::gen::<u8>` on `ThreadRng`: it draws one byte. Any
/// byte may come back.
#[verifier::external_body]
pub(crate) fn random_byte(rng: &mut rand::rngs::ThreadRng) -> (r: u8) {
    rng.gen::<u8>()
}

} // verus!
