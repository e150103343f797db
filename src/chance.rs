use vstd::prelude::*;

use rand::Rng;

verus! {

/// Relies on `rand::Rng::gen_range` on the thread-local generator, which for a
/// non-empty range `0..bound` returns a value inside it.
#[verifier::external_body]
pub(crate) fn random_below(bound: usize) -> (r: usize)
    requires
        bound > 0,
    ensures
        r < bound,
{
    rand::thread_rng().gen_range(0..bound)
}

/// Relies on `uuid::Uuid::new_v4`: a fresh random identifier, as its 128 bits.
/// Nothing is known of the value.
#[verifier::external_body]
pub(crate) fn random_identifier() -> (r: u128) {
    uuid::Uuid::new_v4().as_u128()
}

} // verus!
