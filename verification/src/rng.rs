use vstd::prelude::*;
use rand::Rng;

verus! {

#[verifier::external_type_specification]
#[verifier::external_body]
pub struct ExStdRng(rand::rngs::StdRng);

/// Relies on rand's `Rng::gen::<bool>`: a fair coin drawn from the PRNG.
/// Nothing is promised of the outcome; callers must hold for either value.
#[verifier::external_body]
pub(crate) fn gen_coin(rng: &mut rand::rngs::StdRng) -> bool {
    rng.gen::<bool>()
}

} // verus!
