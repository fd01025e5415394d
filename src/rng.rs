//! The simulation's seeded pseudo-random stream (`rand_pcg::Pcg32`).
use rand::Rng;
use rand::SeedableRng;
use rand_pcg::Pcg32;
use vstd::prelude::*;

verus! {

/// The permuted congruential generator of `rand_pcg`; its state stays opaque.
#[verifier::external_type_specification]
#[verifier::external_body]
pub struct ExPcg32(rand_pcg::Lcg64Xsh32);

/// Relies on `rand_core::SeedableRng::seed_from_u64` for `Pcg32`: a fresh
/// stream whose draws depend on `seed` alone.
#[verifier::external_body]
pub(crate) fn seeded(seed: u64) -> Pcg32 {
    Pcg32::seed_from_u64(seed)
}

/// Relies on `rand::Rng::gen_range` over `0..bound`: a uniform index strictly
/// below `bound` (the call panics on an empty range, which `requires` rules out).
#[verifier::external_body]
pub(crate) fn draw_index(rng: &mut Pcg32, bound: usize) -> (r: usize)
    requires
        bound > 0,
    ensures
        r < bound,
{
    rng.gen_range(0..bound)
}

} // verus!
