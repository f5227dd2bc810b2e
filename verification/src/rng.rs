//! Trusted binding to the `rand` crate's standard generator, the seeded
//! uniform source that drives permutation-table construction.
//!
//! The generator is deterministic: freshly seeded, its draws are a pure,
//! platform-independent function of the seed and of the bounds of the draws
//! already served. The binding carries that state as ghost data, so that
//! what is built from the draws can be stated as a function of the seed.

use rand::RngExt;
use rand::SeedableRng;
use vstd::prelude::*;

verus! {

#[verifier::external_type_specification]
#[verifier::external_body]
pub struct ExStdRng(rand::rngs::StdRng);

/// The value that the standard generator, seeded with `seed` and having
/// already served one draw per entry of `history` (each bounded by that
/// entry), returns for a draw bounded by `bound`. It depends on its
/// arguments alone: the generator's state is a pure function of the seed
/// and the draws served.
pub uninterp spec fn draw_of(seed: u64, history: Seq<u8>, bound: u8) -> u8;

/// A seeded standard generator, together with the seed it was built from
/// and the bounds of the draws it has served, which determine its state.
pub struct SeededRng {
    pub(crate) rng: rand::rngs::StdRng,
    pub(crate) seed: Ghost<u64>,
    pub(crate) history: Ghost<Seq<u8>>,
}

/// Relies on rand's `SeedableRng::seed_from_u64` for `StdRng`: building the
/// generator never fails, and the state it builds is a pure function of the
/// 64-bit seed.
#[verifier::external_body]
fn stdrng_from_seed(seed: u64) -> rand::rngs::StdRng {
    rand::rngs::StdRng::seed_from_u64(seed)
}

/// A freshly seeded generator: it carries its seed and has served no draws.
pub(crate) fn rng_from_seed(seed: u64) -> (r: SeededRng)
    ensures
        r.seed@ == seed,
        r.history@ == Seq::<u8>::empty(),
{
    SeededRng { rng: stdrng_from_seed(seed), seed: Ghost(seed), history: Ghost(Seq::empty()) }
}

/// Relies on `rand::RngExt::random_range` on `StdRng`: on the non-empty
/// range `0..=bound` it returns a value of that range and does not panic,
/// and the value drawn is a pure function of the generator's state — the
/// seed and the bounds of the draws served before this one.
#[verifier::external_body]
pub(crate) fn rng_below(rng: &mut SeededRng, bound: u8) -> (j: u8)
    ensures
        j == draw_of(old(rng).seed@, old(rng).history@, bound),
        j <= bound,
        final(rng).seed@ == old(rng).seed@,
        final(rng).history@ == old(rng).history@.push(bound),
{
    rng.rng.random_range(0..=bound)
}

} // verus!
