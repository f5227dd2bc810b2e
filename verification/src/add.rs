//! A noise function which sums two other noise functions.

use crate::noise::{seeds_deterministically, Seedable, Seeded, SplitSeed};
use vstd::prelude::*;

verus! {

/// A combinator for `noise(x) = inner1.noise(x) + inner2.noise(x)`.
///
/// Seeding splits the seed into two child seeds, indices 0 and 1, so the two
/// children are decorrelated however the tree is composed.
#[derive(Clone, Copy)]
pub struct AddNoise<Inner1, Inner2> {
    pub inner1: Inner1,
    pub inner2: Inner2,
}

impl<Inner1, Inner2> AddNoise<Inner1, Inner2> {
    pub fn new(inner1: Inner1, inner2: Inner2) -> (r: AddNoise<Inner1, Inner2>)
        ensures
            r.inner1 == inner1,
            r.inner2 == inner2,
    {
        AddNoise { inner1, inner2 }
    }
}

impl<S: SplitSeed, Inner1: Seedable<Seed = S>, Inner2: Seedable<Seed = S>> Seedable for AddNoise<
    Inner1,
    Inner2,
> {
    type Seed = S;

    type Seeded = AddNoise<Inner1::Seeded, Inner2::Seeded>;

    open spec fn seeds_to(self, seed: S, inst: Self::Seeded) -> bool {
        &&& self.inner1.seeds_to(seed.split_spec(0), inst.inner1)
        &&& self.inner2.seeds_to(seed.split_spec(1), inst.inner2)
    }

    fn seed(self, seed: S) -> (inst: Self::Seeded) {
        let child0 = seed.split(0);
        let child1 = seed.split(1);
        AddNoise { inner1: self.inner1.seed(child0), inner2: self.inner2.seed(child1) }
    }
}

impl<Inner1: Seeded, Inner2: Seeded> Seeded for AddNoise<Inner1, Inner2> {
    type Config = AddNoise<Inner1::Config, Inner2::Config>;
}

/// Determinism is preserved: if seeding both child configurations is
/// deterministic, so is seeding the two-child combinator.
pub proof fn lemma_add_seeding_deterministic<
    S: SplitSeed,
    Inner1: Seedable<Seed = S>,
    Inner2: Seedable<Seed = S>,
>()
    requires
        seeds_deterministically::<Inner1>(),
        seeds_deterministically::<Inner2>(),
    ensures
        seeds_deterministically::<AddNoise<Inner1, Inner2>>(),
{
    assert forall|
        c: AddNoise<Inner1, Inner2>,
        seed: S,
        i1: AddNoise<Inner1::Seeded, Inner2::Seeded>,
        i2: AddNoise<Inner1::Seeded, Inner2::Seeded>,
    |
        c.seeds_to(seed, i1) && c.seeds_to(seed, i2) implies i1 == i2 by {
        assert(i1.inner1 == i2.inner1);
        assert(i1.inner2 == i2.inner2);
    }
}

/// Seed independence for a two-child combinator: seeding with `seed` seeds
/// the children with the child seeds at indices 0 and 1 of `seed`.
pub proof fn lemma_add_seed_independence<
    S: SplitSeed,
    Inner1: Seedable<Seed = S>,
    Inner2: Seedable<Seed = S>,
>(config: AddNoise<Inner1, Inner2>, seed: S, inst: AddNoise<Inner1::Seeded, Inner2::Seeded>)
    requires
        config.seeds_to(seed, inst),
    ensures
        config.inner1.seeds_to(seed.split_spec(0), inst.inner1),
        config.inner2.seeds_to(seed.split_spec(1), inst.inner2),
{
}

} // verus!
