//! A noise function formed by summing a collection of other noise functions.

use crate::noise::{seeds_deterministically, Seedable, Seeded, SplitSeed};
use vstd::prelude::*;

verus! {

/// A combinator that sums the outputs of its children at the same
/// coordinate.
///
/// Seeding splits the seed into one child seed per child, at the child's
/// index, so every child is decorrelated from its siblings.
#[derive(Clone)]
pub struct SumNoise<Inner> {
    pub inners: Vec<Inner>,
}

impl<Inner> SumNoise<Inner> {
    pub fn new(inners: Vec<Inner>) -> (r: SumNoise<Inner>)
        ensures
            r.inners == inners,
    {
        SumNoise { inners }
    }
}

impl<S: SplitSeed, Inner: Seedable<Seed = S> + Copy> Seedable for SumNoise<Inner> {
    type Seed = S;

    type Seeded = SumNoise<Inner::Seeded>;

    open spec fn seeds_to(self, seed: S, inst: Self::Seeded) -> bool {
        &&& inst.inners.len() == self.inners.len()
        &&& forall|k: int|
            0 <= k < self.inners.len() ==> #[trigger] self.inners[k].seeds_to(
                seed.split_spec(k as usize),
                inst.inners[k],
            )
    }

    fn seed(self, seed: S) -> (inst: Self::Seeded) {
        let count = self.inners.len();
        let mut seeded: Vec<Inner::Seeded> = Vec::new();
        let mut i: usize = 0;
        while i < count
            invariant
                i <= count,
                count == self.inners.len(),
                seeded.len() == i,
                forall|k: int|
                    0 <= k < i ==> #[trigger] self.inners[k].seeds_to(
                        seed.split_spec(k as usize),
                        seeded[k],
                    ),
            decreases count - i,
        {
            let child_seed = seed.split(i);
            let child = self.inners[i];
            seeded.push(child.seed(child_seed));
            i = i + 1;
        }
        SumNoise { inners: seeded }
    }
}

impl<Inner: Seeded> Seeded for SumNoise<Inner> {
    type Config = SumNoise<Inner::Config>;
}

/// Determinism, stated per child: if seeding the child configuration is
/// deterministic, two instances seeded from the same configuration and seed
/// agree in length and at every index.
pub proof fn lemma_sum_seeding_deterministic<S: SplitSeed, Inner: Seedable<Seed = S> + Copy>(
    config: SumNoise<Inner>,
    seed: S,
    i1: SumNoise<Inner::Seeded>,
    i2: SumNoise<Inner::Seeded>,
)
    requires
        seeds_deterministically::<Inner>(),
        config.seeds_to(seed, i1),
        config.seeds_to(seed, i2),
    ensures
        i1.inners.len() == i2.inners.len(),
        forall|k: int| 0 <= k < i1.inners.len() ==> i1.inners[k] == #[trigger] i2.inners[k],
{
    assert forall|k: int| 0 <= k < i1.inners.len() implies i1.inners[k] == #[trigger] i2.inners[k] by {
        assert(config.inners[k].seeds_to(seed.split_spec(k as usize), i1.inners[k]));
        assert(config.inners[k].seeds_to(seed.split_spec(k as usize), i2.inners[k]));
    }
}

/// Seed independence for an N-child combinator: seeding with `seed` seeds
/// the child at index `k` with the child seed at index `k` of `seed`.
pub proof fn lemma_sum_seed_independence<S: SplitSeed, Inner: Seedable<Seed = S> + Copy>(
    config: SumNoise<Inner>,
    seed: S,
    inst: SumNoise<Inner::Seeded>,
    k: int,
)
    requires
        config.seeds_to(seed, inst),
        0 <= k < config.inners.len(),
    ensures
        config.inners[k].seeds_to(seed.split_spec(k as usize), inst.inners[k]),
{
}

} // verus!
