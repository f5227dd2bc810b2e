//! A noise function which scales both the input and output values.

use crate::noise::{seeds_deterministically, Seedable, Seeded};
use vstd::prelude::*;

verus! {

/// A combinator for `noise(x) = inner.noise(x * scale_in) * scale_out`.
///
/// It has exactly one child, so seeding passes the seed through unchanged:
/// there is nothing to decorrelate.
#[derive(Clone, Copy)]
pub struct ScaleNoise<Inner, InScale: Copy, OutScale: Copy> {
    pub inner: Inner,
    pub scale_in: InScale,
    pub scale_out: OutScale,
}

impl<Inner, InScale: Copy, OutScale: Copy> ScaleNoise<Inner, InScale, OutScale> {
    /// Create a noise function where `noise(x) = inner.noise(x * scale_in) * scale_out`.
    pub fn new(inner: Inner, scale_in: InScale, scale_out: OutScale) -> (r: ScaleNoise<
        Inner,
        InScale,
        OutScale,
    >)
        ensures
            r.inner == inner,
            r.scale_in == scale_in,
            r.scale_out == scale_out,
    {
        ScaleNoise { inner, scale_in, scale_out }
    }
}

impl<Inner: Seedable, InScale: Copy, OutScale: Copy> Seedable for ScaleNoise<
    Inner,
    InScale,
    OutScale,
> {
    type Seed = Inner::Seed;

    type Seeded = ScaleNoise<Inner::Seeded, InScale, OutScale>;

    open spec fn seeds_to(self, seed: Inner::Seed, inst: Self::Seeded) -> bool {
        &&& self.inner.seeds_to(seed, inst.inner)
        &&& inst.scale_in == self.scale_in
        &&& inst.scale_out == self.scale_out
    }

    fn seed(self, seed: Inner::Seed) -> (inst: Self::Seeded) {
        ScaleNoise { inner: self.inner.seed(seed), scale_in: self.scale_in, scale_out: self.scale_out }
    }
}

/// Determinism is preserved: if seeding the inner configuration is
/// deterministic, so is seeding the scale wrapper around it.
pub proof fn lemma_scale_seeding_deterministic<Inner: Seedable, InScale: Copy, OutScale: Copy>()
    requires
        seeds_deterministically::<Inner>(),
    ensures
        seeds_deterministically::<ScaleNoise<Inner, InScale, OutScale>>(),
{
    assert forall|
        c: ScaleNoise<Inner, InScale, OutScale>,
        seed: Inner::Seed,
        i1: ScaleNoise<Inner::Seeded, InScale, OutScale>,
        i2: ScaleNoise<Inner::Seeded, InScale, OutScale>,
    |
        c.seeds_to(seed, i1) && c.seeds_to(seed, i2) implies i1 == i2 by {
        assert(i1.inner == i2.inner);
    }
}

impl<Inner: Seeded, InScale: Copy, OutScale: Copy> Seeded for ScaleNoise<
    Inner,
    InScale,
    OutScale,
> {
    type Config = ScaleNoise<Inner::Config, InScale, OutScale>;
}

} // verus!
