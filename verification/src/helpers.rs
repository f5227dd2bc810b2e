//! Helpers for leaf generators that need no configuration parameters, and
//! for wrapping non-seedable noise so it can stand in seeded compositions.

use crate::noise::{Noise, NoiseDomain, Seedable, Seeded};
use core::marker::PhantomData;
use vstd::prelude::*;

verus! {

/// A type alias for the configuration struct of a seeded type.
pub type Config<N> = <N as Seeded>::Config;

/// A leaf noise function whose whole configuration is its seed.
pub trait SeedOnlyNoise: Sized {
    type Seed;

    /// What it means for `inst` to be the instance that `seed` produces.
    spec fn seed_produces(seed: Self::Seed, inst: Self) -> bool;

    fn seed(seed: Self::Seed) -> (inst: Self)
        ensures
            Self::seed_produces(seed, inst),
    ;
}

/// A stateless placeholder configuration for [`SeedOnlyNoise`] leaves:
/// seeding it hands the seed straight to the leaf's own constructor.
pub struct EmptyConfig<N: SeedOnlyNoise> {
    pub _phantom: PhantomData<N>,
}

impl<N: SeedOnlyNoise> EmptyConfig<N> {
    pub fn new() -> Self {
        Self { _phantom: PhantomData }
    }
}

impl<N: SeedOnlyNoise> Clone for EmptyConfig<N> {
    fn clone(&self) -> (r: Self)
        ensures
            r == *self,
    {
        Self { _phantom: PhantomData }
    }
}

impl<N: SeedOnlyNoise> Copy for EmptyConfig<N> {

}

impl<N: SeedOnlyNoise> Seedable for EmptyConfig<N> {
    type Seed = N::Seed;

    type Seeded = N;

    open spec fn seeds_to(self, seed: N::Seed, inst: N) -> bool {
        N::seed_produces(seed, inst)
    }

    fn seed(self, seed: N::Seed) -> (inst: N) {
        N::seed(seed)
    }
}

/// A wrapper that lets a non-seedable noise function stand where a seedable
/// one is expected: seeding it ignores the seed and keeps the inner noise.
pub struct IgnoreSeed<Seed, Inner> {
    pub inner: Inner,
    pub _phantom: PhantomData<Seed>,
}

impl<Seed, Inner: Noise> Noise for IgnoreSeed<Seed, Inner> {
    type Value = Inner::Value;
}

impl<Seed, Inner> IgnoreSeed<Seed, Inner> {
    pub fn new(inner: Inner) -> (r: Self)
        ensures
            r.inner == inner,
    {
        Self { inner, _phantom: PhantomData }
    }
}

impl<Seed, Inner> Seedable for IgnoreSeed<Seed, Inner> {
    type Seed = Seed;

    type Seeded = Self;

    open spec fn seeds_to(self, seed: Seed, inst: Self) -> bool {
        inst.inner == self.inner
    }

    fn seed(self, _seed: Seed) -> (inst: Self) {
        self
    }
}

impl<Seed, Inner> Seeded for IgnoreSeed<Seed, Inner> {
    type Config = Self;
}

impl<Arg, Seed, Inner: NoiseDomain<Arg>> NoiseDomain<Arg> for IgnoreSeed<Seed, Inner> {
    open spec fn noise_spec(&self, arg: Arg) -> Self::Value {
        self.inner.noise_spec(arg)
    }

    fn noise(&self, arg: Arg) -> (r: Self::Value) {
        self.inner.noise(arg)
    }
}

} // verus!
