//! The seeding and evaluation protocol: configurations are seeded into
//! instances, instances evaluate coordinates, and seeds split into
//! independent child seeds for tree composition.

use crate::keyed_hash::{wyhash_of, wyhash_words};
use vstd::prelude::*;

verus! {

/// A noise function producing `Value`s.
pub trait Noise: Sized {
    type Value;
}

/// A configuration which can be seeded to create an instance of `Seeded`.
pub trait Seedable: Sized {
    type Seed;

    type Seeded;

    /// What it means for `inst` to be an instance that this configuration,
    /// applied to `seed`, produces.
    spec fn seeds_to(self, seed: Self::Seed, inst: Self::Seeded) -> bool;

    /// Seed this configuration with `seed` to get an instance of `Seeded`.
    fn seed(self, seed: Self::Seed) -> (inst: Self::Seeded)
        ensures
            self.seeds_to(seed, inst),
    ;
}

/// An instance which was created by seeding a configuration of type `Config`.
pub trait Seeded: Sized {
    type Config;
}

/// A domain over which a noise function operates.
///
/// Evaluation is total and pure: the result is a function of the instance
/// and the coordinate alone, stated exactly by `noise_spec`.
pub trait NoiseDomain<Arg>: Noise {
    /// The value of the noise at `arg`, as a mathematical function.
    spec fn noise_spec(&self, arg: Arg) -> Self::Value;

    /// Get the value of the noise at a particular 'location'.
    fn noise(&self, arg: Arg) -> (r: Self::Value)
        ensures
            r == self.noise_spec(arg),
    ;
}

/// A type of seed which can be split into multiple 'child' seeds.
pub trait SplitSeed: Sized {
    /// The child seed for index `n`, as a mathematical function.
    spec fn split_spec(&self, n: usize) -> Self;

    /// Create a unique child seed.
    fn split(&self, n: usize) -> (r: Self)
        ensures
            r == self.split_spec(n),
    ;
}

/// Seeding through configurations of type `C` is deterministic: the
/// configuration and the seed determine the instance.
pub open spec fn seeds_deterministically<C: Seedable>() -> bool {
    forall|c: C, seed: C::Seed, i1: C::Seeded, i2: C::Seeded|
        #![trigger c.seeds_to(seed, i1), c.seeds_to(seed, i2)]
        c.seeds_to(seed, i1) && c.seeds_to(seed, i2) ==> i1 == i2
}

/// Evaluation is deterministic for every noise function: two results of
/// `noise` at the same coordinate are bit-identical, since both equal
/// `noise_spec` there.
pub proof fn lemma_noise_deterministic<Arg, N: NoiseDomain<Arg>>(
    n: &N,
    arg: Arg,
    r1: N::Value,
    r2: N::Value,
)
    requires
        r1 == n.noise_spec(arg),
        r2 == n.noise_spec(arg),
    ensures
        r1 == r2,
{
}

impl SplitSeed for u64 {
    open spec fn split_spec(&self, n: usize) -> u64 {
        wyhash_of(*self, seq![n as u64])
    }

    fn split(&self, n: usize) -> (r: u64) {
        let words: [u64; 1] = [n as u64];
        let r = wyhash_words(*self, words.as_slice());
        proof {
            assert(words@ =~= seq![n as u64]);
        }
        r
    }
}

} // verus!
