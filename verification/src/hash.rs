//! Seeded pseudorandom values using a fast non-cryptographic hash function.

use crate::helpers::{EmptyConfig, SeedOnlyNoise};
use crate::keyed_hash::{wyhash_of, wyhash_words};
use crate::noise::{seeds_deterministically, Noise, NoiseDomain, Seeded};
use vstd::prelude::*;

verus! {

/// A noise function that hashes the coordinate under a seed key, returning a
/// 64-bit value; same seed and coordinate always give the same value.
pub struct HashNoise {
    pub seed: u64,
}

impl HashNoise {
    pub fn new() -> (c: EmptyConfig<HashNoise>) {
        EmptyConfig::new()
    }
}

impl Clone for HashNoise {
    fn clone(&self) -> (r: Self)
        ensures
            r == *self,
    {
        HashNoise { seed: self.seed }
    }
}

impl Copy for HashNoise {

}

impl SeedOnlyNoise for HashNoise {
    type Seed = u64;

    open spec fn seed_produces(seed: u64, inst: Self) -> bool {
        inst == (HashNoise { seed })
    }

    fn seed(seed: u64) -> (inst: Self) {
        HashNoise { seed }
    }
}

impl Noise for HashNoise {
    type Value = u64;
}

impl Seeded for HashNoise {
    type Config = EmptyConfig<HashNoise>;
}

/// Seeding a hash noise configuration is deterministic: the seed is the
/// whole state of the instance.
pub proof fn lemma_hash_seeding_deterministic()
    ensures
        seeds_deterministically::<EmptyConfig<HashNoise>>(),
{
}

impl NoiseDomain<i64> for HashNoise {
    open spec fn noise_spec(&self, arg: i64) -> u64 {
        wyhash_of(self.seed, seq![arg as u64])
    }

    fn noise(&self, arg: i64) -> (r: u64) {
        let words: [u64; 1] = [arg as u64];
        let r = wyhash_words(self.seed, words.as_slice());
        proof {
            assert(words@ =~= seq![arg as u64]);
        }
        r
    }
}

impl NoiseDomain<[i64; 2]> for HashNoise {
    open spec fn noise_spec(&self, arg: [i64; 2]) -> u64 {
        wyhash_of(self.seed, seq![arg[0] as u64, arg[1] as u64])
    }

    fn noise(&self, arg: [i64; 2]) -> (r: u64) {
        let words: [u64; 2] = [arg[0] as u64, arg[1] as u64];
        let r = wyhash_words(self.seed, words.as_slice());
        proof {
            assert(words@ =~= seq![arg[0] as u64, arg[1] as u64]);
        }
        r
    }
}

impl NoiseDomain<[i64; 3]> for HashNoise {
    open spec fn noise_spec(&self, arg: [i64; 3]) -> u64 {
        wyhash_of(self.seed, seq![arg[0] as u64, arg[1] as u64, arg[2] as u64])
    }

    fn noise(&self, arg: [i64; 3]) -> (r: u64) {
        let words: [u64; 3] = [arg[0] as u64, arg[1] as u64, arg[2] as u64];
        let r = wyhash_words(self.seed, words.as_slice());
        proof {
            assert(words@ =~= seq![arg[0] as u64, arg[1] as u64, arg[2] as u64]);
        }
        r
    }
}

impl NoiseDomain<[i64; 4]> for HashNoise {
    open spec fn noise_spec(&self, arg: [i64; 4]) -> u64 {
        wyhash_of(self.seed, seq![arg[0] as u64, arg[1] as u64, arg[2] as u64, arg[3] as u64])
    }

    fn noise(&self, arg: [i64; 4]) -> (r: u64) {
        let words: [u64; 4] = [arg[0] as u64, arg[1] as u64, arg[2] as u64, arg[3] as u64];
        let r = wyhash_words(self.seed, words.as_slice());
        proof {
            assert(words@ =~= seq![arg[0] as u64, arg[1] as u64, arg[2] as u64, arg[3] as u64]);
        }
        r
    }
}

} // verus!
