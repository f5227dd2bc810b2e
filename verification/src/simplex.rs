//! The seeded state of the simplex gradient noise function.
//!
//! A seeded simplex instance is nothing but a keyed hash of lattice points:
//! each corner of a simplex cell selects its gradient vector by hashing the
//! corner's integer coordinates under the instance's seed. The
//! floating-point evaluation over that state lives outside the verified
//! library; the gradient index it feeds the hash output into is
//! [`Simplex::gradient_index`].

use crate::hash::HashNoise;
use crate::helpers::{EmptyConfig, SeedOnlyNoise};
use crate::noise::{seeds_deterministically, Seeded};
use vstd::prelude::*;

verus! {

/// The number of entries in the shared gradient table for the 2- and
/// 3-dimensional variants.
pub const GRAD3_COUNT: u64 = 12;

/// The number of entries in the gradient table for the 4-dimensional
/// variant.
pub const GRAD4_COUNT: u64 = 32;

/// A simplex noise function loosely based on Stefan Gustavson's open source
/// implementation; its seeded state is the keyed hash of lattice points.
pub struct Simplex {
    pub inner: HashNoise,
}

impl Simplex {
    pub fn new() -> (c: EmptyConfig<Simplex>) {
        EmptyConfig::new()
    }

    /// The keyed hash of lattice points that drives gradient selection.
    pub fn hash(&self) -> (r: &HashNoise)
        ensures
            r == self.inner,
    {
        &self.inner
    }

    /// The gradient-table index a corner's hash value selects: the hash
    /// reduced modulo the table size.
    pub fn gradient_index(hash_value: u64, table_size: u64) -> (r: u64)
        requires
            table_size > 0,
        ensures
            r == hash_value % table_size,
            r < table_size,
    {
        hash_value % table_size
    }
}

impl Clone for Simplex {
    fn clone(&self) -> (r: Self)
        ensures
            r == *self,
    {
        Simplex { inner: self.inner }
    }
}

impl Copy for Simplex {

}

impl SeedOnlyNoise for Simplex {
    type Seed = u64;

    open spec fn seed_produces(seed: u64, inst: Self) -> bool {
        inst == (Simplex { inner: HashNoise { seed } })
    }

    fn seed(seed: u64) -> (inst: Self) {
        Simplex { inner: HashNoise::seed(seed) }
    }
}

/// Seeding a simplex configuration is deterministic: the instance is
/// exactly the keyed hash of the seed.
pub proof fn lemma_simplex_seeding_deterministic()
    ensures
        seeds_deterministically::<EmptyConfig<Simplex>>(),
{
}

impl Seeded for Simplex {
    type Config = EmptyConfig<Simplex>;
}

} // verus!
