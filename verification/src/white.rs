//! Seeded pseudorandom bytes using a permutation table.

use crate::helpers::{EmptyConfig, SeedOnlyNoise};
use crate::noise::{seeds_deterministically, Noise, NoiseDomain, Seedable, Seeded};
use crate::perm_table::{perm_of, table_is_permutation, PermTable};
use vstd::prelude::*;

verus! {

/// A noise function that folds the coordinate's axes through a seeded
/// permutation table, returning a pseudorandom byte.
#[derive(Clone, Copy)]
pub struct WhiteNoise {
    pub perm_table: PermTable,
}

impl WhiteNoise {
    pub fn new() -> (c: EmptyConfig<WhiteNoise>) {
        EmptyConfig::new()
    }
}

/// The accumulator after folding the first `n` axes of `pos` through
/// `table`: start at 0, then repeatedly look up the wrapping sum of the
/// accumulator and the next component.
pub open spec fn white_fold(table: Seq<u8>, pos: Seq<u8>, n: int) -> u8
    decreases n,
{
    if n <= 0 || table.len() != 256 || n > pos.len() {
        0
    } else {
        table[(white_fold(table, pos, n - 1) as int + pos[n - 1] as int) % 256]
    }
}

impl SeedOnlyNoise for WhiteNoise {
    type Seed = u64;

    open spec fn seed_produces(seed: u64, inst: Self) -> bool {
        &&& inst.perm_table.0@ == perm_of(seed)
        &&& table_is_permutation(inst.perm_table.0@)
    }

    fn seed(seed: u64) -> (inst: Self) {
        WhiteNoise { perm_table: PermTable::new(seed) }
    }
}

/// Seeding a white noise configuration is deterministic: the instance's
/// whole state is the permutation table that the seed produces.
pub proof fn lemma_white_seeding_deterministic()
    ensures
        seeds_deterministically::<EmptyConfig<WhiteNoise>>(),
{
    assert forall|c: EmptyConfig<WhiteNoise>, seed: u64, i1: WhiteNoise, i2: WhiteNoise|
        c.seeds_to(seed, i1) && c.seeds_to(seed, i2) implies i1 == i2 by {
        assert(i1.perm_table.0@ == i2.perm_table.0@);
        assert(i1.perm_table.0 =~= i2.perm_table.0);
    }
}

impl Noise for WhiteNoise {
    type Value = u8;
}

impl Seeded for WhiteNoise {
    type Config = EmptyConfig<WhiteNoise>;
}

impl<const N: usize> NoiseDomain<[u8; N]> for WhiteNoise {
    open spec fn noise_spec(&self, pos: [u8; N]) -> u8 {
        white_fold(self.perm_table.0@, pos@, N as int)
    }

    fn noise(&self, pos: [u8; N]) -> (r: u8) {
        let mut acc: u8 = 0;
        let mut i: usize = 0;
        while i < N
            invariant
                0 <= i <= N,
                acc == white_fold(self.perm_table.0@, pos@, i as int),
            decreases N - i,
        {
            acc = self.perm_table.0[acc.wrapping_add(pos[i]) as usize];
            i = i + 1;
        }
        acc
    }
}

} // verus!
