//! A table consisting of a permutation of the numbers `0..=255`, derived
//! once per seed by a Fisher-Yates-style shuffle.

use crate::rng::{draw_of, rng_below, rng_from_seed};
use vstd::prelude::*;
use vstd::seq_lib::*;
use vstd::set_lib::{lemma_int_range, lemma_subset_equality, set_int_range};

verus! {

/// A table consisting of a permutation of the numbers `0..=255`;
#[derive(Clone, Copy)]
pub struct PermTable(pub [u8; 256]);

/// The table holds 256 pairwise distinct bytes; since there are exactly 256
/// byte values, it is then a bijection on `0..=255`.
pub open spec fn table_is_permutation(t: Seq<u8>) -> bool {
    &&& t.len() == 256
    &&& forall|k1: int, k2: int| 0 <= k1 < k2 < 256 ==> t[k1] != t[k2]
}

/// The all-zero table the shuffle starts from.
pub open spec fn perm_init() -> Seq<u8> {
    Seq::new(256, |k: int| 0u8)
}

/// The bounds of the draws the shuffle makes before step `n + 1`: one draw
/// per step, bounded by the step index.
pub open spec fn perm_history(n: int) -> Seq<u8>
    decreases n,
{
    if n <= 0 {
        Seq::empty()
    } else {
        perm_history(n - 1).push(n as u8)
    }
}

/// The table after the shuffle's steps `1..=n` for `seed`: step `i` draws
/// `j` bounded by `i`, moves the entry at slot `j` to slot `i`, and puts
/// `i` at slot `j`.
pub open spec fn perm_step(seed: u64, n: int) -> Seq<u8>
    decreases n,
{
    if n <= 0 {
        perm_init()
    } else {
        let prev = perm_step(seed, n - 1);
        let j = draw_of(seed, perm_history(n - 1), n as u8) as int;
        prev.update(n, prev[j]).update(j, n as u8)
    }
}

/// The permutation table that `seed` produces.
pub open spec fn perm_of(seed: u64) -> Seq<u8> {
    perm_step(seed, 255)
}

impl PermTable {
    /// Build the table for `seed`: for each `i` from 1 upward, draw a
    /// uniform slot `j <= i`, move the entry at `j` to slot `i`, and put `i`
    /// at slot `j`. The result is exactly `perm_of(seed)`, and whatever the
    /// generator draws, it holds 256 pairwise distinct bytes.
    pub fn new(seed: u64) -> (r: PermTable)
        ensures
            r.0@ == perm_of(seed),
            table_is_permutation(r.0@),
    {
        let mut rng = rng_from_seed(seed);
        let mut table: [u8; 256] = [0u8; 256];
        proof {
            assert(table@ =~= perm_init());
        }
        let mut i: usize = 1;
        while i < 256
            invariant
                1 <= i <= 256,
                rng.seed@ == seed,
                rng.history@ == perm_history(i - 1),
                table@ == perm_step(seed, i - 1),
                forall|k: int| 0 <= k < i ==> (table@[k] as int) < i as int,
                forall|k1: int, k2: int| 0 <= k1 < k2 < i ==> table@[k1] != table@[k2],
            decreases 256 - i,
        {
            let j = rng_below(&mut rng, i as u8);
            let moved = table[j as usize];
            table[i] = moved;
            table[j as usize] = i as u8;
            proof {
                assert(perm_history(i as int) == perm_history(i - 1).push(i as u8));
                assert(table@ == perm_step(seed, i as int));
            }
            i = i + 1;
        }
        PermTable(table)
    }
}

/// The value `v` occurs somewhere in the table.
pub open spec fn table_contains(t: Seq<u8>, v: u8) -> bool {
    exists|k: int| 0 <= k < 256 && t[k] == v
}

/// Every byte value occurs in a permutation table: with 256 pairwise
/// distinct entries drawn from the 256 byte values, none can be missing.
pub proof fn lemma_permutation_surjective(t: Seq<u8>)
    requires
        table_is_permutation(t),
    ensures
        forall|v: u8| #[trigger] table_contains(t, v),
{
    let m = t.map_values(|x: u8| x as int);
    assert(m.no_duplicates());
    m.unique_seq_to_set();
    lemma_int_range(0, 256);
    assert(m.to_set().subset_of(set_int_range(0, 256)));
    lemma_subset_equality(m.to_set(), set_int_range(0, 256));
    assert forall|v: u8| #[trigger] table_contains(t, v) by {
        assert(set_int_range(0, 256).contains(v as int));
        assert(m.to_set().contains(v as int));
        let k = choose|k: int| 0 <= k < m.len() && m[k] == v as int;
        assert(0 <= k < 256 && t[k] == v);
    }
}

} // verus!
