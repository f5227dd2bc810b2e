//! Tests of the permutation table and the white noise built on it.

use noise_fn::{NoiseDomain, Seedable, WhiteNoise};
use noise_fn::perm_table::PermTable;

fn assert_bijection(table: &[u8; 256]) {
    let mut seen = [false; 256];
    for &v in table.iter() {
        assert!(!seen[v as usize], "value {} appears twice", v);
        seen[v as usize] = true;
    }
    assert!(seen.iter().all(|&s| s), "some value is missing");
}

#[test]
fn perm_table_is_bijection() {
    for seed in [0u64, 1, 2, 12345, u64::MAX] {
        let table = PermTable::new(seed);
        assert_bijection(&table.0);
    }
}

#[test]
fn perm_table_is_deterministic() {
    let a = PermTable::new(424242);
    let b = PermTable::new(424242);
    assert_eq!(a.0, b.0);
}

#[test]
fn perm_table_varies_with_seed() {
    let a = PermTable::new(1);
    let b = PermTable::new(2);
    assert_ne!(a.0, b.0);
}

#[test]
fn perm_table_is_not_the_identity() {
    // the shuffle actually moves entries around
    let identity: Vec<u8> = (0u8..=255).collect();
    for seed in [0u64, 1, 12345] {
        let table = PermTable::new(seed);
        assert_ne!(&table.0[..], &identity[..]);
    }
}

#[test]
fn white_noise_folds_through_table() {
    let inst = WhiteNoise::new().seed(7);
    let table = &inst.perm_table.0;
    // one axis: a single lookup
    assert_eq!(inst.noise([5u8]), table[5]);
    // two axes: the second lookup starts from the first's result
    let first = table[200];
    let expected = table[first.wrapping_add(60) as usize];
    assert_eq!(inst.noise([200u8, 60]), expected);
    // empty coordinate: the accumulator stays 0
    assert_eq!(inst.noise([] as [u8; 0]), 0);
}

#[test]
fn white_noise_varies_with_coordinate() {
    let inst = WhiteNoise::new().seed(11);
    let outputs: Vec<u8> = (0u8..=255).map(|a| inst.noise([a])).collect();
    let mut sorted = outputs.clone();
    sorted.sort();
    sorted.dedup();
    // one axis walks the whole table, so all 256 outputs are distinct
    assert_eq!(sorted.len(), 256);
}
