//! Tests of the seeding and composition protocol: determinism, seed
//! splitting, and pass-through seeding.

use noise_fn::{
    AddNoise, HashNoise, NoiseDomain, ScaleNoise, Seedable, Simplex, SplitSeed, SumNoise, ToFloat,
    WhiteNoise,
};

#[test]
fn split_is_deterministic() {
    let seed: u64 = 0xDEADBEEF;
    assert_eq!(seed.split(0), seed.split(0));
    assert_eq!(seed.split(7), seed.split(7));
}

#[test]
fn split_children_differ() {
    let seed: u64 = 12345;
    assert_ne!(seed.split(0), seed.split(1));
    assert_ne!(seed.split(1), seed.split(2));
    assert_ne!(seed.split(0), seed);
}

#[test]
fn split_varies_with_seed() {
    assert_ne!(1u64.split(0), 2u64.split(0));
    assert_ne!(1u64.split(1), 2u64.split(1));
}

#[test]
fn hash_seeding_is_deterministic() {
    let a = HashNoise::new().seed(42);
    let b = HashNoise::new().seed(42);
    assert_eq!(a.seed, b.seed);
    assert_eq!(a.noise(17i64), b.noise(17i64));
    assert_eq!(a.noise([1i64, -2]), b.noise([1i64, -2]));
}

#[test]
fn hash_noise_varies_with_coordinate() {
    let inst = HashNoise::new().seed(42);
    assert_ne!(inst.noise([0i64, 0]), inst.noise([0i64, 1]));
    assert_ne!(inst.noise([1i64, 0]), inst.noise([0i64, 0]));
    // the hash does not just hand a coordinate back
    assert_ne!(inst.noise(5i64), 5u64);
}

#[test]
fn hash_noise_covers_higher_dimensions() {
    let inst = HashNoise::new().seed(314);
    assert_eq!(inst.noise([1i64, 2, 3]), inst.noise([1i64, 2, 3]));
    assert_eq!(inst.noise([1i64, 2, 3, 4]), inst.noise([1i64, 2, 3, 4]));
    assert_ne!(inst.noise([1i64, 2, 3]), inst.noise([3i64, 2, 1]));
    assert_ne!(inst.noise([1i64, 2, 3, 4]), inst.noise([4i64, 3, 2, 1]));
}

#[test]
fn hash_noise_varies_with_seed() {
    let a = HashNoise::new().seed(1);
    let b = HashNoise::new().seed(2);
    assert_ne!(a.noise([3i64, 4]), b.noise([3i64, 4]));
}

#[test]
fn add_seeds_children_with_split_seeds() {
    let seed: u64 = 977;
    let combo = AddNoise::new(HashNoise::new(), HashNoise::new());
    let inst = combo.seed(seed);
    assert_eq!(inst.inner1.seed, seed.split(0));
    assert_eq!(inst.inner2.seed, seed.split(1));
    assert_ne!(inst.inner1.seed, inst.inner2.seed);
}

#[test]
fn add_children_decorrelated_across_seeds() {
    // varying the root seed changes both children
    let a = AddNoise::new(HashNoise::new(), HashNoise::new()).seed(1);
    let b = AddNoise::new(HashNoise::new(), HashNoise::new()).seed(2);
    assert_ne!(a.inner1.seed, b.inner1.seed);
    assert_ne!(a.inner2.seed, b.inner2.seed);
}

#[test]
fn add_children_outputs_are_uncorrelated() {
    // across a sample of seeds, the two children never agree at a coordinate
    for seed in 0u64..32 {
        let inst = AddNoise::new(HashNoise::new(), HashNoise::new()).seed(seed);
        assert_ne!(inst.inner1.noise([3i64, 4]), inst.inner2.noise([3i64, 4]));
    }
}

#[test]
fn sum_seeds_children_by_index() {
    let seed: u64 = 31337;
    let combo = SumNoise::new(vec![HashNoise::new(), HashNoise::new(), HashNoise::new()]);
    let inst = combo.seed(seed);
    assert_eq!(inst.inners.len(), 3);
    for k in 0..3usize {
        assert_eq!(inst.inners[k].seed, seed.split(k));
    }
}

#[test]
fn scale_passes_seed_through_unchanged() {
    let seed: u64 = 555;
    let config = ScaleNoise::new(HashNoise::new(), 3i64, 7i64);
    let inst = config.seed(seed);
    assert_eq!(inst.inner.seed, seed);
    assert_eq!(inst.scale_in, 3);
    assert_eq!(inst.scale_out, 7);
}

#[test]
fn to_float_passes_seed_through_unchanged() {
    let seed: u64 = 808;
    let inst = ToFloat::new(HashNoise::new()).seed(seed);
    assert_eq!(inst.inner.seed, seed);
}

#[test]
fn simplex_seeding_is_deterministic() {
    let a = Simplex::new().seed(12345);
    let b = Simplex::new().seed(12345);
    assert_eq!(a.inner.seed, b.inner.seed);
    assert_eq!(a.hash().seed, 12345);
}

#[test]
fn white_noise_seeding_is_deterministic() {
    let a = WhiteNoise::new().seed(99);
    let b = WhiteNoise::new().seed(99);
    assert_eq!(a.perm_table.0, b.perm_table.0);
    assert_eq!(a.noise([1u8, 2, 3]), b.noise([1u8, 2, 3]));
}

#[test]
fn golden_values_are_stable() {
    let hash = HashNoise::new().seed(12345);
    let white = WhiteNoise::new().seed(12345);
    let tofloat = ToFloat::new(HashNoise::new()).seed(12345);
    assert_eq!(
        (
            hash.noise([1i64, -3]),
            12345u64.split(0),
            12345u64.split(1),
            white.noise([7u8, 9]),
            tofloat.noise([1i64, -3]),
        ),
        (
            2856702417080950578u64,
            6676980469385067261u64,
            2773846264561272431u64,
            243u8,
            4594747517198896655u64,
        )
    );
}
