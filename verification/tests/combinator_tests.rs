//! Tests of the trivial generators and the combinator scaffolding.

use noise_fn::helpers::IgnoreSeed;
use noise_fn::{Constant, HashNoise, NoiseDomain, Seedable, Simplex};

#[test]
fn constant_ignores_coordinate() {
    let c = Constant::new(9u64);
    assert_eq!(c.noise([1i64, 2]), 9);
    assert_eq!(c.noise([3i64, 4]), 9);
    assert_eq!(c.noise(0i64), 9);
}

#[test]
fn ignore_seed_keeps_inner_and_ignores_seed() {
    let inner = HashNoise::new().seed(77);
    let wrapped = IgnoreSeed::<u64, HashNoise>::new(inner);
    let seeded = wrapped.seed(123456);
    assert_eq!(seeded.inner.seed, 77);
    assert_eq!(seeded.noise([1i64, 2]), inner.noise([1i64, 2]));
}

#[test]
fn gradient_index_reduces_hash() {
    let inst = Simplex::new().seed(12345);
    let h = inst.hash().noise([10i64, -3]);
    let idx3 = Simplex::gradient_index(h, 12);
    let idx4 = Simplex::gradient_index(h, 32);
    assert_eq!(idx3, h % 12);
    assert_eq!(idx4, h % 32);
    assert!(idx3 < 12);
    assert!(idx4 < 32);
}

#[test]
fn simplex_state_is_the_keyed_hash() {
    let inst = Simplex::new().seed(31415);
    assert_eq!(inst.inner.seed, 31415);
    let other = HashNoise::new().seed(31415);
    assert_eq!(inst.hash().noise([0i64, 0, 0]), other.noise([0i64, 0, 0]));
}
