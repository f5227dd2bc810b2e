//! Composable, deterministically seeded noise functions.
//!
//! A configuration value describes a generator; applying a 64-bit seed to it
//! yields an immutable seeded instance whose evaluation is a pure function of
//! the instance and the sample coordinate. Combinators split their seed into
//! independent child seeds, so every leaf of a composition tree gets a
//! distinct, reproducible sub-seed.

pub mod add;
pub mod constant;
pub mod hash;
pub mod helpers;
pub mod keyed_hash;
pub mod noise;
pub mod perm_table;
pub mod rng;
pub mod scale;
pub mod simplex;
pub mod sum;
pub mod to_float;
pub mod white;

pub use add::AddNoise;
pub use constant::Constant;
pub use hash::HashNoise;
pub use helpers::Config;
pub use noise::{Noise, NoiseDomain, Seedable, SplitSeed};
pub use scale::ScaleNoise;
pub use simplex::Simplex;
pub use sum::SumNoise;
pub use to_float::ToFloat;
pub use white::WhiteNoise;
