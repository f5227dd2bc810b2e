//! Convert random 64-bit unsigned values to IEEE-754 doubles in `[0, 1)`,
//! carried as bit patterns.
//!
//! Zero maps to exactly 0.0. A nonzero input keeps its leading-one position
//! as the exponent and the 52 bits after the leading one as the mantissa,
//! preserving bit density near zero instead of wasting mantissa bits on
//! small magnitudes. Because the sign bit is 0 and the result is below the
//! encoding of 1.0, the usual unsigned order on the bit patterns is exactly
//! the order of the doubles they encode.

use crate::noise::{seeds_deterministically, Noise, NoiseDomain, Seedable, Seeded};
use vstd::prelude::*;
use vstd::std_specs::bits::{axiom_u64_leading_zeros, u64_leading_zeros};

verus! {

/// The bit pattern of 1.0: sign 0, exponent 1023, mantissa 0. Every result
/// of the conversion lies strictly below it.
pub const ONE_F64_BITS: u64 = 0x3FF0000000000000;

/// The IEEE-754 double bit pattern for a 64-bit input: 0 for 0, else sign 0,
/// exponent `1022 - (leading zeros)`, mantissa the 52 bits after the leading
/// one.
pub open spec fn unit_bits_of(v: u64) -> u64 {
    if v == 0 {
        0u64
    } else {
        let s = u64_leading_zeros(v) as u64;
        (((1022 - s) as u64) << 52u64) | (((v << s) << 1u64) >> 12u64)
    }
}

/// Assemble the double's bit pattern for `v`; the result encodes a value in
/// `[0.0, 1.0)`, is 0 exactly on input 0, and is monotone in `v`.
pub fn unit_float_bits(v: u64) -> (r: u64)
    ensures
        r == unit_bits_of(v),
        r < ONE_F64_BITS,
        r == 0 <==> v == 0,
{
    if v == 0 {
        0
    } else {
        proof {
            axiom_u64_leading_zeros(v);
        }
        let shift: u64 = v.leading_zeros() as u64;
        let exponent: u64 = 1022 - shift;
        let mantissa: u64 = ((v << shift) << 1u64) >> 12u64;
        let r = (exponent << 52u64) | mantissa;
        proof {
            let e = exponent;
            let m = mantissa;
            let s = shift;
            assert(959 <= e <= 1022);
            assert(m < 0x10000000000000u64) by (bit_vector)
                requires
                    m == ((v << s) << 1u64) >> 12u64,
            ;
            assert(((e << 52u64) | m) < 0x3FF0000000000000u64 && ((e << 52u64) | m) > 0u64)
                by (bit_vector)
                requires
                    959 <= e <= 1022,
                    m < 0x10000000000000u64,
            ;
        }
        r
    }
}

/// The byte-valued variant of the conversion: a byte scaled into the top
/// byte of a 64-bit word has the same leading-zero count and the same bits
/// after its leading one, so this is the conversion a byte-valued generator
/// feeds through.
pub fn unit_float_bits_u8(v: u8) -> (r: u64)
    ensures
        r == unit_bits_of((v as u64) << 56u64),
        r < ONE_F64_BITS,
        r == 0 <==> v == 0,
{
    proof {
        assert(v == 0 <==> ((v as u64) << 56u64) == 0u64) by (bit_vector);
    }
    unit_float_bits((v as u64) << 56u64)
}

/// The conversion is monotone: a larger unsigned input never yields a
/// smaller bit pattern, hence never a smaller double.
pub proof fn lemma_unit_bits_monotone(v1: u64, v2: u64)
    requires
        v1 <= v2,
    ensures
        unit_bits_of(v1) <= unit_bits_of(v2),
{
    if v1 == 0 {
        // the result for 0 is 0, the least bit pattern
    } else {
        lemma_unit_bits_monotone_nonzero(v1, v2);
    }
}

proof fn lemma_unit_bits_monotone_nonzero(v1: u64, v2: u64)
    requires
        0 < v1 <= v2,
    ensures
        unit_bits_of(v1) <= unit_bits_of(v2),
{
    axiom_u64_leading_zeros(v1);
    axiom_u64_leading_zeros(v2);
    let s1 = u64_leading_zeros(v1) as u64;
    let s2 = u64_leading_zeros(v2) as u64;
    assert(s1 <= 63 && s2 <= 63);
    let b1 = (63 - s1) as u64;
    let b2 = (63 - s2) as u64;
    let t1 = (64 - s1) as u64;
    let t2 = (64 - s2) as u64;
    assert((v1 >> b1) & 1u64 != 0u64);
    assert((v2 >> b2) & 1u64 != 0u64);
    assert(v1 >> t1 == 0u64);
    assert(v2 >> t2 == 0u64);
    // a larger value cannot have more leading zeros
    assert(s2 <= s1) by (bit_vector)
        requires
            v1 <= v2,
            s1 <= 63,
            s2 <= 63,
            b1 == 63u64 - s1,
            t2 == 64u64 - s2,
            (v1 >> b1) & 1u64 != 0u64,
            v2 >> t2 == 0u64,
    ;
    let m1 = ((v1 << s1) << 1u64) >> 12u64;
    let m2 = ((v2 << s2) << 1u64) >> 12u64;
    let e1 = (1022 - s1) as u64;
    let e2 = (1022 - s2) as u64;
    assert(m1 < 0x10000000000000u64) by (bit_vector)
        requires
            m1 == ((v1 << s1) << 1u64) >> 12u64,
    ;
    assert(m2 < 0x10000000000000u64) by (bit_vector)
        requires
            m2 == ((v2 << s2) << 1u64) >> 12u64,
    ;
    if s1 == s2 {
        // same exponent: with the leading one aligned, the mantissa order
        // follows the input order
        assert(m1 <= m2) by (bit_vector)
            requires
                v1 <= v2,
                s1 <= 63,
                m1 == ((v1 << s1) << 1u64) >> 12u64,
                m2 == ((v2 << s1) << 1u64) >> 12u64,
                t1 == 64u64 - s1,
                v1 >> t1 == 0u64,
                v2 >> t1 == 0u64,
                b1 == 63u64 - s1,
                (v1 >> b1) & 1u64 != 0u64,
                (v2 >> b1) & 1u64 != 0u64,
        ;
        assert(((e1 << 52u64) | m1) <= ((e1 << 52u64) | m2)) by (bit_vector)
            requires
                m1 <= m2,
                m1 < 0x10000000000000u64,
                m2 < 0x10000000000000u64,
                e1 <= 1022,
        ;
    } else {
        // fewer leading zeros means a strictly larger exponent, which
        // dominates whatever the mantissas are
        assert(e1 < e2 && e2 <= 1022);
        assert(((e1 << 52u64) | m1) <= ((e2 << 52u64) | m2)) by (bit_vector)
            requires
                e1 < e2,
                e2 <= 1022,
                m1 < 0x10000000000000u64,
                m2 < 0x10000000000000u64,
        ;
    }
}

/// A noise combinator that maps an inner generator's 64-bit output to the
/// bit pattern of a double in `[0, 1)`.
#[derive(Clone, Copy)]
pub struct ToFloat<Inner> {
    pub inner: Inner,
}

impl<Inner: Noise> Noise for ToFloat<Inner> {
    type Value = u64;
}

impl<Inner> ToFloat<Inner> {
    pub fn new(inner: Inner) -> (r: ToFloat<Inner>)
        ensures
            r.inner == inner,
    {
        ToFloat { inner }
    }

    /// The evaluation path for a byte-valued inner generator: its output
    /// feeds the byte variant of the conversion.
    pub fn noise_from_bytes<Arg>(&self, arg: Arg) -> (r: u64) where
        Inner: Noise<Value = u8> + NoiseDomain<Arg>,
        ensures
            r == unit_bits_of((self.inner.noise_spec(arg) as u64) << 56u64),
            r < ONE_F64_BITS,
    {
        unit_float_bits_u8(self.inner.noise(arg))
    }
}

impl<Inner: Seedable> Seedable for ToFloat<Inner> {
    type Seed = Inner::Seed;

    type Seeded = ToFloat<Inner::Seeded>;

    open spec fn seeds_to(self, seed: Inner::Seed, inst: Self::Seeded) -> bool {
        self.inner.seeds_to(seed, inst.inner)
    }

    fn seed(self, seed: Inner::Seed) -> (inst: Self::Seeded) {
        ToFloat { inner: self.inner.seed(seed) }
    }
}

impl<Inner: Seeded> Seeded for ToFloat<Inner> {
    type Config = ToFloat<Inner::Config>;
}

/// Determinism is preserved: if seeding the inner configuration is
/// deterministic, so is seeding the conversion wrapper around it.
pub proof fn lemma_to_float_seeding_deterministic<Inner: Seedable>()
    requires
        seeds_deterministically::<Inner>(),
    ensures
        seeds_deterministically::<ToFloat<Inner>>(),
{
    assert forall|c: ToFloat<Inner>, seed: Inner::Seed, i1: ToFloat<Inner::Seeded>, i2: ToFloat<
        Inner::Seeded,
    >|
        c.seeds_to(seed, i1) && c.seeds_to(seed, i2) implies i1 == i2 by {
        assert(i1.inner == i2.inner);
    }
}

impl<Arg, Inner: Noise<Value = u64> + NoiseDomain<Arg>> NoiseDomain<Arg> for ToFloat<Inner> {
    open spec fn noise_spec(&self, arg: Arg) -> u64 {
        unit_bits_of(self.inner.noise_spec(arg))
    }

    fn noise(&self, arg: Arg) -> (r: u64) {
        unit_float_bits(self.inner.noise(arg))
    }
}

} // verus!
