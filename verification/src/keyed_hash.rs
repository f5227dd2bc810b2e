//! Trusted binding to the `wyhash` crate, the keyed hash used as the
//! library's randomness primitive.

use core::hash::Hash;
use core::hash::Hasher;
use vstd::prelude::*;

verus! {

/// The value that the wyhash keyed hash returns for a key and a sequence of
/// 64-bit words. It depends on its arguments alone: hashing the same words
/// under the same key always yields the same value (the standard library's
/// byte encoding of the words is the target's, so the value is fixed per
/// platform).
pub uninterp spec fn wyhash_of(key: u64, words: Seq<u64>) -> u64;

/// Relies on `wyhash::WyHash` (`with_seed`, `Hasher::write` reached through
/// `Hash::hash`, and `finish`): the result is a pure function of the key and
/// the bytes written, and the bytes a `&[u64]` writes — a length prefix and
/// each word's bytes in order — are determined by the words alone.
#[verifier::external_body]
pub(crate) fn wyhash_words(key: u64, words: &[u64]) -> (r: u64)
    ensures
        r == wyhash_of(key, words@),
{
    let mut hasher = wyhash::WyHash::with_seed(key);
    words.hash(&mut hasher);
    hasher.finish()
}

} // verus!
