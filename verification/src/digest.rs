//! FNV-1a-64 folding, the deterministic digest behind event streams and
//! report hashes (a diagnostic, not an anti-collision hash).

use vstd::prelude::*;
use vstd::string::StringSliceAdditionalSpecFns;

verus! {

/// FNV-1a-64 offset basis.
pub const FNV_OFFSET: u64 = 0xcbf2_9ce4_8422_2325;

/// FNV-1a-64 prime.
pub const FNV_PRIME: u64 = 0x0100_0000_01b3;

/// One FNV-1a step: xor in the byte, then multiply by the prime modulo 2^64.
pub open spec fn fnv_step(hash: u64, byte: u8) -> u64 {
    (hash ^ (byte as u64)).wrapping_mul(FNV_PRIME)
}

/// Folds `bytes`, first to last, into `hash`.
pub open spec fn fnv_fold(hash: u64, bytes: Seq<u8>) -> u64
    decreases bytes.len(),
{
    if bytes.len() == 0 {
        hash
    } else {
        fnv_step(fnv_fold(hash, bytes.drop_last()), bytes.last())
    }
}

/// The eight little-endian bytes of `value`.
pub open spec fn le_bytes(value: u64) -> Seq<u8> {
    Seq::new(8, |k: int| ((value >> ((8 * k) as u64)) & 0xff) as u8)
}

/// Folds `bytes` through FNV-1a-64 starting from `hash`.
pub fn fold_digest(hash: u64, bytes: &[u8]) -> (folded: u64)
    ensures
        folded == fnv_fold(hash, bytes@),
{
    let mut h = hash;
    let mut i: usize = 0;
    while i < bytes.len()
        invariant
            0 <= i <= bytes.len(),
            h == fnv_fold(hash, bytes@.subrange(0, i as int)),
        decreases bytes.len() - i,
    {
        proof {
            assert(bytes@.subrange(0, i as int + 1).drop_last() =~= bytes@.subrange(0, i as int));
        }
        h = (h ^ (bytes[i] as u64)).wrapping_mul(FNV_PRIME);
        i = i + 1;
    }
    assert(bytes@.subrange(0, bytes@.len() as int) =~= bytes@);
    h
}

/// Folds the eight little-endian bytes of `value` into `hash`.
pub fn fold_le_u64(hash: u64, value: u64) -> (folded: u64)
    ensures
        folded == fnv_fold(hash, le_bytes(value)),
{
    let mut h = hash;
    let mut k: u64 = 0;
    while k < 8
        invariant
            0 <= k <= 8,
            h == fnv_fold(hash, le_bytes(value).subrange(0, k as int)),
        decreases 8 - k,
    {
        let byte = ((value >> (8 * k)) & 0xff) as u8;
        proof {
            assert(le_bytes(value).subrange(0, k as int + 1).drop_last() =~= le_bytes(
                value,
            ).subrange(0, k as int));
            assert(le_bytes(value)[k as int] == byte);
        }
        h = (h ^ (byte as u64)).wrapping_mul(FNV_PRIME);
        k = k + 1;
    }
    assert(le_bytes(value).subrange(0, 8) =~= le_bytes(value));
    h
}

/// Incrementally folds a stream of bytes into a deterministic 64-bit hash.
pub struct Fnv(u64);

impl View for Fnv {
    type V = u64;

    closed spec fn view(&self) -> u64 {
        self.0
    }
}

impl Fnv {
    /// A fresh hash at the offset basis.
    pub fn new() -> (fnv: Fnv)
        ensures
            fnv@ == FNV_OFFSET,
    {
        Fnv(FNV_OFFSET)
    }

    /// Folds one byte.
    pub fn byte(&mut self, value: u8)
        ensures
            final(self)@ == fnv_step(old(self)@, value),
    {
        self.0 = (self.0 ^ (value as u64)).wrapping_mul(FNV_PRIME);
    }

    /// Folds the eight little-endian bytes of `value`.
    pub fn u64(&mut self, value: u64)
        ensures
            final(self)@ == fnv_fold(old(self)@, le_bytes(value)),
    {
        self.0 = fold_le_u64(self.0, value);
    }

    /// Folds the UTF-8 bytes of `value`.
    pub fn str(&mut self, value: &str)
        ensures
            final(self)@ == fnv_fold(old(self)@, value.spec_bytes()),
    {
        self.0 = fold_digest(self.0, value.as_bytes());
    }

    /// The hash of everything folded so far.
    pub fn finish(self) -> (hash: u64)
        ensures
            hash == self@,
    {
        self.0
    }
}

/// Folding two byte runs one after the other is folding their concatenation.
pub proof fn law_fold_concatenates(hash: u64, first: Seq<u8>, second: Seq<u8>)
    ensures
        fnv_fold(fnv_fold(hash, first), second) == fnv_fold(hash, first + second),
    decreases second.len(),
{
    if second.len() == 0 {
        assert(first + second =~= first);
    } else {
        law_fold_concatenates(hash, first, second.drop_last());
        assert((first + second).drop_last() =~= first + second.drop_last());
    }
}

} // verus!
