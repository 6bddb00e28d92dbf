//! The identifier hasher: maps a name to its 32-bit `ScHname`.
//!
//! The identifier is derived from the BLAKE2b-256 digest of the name's UTF-8
//! bytes: the digest is scanned in 4-byte little-endian words from the front,
//! and the first non-zero word is the identifier; if every word is zero, the
//! identifier is 1. The derivation must stay bit-exact, since a host that
//! dispatches calls computes the same identifier from the same name.

use vstd::prelude::*;

verus! {

/// The BLAKE2b-256 digest of a name's UTF-8 bytes; a function of the
/// characters alone.
pub uninterp spec fn blake2b256_of(name: Seq<char>) -> Seq<u8>;

/// Relies on `blake2b_simd::Params::hash` with `hash_length(32)`: the
/// BLAKE2b-256 digest of the input bytes, 32 bytes long, a function of the
/// input alone.
#[verifier::external_body]
fn blake2b256(name: &str) -> (digest: Vec<u8>)
    ensures
        digest@ == blake2b256_of(name@),
        digest@.len() == 32,
{
    blake2b_simd::Params::new().hash_length(32).hash(name.as_bytes()).as_bytes().to_vec()
}

/// The little-endian 32-bit word of `d` at byte offset `i`.
pub open spec fn word_at(d: Seq<u8>, i: int) -> u32
    recommends
        0 <= i,
        i + 4 <= d.len(),
{
    (d[i] as u32) | ((d[i + 1] as u32) << 8) | ((d[i + 2] as u32) << 16) | ((d[i + 3] as u32)
        << 24)
}

/// The first non-zero little-endian word of `d` at offsets `i`, `i + 4`, ...,
/// 28; 1 if all of them are zero.
pub open spec fn first_nonzero_word(d: Seq<u8>, i: int) -> u32
    decreases 32 - i,
{
    if i < 0 || i + 4 > 32 {
        1
    } else if word_at(d, i) != 0 {
        word_at(d, i)
    } else {
        first_nonzero_word(d, i + 4)
    }
}

/// The 32-bit identifier of a name.
pub open spec fn hname_of(name: Seq<char>) -> u32 {
    first_nonzero_word(blake2b256_of(name), 0)
}

/// A 32-bit hashed identifier derived from a contract, function or view name,
/// used for on-chain dispatch.
#[derive(Clone, Copy, Debug, PartialEq, Eq, Structural)]
pub struct ScHname(pub u32);

/// Extracts the identifier from a 32-byte digest: the first non-zero
/// little-endian word, or 1 if every word is zero.
pub fn hname_from_digest(digest: &[u8]) -> (r: u32)
    requires
        digest@.len() == 32,
    ensures
        r == first_nonzero_word(digest@, 0),
{
    let mut i: usize = 0;
    while i + 4 <= 32
        invariant
            digest@.len() == 32,
            i % 4 == 0,
            i <= 32,
            first_nonzero_word(digest@, 0) == first_nonzero_word(digest@, i as int),
        decreases 32 - i,
    {
        let w: u32 = (digest[i] as u32) | ((digest[i + 1] as u32) << 8) | ((digest[i + 2] as u32)
            << 16) | ((digest[i + 3] as u32) << 24);
        assert(w == word_at(digest@, i as int));
        if w != 0 {
            return w;
        }
        i = i + 4;
    }
    1
}

/// Hashes a name to its 32-bit identifier.
pub fn hash(name: &str) -> (r: u32)
    ensures
        r == hname_of(name@),
{
    let digest = blake2b256(name);
    hname_from_digest(digest.as_slice())
}

/// The identifier scheme is deterministic: two hashes of the same non-empty
/// name are the same value.
pub proof fn lemma_hash_deterministic(name: Seq<char>, r1: u32, r2: u32)
    requires
        name.len() > 0,
        r1 == hname_of(name),
        r2 == hname_of(name),
    ensures
        r1 == r2,
{
}

} // verus!
