//! The outcome deriver: folds a digest of the attestation into a roll.
//!
//! The signature bytes are hashed, the 32-byte digest is split into two
//! little-endian 128-bit halves, the halves are summed with intentional
//! wraparound, and the sum is reduced into the range 1..=100. Wraparound is
//! deliberate here, and only here: it mixes unpredictability, it is not an
//! error condition.

use vstd::bytes::*;
use vstd::prelude::*;

verus! {

/// The SHA-256 digest of `data`. Its definition lives outside this crate;
/// the contracts here rely only on it being a function of `data` alone.
pub uninterp spec fn sha256_of(data: Seq<u8>) -> Seq<u8>;

/// Relies on `solana_program::hash::hash`: the SHA-256 digest of the input,
/// 32 bytes, a function of the input bytes alone.
#[verifier::external_body]
fn sha256_digest(data: &[u8]) -> (digest: Vec<u8>)
    ensures
        digest@ == sha256_of(data@),
        digest@.len() == 32,
{
    solana_program::hash::hash(data).to_bytes().to_vec()
}

/// Sum modulo 2^128: the one place wraparound is intended.
pub open spec fn spec_wrapping_sum(a: u128, b: u128) -> u128 {
    if a + b > u128::MAX {
        (a + b - 0x1_0000_0000_0000_0000_0000_0000_0000_0000) as u128
    } else {
        (a + b) as u128
    }
}

/// Folds a 32-byte digest into an outcome in 1..=100.
pub open spec fn spec_fold_digest(digest: Seq<u8>) -> u8
    recommends
        digest.len() == 32,
{
    let lower = spec_u128_from_le_bytes(digest.subrange(0, 16));
    let upper = spec_u128_from_le_bytes(digest.subrange(16, 32));
    (spec_wrapping_sum(lower, upper) % 100 + 1) as u8
}

/// The outcome derived from raw signature bytes.
pub open spec fn spec_outcome(sig: Seq<u8>) -> u8 {
    spec_fold_digest(sha256_of(sig))
}

/// Law: every derived outcome lies in 1..=100, whatever the signature.
pub proof fn lemma_outcome_in_range(sig: Seq<u8>)
    ensures
        1 <= spec_outcome(sig) <= 100,
{
    let digest = sha256_of(sig);
    let lower = spec_u128_from_le_bytes(digest.subrange(0, 16));
    let upper = spec_u128_from_le_bytes(digest.subrange(16, 32));
    assert(0 <= spec_wrapping_sum(lower, upper) % 100 < 100);
}

/// Derives the pseudorandom outcome from the attestation's raw signature
/// bytes. Deterministic: the result is a function of `sig` alone.
pub fn derive_outcome(sig: &[u8]) -> (outcome: u8)
    ensures
        outcome == spec_outcome(sig@),
        1 <= outcome <= 100,
{
    let digest = sha256_digest(sig);
    let lower = u128_from_le_bytes(vstd::slice::slice_subrange(digest.as_slice(), 0, 16));
    let upper = u128_from_le_bytes(vstd::slice::slice_subrange(digest.as_slice(), 16, 32));
    let folded = lower.wrapping_add(upper);
    proof {
        assert(folded == spec_wrapping_sum(lower, upper));
    }
    (folded % 100) as u8 + 1
}

} // verus!
