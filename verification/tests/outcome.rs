//! Outcome derivation: against an independent computation of the same fold,
//! plus determinism and range.

use dice_settlement::ed25519::ed25519_verifier_id;
use dice_settlement::outcome::derive_outcome;

/// The same fold, computed independently of the library: SHA-256 of the
/// signature, halves read little-endian, wrapping sum, reduced into 1..=100.
fn independent_outcome(sig: &[u8]) -> u8 {
    let digest = solana_program::hash::hash(sig).to_bytes();
    let mut half = [0u8; 16];
    half.copy_from_slice(&digest[0..16]);
    let lower = u128::from_le_bytes(half);
    half.copy_from_slice(&digest[16..32]);
    let upper = u128::from_le_bytes(half);
    (lower.wrapping_add(upper) % 100) as u8 + 1
}

#[test]
fn matches_an_independent_digest_fold() {
    let mut sig = vec![0u8; 64];
    for round in 0..200u32 {
        sig[0..4].copy_from_slice(&round.to_le_bytes());
        assert_eq!(derive_outcome(&sig), independent_outcome(&sig));
    }
}

#[test]
fn outcome_is_deterministic() {
    let sig = vec![0xabu8; 64];
    assert_eq!(derive_outcome(&sig), derive_outcome(&sig));
}

#[test]
fn outcome_stays_in_range() {
    let mut sig = vec![0u8; 64];
    for round in 0..500u32 {
        sig[0..4].copy_from_slice(&round.to_le_bytes());
        let outcome = derive_outcome(&sig);
        assert!((1..=100).contains(&outcome));
    }
}

#[test]
fn different_signatures_can_give_different_outcomes() {
    // the deriver reads the signature: it is not a constant function
    let mut seen = [false; 101];
    let mut sig = vec![0u8; 64];
    for round in 0..64u32 {
        sig[0..4].copy_from_slice(&round.to_le_bytes());
        seen[derive_outcome(&sig) as usize] = true;
    }
    assert!(seen.iter().filter(|&&s| s).count() > 1);
}

#[test]
fn verifier_id_is_the_ed25519_facility() {
    assert_eq!(
        ed25519_verifier_id(),
        solana_program::ed25519_program::ID.to_bytes()
    );
}
