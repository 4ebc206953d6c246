//! A verifiable-outcome wager settlement engine.
//!
//! Given an already-placed bet (stake, threshold, derivation metadata), the
//! engine checks an oracle's signed attestation over the exact bet-record
//! bytes, folds a SHA-256 digest of the signature into a bounded outcome,
//! decides win or loss, computes a house-edge-adjusted payout with checked
//! arithmetic, and releases funds from the custodial pool to the player.

pub mod bet;
pub mod ed25519;
pub mod errors;
pub mod outcome;
pub mod settle;
pub mod util;
