//! End-to-end resolution scenarios: wins, losses, replay, and the failures
//! that must leave every account untouched.

use dice_settlement::bet::Bet;
use dice_settlement::ed25519::{encode_verification_payload, VerifierInstruction};
use dice_settlement::errors::SettlementError;
use dice_settlement::outcome::derive_outcome;
use dice_settlement::settle::{resolve_bet, PoolAccount};

fn oracle_id() -> [u8; 32] {
    [7u8; 32]
}

fn verifier_id() -> [u8; 32] {
    solana_program::ed25519_program::ID.to_bytes()
}

fn make_bet(amount: u64, roll: u8) -> Bet {
    Bet {
        player: [1u8; 32],
        seed: 42,
        amount,
        roll,
        bump: 254,
    }
}

fn make_instruction(oracle: &[u8; 32], sig: &[u8], bet: &Bet) -> VerifierInstruction {
    let message = bet.message_bytes();
    VerifierInstruction {
        program_id: verifier_id(),
        num_accounts: 0,
        data: encode_verification_payload(oracle, sig, &message),
    }
}

/// Finds a 64-byte signature whose derived outcome is `outcome`.
fn find_sig_with_outcome(outcome: u8) -> Vec<u8> {
    let mut counter: u64 = 0;
    loop {
        let mut sig = vec![0u8; 64];
        sig[0..8].copy_from_slice(&counter.to_le_bytes());
        if derive_outcome(&sig) == outcome {
            return sig;
        }
        counter += 1;
    }
}

#[test]
fn win_at_roll_fifty_pays_exactly() {
    let sig = find_sig_with_outcome(10);
    let bet = make_bet(1_000_000, 50);
    let oracle = oracle_id();
    let ix = make_instruction(&oracle, &sig, &bet);
    let mut slot = Some(bet);
    let mut pool = PoolAccount {
        oracle,
        bump: 255,
        balance: 10_000_000,
    };
    let mut player: u64 = 500;
    let r = resolve_bet(&mut slot, &mut pool, &mut player, &ix, &sig);
    assert_eq!(r, Ok(()));
    // payout = floor(1_000_000 * 9850 / (49 * 100)) = 2_010_204
    assert_eq!(pool.balance, 10_000_000 - 2_010_204);
    assert_eq!(player, 500 + 2_010_204);
    assert!(slot.is_none());
}

#[test]
fn win_at_roll_two_pays_maximum_multiple() {
    let sig = find_sig_with_outcome(1);
    let bet = make_bet(1_000_000, 2);
    let oracle = oracle_id();
    let ix = make_instruction(&oracle, &sig, &bet);
    let mut slot = Some(bet);
    let mut pool = PoolAccount {
        oracle,
        bump: 255,
        balance: 200_000_000,
    };
    let mut player: u64 = 0;
    let r = resolve_bet(&mut slot, &mut pool, &mut player, &ix, &sig);
    assert_eq!(r, Ok(()));
    // payout = 1_000_000 * 9850 / (1 * 100) = 98_500_000
    assert_eq!(pool.balance, 200_000_000 - 98_500_000);
    assert_eq!(player, 98_500_000);
    assert!(slot.is_none());
}

#[test]
fn loss_destroys_record_without_transfer() {
    let sig = find_sig_with_outcome(75);
    let bet = make_bet(1_000_000, 50);
    let oracle = oracle_id();
    let ix = make_instruction(&oracle, &sig, &bet);
    let mut slot = Some(bet);
    let mut pool = PoolAccount {
        oracle,
        bump: 255,
        balance: 10_000_000,
    };
    let mut player: u64 = 500;
    let r = resolve_bet(&mut slot, &mut pool, &mut player, &ix, &sig);
    assert_eq!(r, Ok(()));
    assert_eq!(pool.balance, 10_000_000);
    assert_eq!(player, 500);
    assert!(slot.is_none());
}

#[test]
fn resubmission_after_destruction_fails_with_record_not_found() {
    let sig = find_sig_with_outcome(75);
    let bet = make_bet(1_000_000, 50);
    let oracle = oracle_id();
    let ix = make_instruction(&oracle, &sig, &bet);
    let mut slot = Some(bet);
    let mut pool = PoolAccount {
        oracle,
        bump: 255,
        balance: 10_000_000,
    };
    let mut player: u64 = 500;
    assert_eq!(resolve_bet(&mut slot, &mut pool, &mut player, &ix, &sig), Ok(()));
    assert!(slot.is_none());
    let r = resolve_bet(&mut slot, &mut pool, &mut player, &ix, &sig);
    assert_eq!(r, Err(SettlementError::RecordNotFound));
    assert_eq!(pool.balance, 10_000_000);
    assert_eq!(player, 500);
}

#[test]
fn resolution_is_reproducible() {
    let sig = find_sig_with_outcome(10);
    let bet = make_bet(1_000_000, 50);
    let oracle = oracle_id();
    let ix = make_instruction(&oracle, &sig, &bet);
    let mut results = Vec::new();
    for _ in 0..2 {
        let mut slot = Some(bet);
        let mut pool = PoolAccount {
            oracle,
            bump: 255,
            balance: 10_000_000,
        };
        let mut player: u64 = 500;
        let r = resolve_bet(&mut slot, &mut pool, &mut player, &ix, &sig);
        results.push((r, slot.is_none(), pool.balance, player));
    }
    assert_eq!(results[0], results[1]);
}

#[test]
fn missing_record_fails_without_crash() {
    let sig = vec![9u8; 64];
    let bet = make_bet(1, 50);
    let oracle = oracle_id();
    let ix = make_instruction(&oracle, &sig, &bet);
    let mut slot: Option<Bet> = None;
    let mut pool = PoolAccount {
        oracle,
        bump: 255,
        balance: 1_000,
    };
    let mut player: u64 = 0;
    let r = resolve_bet(&mut slot, &mut pool, &mut player, &ix, &sig);
    assert_eq!(r, Err(SettlementError::RecordNotFound));
}

#[test]
fn oversized_payout_aborts_with_arithmetic_overflow() {
    let sig = find_sig_with_outcome(1);
    let bet = make_bet(u64::MAX, 2);
    let oracle = oracle_id();
    let ix = make_instruction(&oracle, &sig, &bet);
    let mut slot = Some(bet);
    let mut pool = PoolAccount {
        oracle,
        bump: 255,
        balance: u64::MAX,
    };
    let mut player: u64 = 0;
    let r = resolve_bet(&mut slot, &mut pool, &mut player, &ix, &sig);
    assert_eq!(r, Err(SettlementError::ArithmeticOverflow));
    // a failed attempt leaves the bet resolvable and the balances untouched
    assert!(slot.is_some());
    assert_eq!(pool.balance, u64::MAX);
    assert_eq!(player, 0);
}

#[test]
fn underfunded_pool_aborts_with_transfer_failed() {
    let sig = find_sig_with_outcome(10);
    let bet = make_bet(1_000_000, 50);
    let oracle = oracle_id();
    let ix = make_instruction(&oracle, &sig, &bet);
    let mut slot = Some(bet);
    let mut pool = PoolAccount {
        oracle,
        bump: 255,
        balance: 2_010_203, // one unit short of the payout
    };
    let mut player: u64 = 500;
    let r = resolve_bet(&mut slot, &mut pool, &mut player, &ix, &sig);
    assert_eq!(r, Err(SettlementError::TransferFailed));
    assert!(slot.is_some());
    assert_eq!(pool.balance, 2_010_203);
    assert_eq!(player, 500);
}

#[test]
fn saturated_destination_aborts_with_transfer_failed() {
    let sig = find_sig_with_outcome(10);
    let bet = make_bet(1_000_000, 50);
    let oracle = oracle_id();
    let ix = make_instruction(&oracle, &sig, &bet);
    let mut slot = Some(bet);
    let mut pool = PoolAccount {
        oracle,
        bump: 255,
        balance: 10_000_000,
    };
    let mut player: u64 = u64::MAX - 100;
    let r = resolve_bet(&mut slot, &mut pool, &mut player, &ix, &sig);
    assert_eq!(r, Err(SettlementError::TransferFailed));
    assert!(slot.is_some());
    assert_eq!(pool.balance, 10_000_000);
    assert_eq!(player, u64::MAX - 100);
}
