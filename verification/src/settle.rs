//! The settlement calculator and disburser.
//!
//! Once the attestation verifies, the derived outcome is compared to the
//! bet's threshold. A loss destroys the record and moves nothing. A win pays
//! `amount * (10000 - HOUSE_EDGE_BPS) / (roll - 1) / 100`, computed in a
//! width that cannot overflow at any intermediate step, and moves exactly
//! that many units from the custodial pool to the player, authorized by the
//! pool's own derivation parameters rather than a held key. Every failure
//! leaves all three accounts exactly as they were: a resolution attempt is
//! all or nothing.

use crate::bet::Bet;
use crate::ed25519::{spec_verify_attestation, verify_ed25519_signature, VerifierInstruction};
use crate::errors::SettlementError;
use crate::outcome::{derive_outcome, spec_outcome};
use crate::util::bytes_eq;
use vstd::prelude::*;

verus! {

/// The house's cut, in basis points of the fair payout.
pub const HOUSE_EDGE_BPS: u16 = 150;

/// The custodial pool: pooled stake funds, scoped to one oracle identity,
/// debitable only by its deterministic owner.
#[derive(Clone, Copy, Debug)]
pub struct PoolAccount {
    /// The oracle identity the pool is keyed by.
    pub oracle: [u8; 32],
    /// Derivation metadata of the pool's deterministic address.
    pub bump: u8,
    /// Pooled funds, in token base units.
    pub balance: u64,
}

/// A capability to debit a pool: the seed components of the pool's
/// deterministic address, reproduced by the engine. The transfer primitive
/// honors it only when it reproduces the pool's own derivation.
#[derive(Clone, Copy, Debug)]
pub struct PoolAuthority {
    pub oracle: [u8; 32],
    pub bump: u8,
}

impl PoolAuthority {
    /// The capability reproduces the pool's derivation.
    pub open spec fn spec_authorizes(self, pool: PoolAccount) -> bool {
        self.oracle@ == pool.oracle@ && self.bump == pool.bump
    }
}

/// The winning payout: the fair multiple of the stake, reduced by the house
/// edge, rounded down.
pub open spec fn spec_payout(amount: u64, roll: u8) -> int
    recommends
        2 <= roll,
{
    (amount * (10000 - HOUSE_EDGE_BPS)) / ((roll - 1) * 100)
}

/// Computes the winning payout with every arithmetic step checked.
///
/// A caller only reaches this with a winning outcome in hand, and every
/// outcome is at least 1, so a threshold of at least 2 is an invariant here,
/// not a coincidence: the divisor can never be zero.
pub fn compute_payout(amount: u64, roll: u8) -> (r: Result<u64, SettlementError>)
    requires
        2 <= roll,
    ensures
        match r {
            Ok(p) => spec_payout(amount, roll) <= u64::MAX && p == spec_payout(amount, roll),
            Err(e) => e == SettlementError::ArithmeticOverflow && spec_payout(amount, roll)
                > u64::MAX,
        },
{
    let bps: u128 = (10000 - HOUSE_EDGE_BPS) as u128;
    let wide = match (amount as u128).checked_mul(bps) {
        Some(wide) => wide,
        // a 64-bit stake times the basis points always fits the wide width,
        // so this checked step can never actually fail
        None => {
            proof {
                assert(amount * 9850 <= u64::MAX * 9850) by (nonlinear_arith)
                    requires
                        amount <= u64::MAX,
                ;
            }
            return Err(SettlementError::ArithmeticOverflow);
        },
    };
    let divisor: u128 = (roll as u128 - 1) * 100;
    let quotient = wide / divisor;
    if quotient > u64::MAX as u128 {
        Err(SettlementError::ArithmeticOverflow)
    } else {
        Ok(quotient as u64)
    }
}

/// Moves `amount` units from the pool to the recipient, authorized as the
/// pool's deterministic owner. Fails — changing nothing — when the capability
/// does not reproduce the pool's derivation, the pool cannot cover the
/// amount, or the destination cannot receive it.
pub fn transfer_from_pool(
    pool: &mut PoolAccount,
    recipient_balance: &mut u64,
    amount: u64,
    authority: &PoolAuthority,
) -> (r: Result<(), SettlementError>)
    ensures
        match r {
            Ok(()) => {
                &&& authority.spec_authorizes(*old(pool))
                &&& old(pool).balance >= amount
                &&& *old(recipient_balance) + amount <= u64::MAX
                &&& *final(pool) == (PoolAccount {
                    oracle: old(pool).oracle,
                    bump: old(pool).bump,
                    balance: (old(pool).balance - amount) as u64,
                })
                &&& *final(recipient_balance) == *old(recipient_balance) + amount
            },
            Err(e) => {
                &&& e == SettlementError::TransferFailed
                &&& !(authority.spec_authorizes(*old(pool)) && old(pool).balance >= amount && *old(
                    recipient_balance,
                ) + amount <= u64::MAX)
                &&& *final(pool) == *old(pool)
                &&& *final(recipient_balance) == *old(recipient_balance)
            },
        },
{
    let authorized = bytes_eq(authority.oracle.as_slice(), pool.oracle.as_slice())
        && authority.bump == pool.bump;
    if !authorized {
        return Err(SettlementError::TransferFailed);
    }
    if pool.balance < amount {
        return Err(SettlementError::TransferFailed);
    }
    if *recipient_balance > u64::MAX - amount {
        return Err(SettlementError::TransferFailed);
    }
    pool.balance = pool.balance - amount;
    *recipient_balance = *recipient_balance + amount;
    Ok(())
}

/// The full mathematical model of one resolution attempt: the verdict and
/// the state the bet slot, the pool and the player balance are left in.
pub open spec fn spec_resolve(
    bet_slot: Option<Bet>,
    pool: PoolAccount,
    player_balance: u64,
    program_id: Seq<u8>,
    num_accounts: int,
    data: Seq<u8>,
    sig: Seq<u8>,
) -> (Result<(), SettlementError>, Option<Bet>, PoolAccount, u64) {
    match bet_slot {
        None => (Err(SettlementError::RecordNotFound), bet_slot, pool, player_balance),
        Some(bet) => match spec_verify_attestation(
            program_id,
            num_accounts,
            data,
            sig,
            bet,
            pool.oracle@,
        ) {
            Err(e) => (Err(e), bet_slot, pool, player_balance),
            Ok(()) => {
                let outcome = spec_outcome(sig);
                if outcome >= bet.roll {
                    (Ok(()), None, pool, player_balance)
                } else {
                    let payout = spec_payout(bet.amount, bet.roll);
                    if payout > u64::MAX {
                        (Err(SettlementError::ArithmeticOverflow), bet_slot, pool, player_balance)
                    } else if pool.balance < payout || player_balance + payout > u64::MAX {
                        (Err(SettlementError::TransferFailed), bet_slot, pool, player_balance)
                    } else {
                        (
                            Ok(()),
                            None,
                            PoolAccount {
                                oracle: pool.oracle,
                                bump: pool.bump,
                                balance: (pool.balance - payout) as u64,
                            },
                            (player_balance + payout) as u64,
                        )
                    }
                }
            },
        },
    }
}

/// Law: a valid attestation whose derived outcome reaches the threshold is a
/// loss — the record is destroyed and neither balance moves.
pub proof fn lemma_loss_destroys_without_transfer(
    bet: Bet,
    pool: PoolAccount,
    player_balance: u64,
    program_id: Seq<u8>,
    num_accounts: int,
    data: Seq<u8>,
    sig: Seq<u8>,
)
    requires
        spec_verify_attestation(program_id, num_accounts, data, sig, bet, pool.oracle@) == Ok::<
            (),
            SettlementError,
        >(()),
        spec_outcome(sig) >= bet.roll,
    ensures
        spec_resolve(Some(bet), pool, player_balance, program_id, num_accounts, data, sig) == (
            Ok::<(), SettlementError>(()),
            None::<Bet>,
            pool,
            player_balance,
        ),
{
}

/// Law: a valid attestation whose derived outcome is below the threshold pays
/// exactly `amount * 9850 / ((roll - 1) * 100)`, rounded down: the pool loses
/// exactly that and the player gains exactly that, and the record is
/// destroyed. The preconditions on the payout's size carve out the inputs on
/// which the attempt instead fails with `ArithmeticOverflow` or
/// `TransferFailed` and changes nothing.
pub proof fn lemma_win_pays_exactly(
    bet: Bet,
    pool: PoolAccount,
    player_balance: u64,
    program_id: Seq<u8>,
    num_accounts: int,
    data: Seq<u8>,
    sig: Seq<u8>,
)
    requires
        spec_verify_attestation(program_id, num_accounts, data, sig, bet, pool.oracle@) == Ok::<
            (),
            SettlementError,
        >(()),
        spec_outcome(sig) < bet.roll,
        spec_payout(bet.amount, bet.roll) <= u64::MAX,
        pool.balance >= spec_payout(bet.amount, bet.roll),
        player_balance + spec_payout(bet.amount, bet.roll) <= u64::MAX,
    ensures
        spec_resolve(Some(bet), pool, player_balance, program_id, num_accounts, data, sig) == (
            Ok::<(), SettlementError>(()),
            None::<Bet>,
            (PoolAccount {
                oracle: pool.oracle,
                bump: pool.bump,
                balance: (pool.balance - (bet.amount * 9850) / ((bet.roll - 1) * 100)) as u64,
            }),
            (player_balance + (bet.amount * 9850) / ((bet.roll - 1) * 100)) as u64,
        ),
{
}

/// Law: a resolution attempt is all or nothing. A failed attempt leaves the
/// record, the pool and the player balance exactly as they were — the bet
/// stays resolvable with a corrected attestation — and a successful attempt
/// always destroys the record, so the resolved state is terminal.
pub proof fn lemma_resolution_all_or_nothing(
    bet_slot: Option<Bet>,
    pool: PoolAccount,
    player_balance: u64,
    program_id: Seq<u8>,
    num_accounts: int,
    data: Seq<u8>,
    sig: Seq<u8>,
)
    ensures
        ({
            let (r, slot2, pool2, player2) = spec_resolve(
                bet_slot,
                pool,
                player_balance,
                program_id,
                num_accounts,
                data,
                sig,
            );
            &&& (r is Err ==> slot2 == bet_slot && pool2 == pool && player2 == player_balance)
            &&& (r is Ok ==> slot2 is None)
        }),
{
}

/// Law: a threshold of 1 never reaches the payout branch — no derived
/// outcome lies below 1 — so the payout's divisor is never zero by
/// construction, not by coincidence. A valid attestation over such a record
/// settles as a loss.
pub proof fn lemma_roll_one_never_wins(
    bet: Bet,
    pool: PoolAccount,
    player_balance: u64,
    program_id: Seq<u8>,
    num_accounts: int,
    data: Seq<u8>,
    sig: Seq<u8>,
)
    requires
        bet.roll == 1,
        spec_verify_attestation(program_id, num_accounts, data, sig, bet, pool.oracle@) == Ok::<
            (),
            SettlementError,
        >(()),
    ensures
        spec_resolve(Some(bet), pool, player_balance, program_id, num_accounts, data, sig) == (
            Ok::<(), SettlementError>(()),
            None::<Bet>,
            pool,
            player_balance,
        ),
{
    crate::outcome::lemma_outcome_in_range(sig);
}

/// Law: resolution is a pure function of the signed record bytes and the
/// signature bytes. Equal bytes give the same outcome and the same verdict,
/// payout included.
pub proof fn lemma_resolution_deterministic(
    a: Bet,
    b: Bet,
    pool: PoolAccount,
    player_balance: u64,
    program_id: Seq<u8>,
    num_accounts: int,
    data: Seq<u8>,
    sig_a: Seq<u8>,
    sig_b: Seq<u8>,
)
    requires
        a.spec_message() == b.spec_message(),
        sig_a == sig_b,
    ensures
        spec_outcome(sig_a) == spec_outcome(sig_b),
        spec_resolve(Some(a), pool, player_balance, program_id, num_accounts, data, sig_a)
            == spec_resolve(Some(b), pool, player_balance, program_id, num_accounts, data, sig_b),
{
    crate::bet::lemma_message_determines_record(a, b);
}

/// Resolves one bet: verifies the attestation, derives the outcome, settles,
/// and destroys the record. Either every effect happens or none does, exactly
/// as `spec_resolve` lays out.
pub fn resolve_bet(
    bet_slot: &mut Option<Bet>,
    pool: &mut PoolAccount,
    player_balance: &mut u64,
    instruction: &VerifierInstruction,
    sig: &[u8],
) -> (r: Result<(), SettlementError>)
    ensures
        (r, *final(bet_slot), *final(pool), *final(player_balance)) == spec_resolve(
            *old(bet_slot),
            *old(pool),
            *old(player_balance),
            instruction.program_id@,
            instruction.num_accounts as int,
            instruction.data@,
            sig@,
        ),
{
    let bet = match *bet_slot {
        None => {
            return Err(SettlementError::RecordNotFound);
        },
        Some(bet) => bet,
    };
    match verify_ed25519_signature(instruction, sig, &bet, &pool.oracle) {
        Ok(()) => {},
        Err(e) => {
            return Err(e);
        },
    }
    let outcome = derive_outcome(sig);
    if outcome >= bet.roll {
        *bet_slot = None;
        return Ok(());
    }
    let payout = match compute_payout(bet.amount, bet.roll) {
        Ok(payout) => payout,
        Err(e) => {
            return Err(e);
        },
    };
    let authority = PoolAuthority { oracle: pool.oracle, bump: pool.bump };
    match transfer_from_pool(pool, player_balance, payout, &authority) {
        Ok(()) => {},
        Err(e) => {
            return Err(e);
        },
    }
    *bet_slot = None;
    Ok(())
}

} // verus!
