//! The bet record: one active wager, and its exact byte serialization.
//!
//! The oracle signs the record's serialized bytes with the leading 8-byte
//! type tag stripped, so the layout below is load-bearing: any change breaks
//! compatibility with off-chain signers.

use vstd::bytes::*;
use vstd::prelude::*;

verus! {

/// Number of leading type-tag bytes that a stored record carries before the
/// signed fields begin.
pub const RECORD_TAG_LEN: usize = 8;

/// Length of the serialized signed fields of a bet record.
pub const MESSAGE_LEN: usize = 58;

/// One active wager.
#[derive(Clone, Copy, Debug)]
pub struct Bet {
    /// Identity entitled to winnings and to the reclaimed storage.
    pub player: [u8; 32],
    /// Committed randomness seed; also derivation metadata for the record's
    /// deterministic address.
    pub seed: u128,
    /// Staked value in token base units.
    pub amount: u64,
    /// Player-chosen threshold, in 1..=100 for records the placement flow
    /// creates; the bet wins if the derived outcome is strictly below it.
    pub roll: u8,
    /// Derivation metadata for the record's deterministic address.
    pub bump: u8,
}

impl Bet {
    /// The serialized signed fields: player identity, then the seed, the
    /// amount (both little endian), the roll and the bump.
    pub open spec fn spec_message(self) -> Seq<u8> {
        self.player@ + spec_u128_to_le_bytes(self.seed) + spec_u64_to_le_bytes(self.amount)
            + seq![self.roll, self.bump]
    }

    /// Serializes the signed fields of the record.
    pub fn message_bytes(&self) -> (out: Vec<u8>)
        ensures
            out@ == self.spec_message(),
            out@.len() == MESSAGE_LEN,
    {
        let mut out: Vec<u8> = Vec::new();
        let mut i: usize = 0;
        while i < 32
            invariant
                0 <= i <= 32,
                out@ =~= self.player@.subrange(0, i as int),
            decreases 32 - i,
        {
            out.push(self.player[i]);
            proof {
                assert(out@ =~= self.player@.subrange(0, i + 1));
            }
            i = i + 1;
        }
        proof {
            assert(out@ =~= self.player@);
        }
        let mut seed_bytes = u128_to_le_bytes(self.seed);
        out.append(&mut seed_bytes);
        let mut amount_bytes = u64_to_le_bytes(self.amount);
        out.append(&mut amount_bytes);
        out.push(self.roll);
        out.push(self.bump);
        proof {
            lemma_auto_spec_u128_to_from_le_bytes();
            lemma_auto_spec_u64_to_from_le_bytes();
            assert(out@ =~= self.spec_message());
        }
        out
    }
}

/// Law: the serialized signed fields determine the record. Two records with
/// the same message bytes are the same record, so anything computed from a
/// record is a function of its bytes.
pub proof fn lemma_message_determines_record(a: Bet, b: Bet)
    requires
        a.spec_message() == b.spec_message(),
    ensures
        a == b,
{
    lemma_auto_spec_u128_to_from_le_bytes();
    lemma_auto_spec_u64_to_from_le_bytes();
    let ma = a.spec_message();
    let mb = b.spec_message();
    assert(ma.subrange(0, 32) =~= a.player@);
    assert(mb.subrange(0, 32) =~= b.player@);
    assert(a.player =~= b.player);
    assert(ma.subrange(32, 48) =~= spec_u128_to_le_bytes(a.seed));
    assert(mb.subrange(32, 48) =~= spec_u128_to_le_bytes(b.seed));
    assert(a.seed == b.seed);
    assert(ma.subrange(48, 56) =~= spec_u64_to_le_bytes(a.amount));
    assert(mb.subrange(48, 56) =~= spec_u64_to_le_bytes(b.amount));
    assert(a.amount == b.amount);
    assert(a.roll == ma[56] && b.roll == mb[56]);
    assert(a.bump == ma[57] && b.bump == mb[57]);
}

/// What the oracle is expected to sign, given the raw bytes of a stored
/// record: everything past the leading type tag. The 8-byte offset is exact;
/// off-chain signers depend on it.
pub open spec fn spec_signed_portion(record: Seq<u8>) -> Seq<u8>
    recommends
        record.len() >= RECORD_TAG_LEN,
{
    record.skip(RECORD_TAG_LEN as int)
}

/// Strips the leading type tag from a stored record's bytes.
pub fn signed_portion(record: &[u8]) -> (out: Vec<u8>)
    requires
        record@.len() >= RECORD_TAG_LEN,
    ensures
        out@ == spec_signed_portion(record@),
{
    let sub = vstd::slice::slice_subrange(record, RECORD_TAG_LEN, record.len());
    let out = vstd::slice::slice_to_vec(sub);
    proof {
        assert(out@ =~= spec_signed_portion(record@));
    }
    out
}

} // verus!
