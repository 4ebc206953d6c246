//! The attestation verifier.
//!
//! A resolution request arrives together with a companion request to the
//! well-known signature-verification facility. That request's payload has a
//! fixed layout: a one-byte entry count, one padding byte, then one
//! fourteen-byte offsets table per entry, then the referenced bytes. This
//! module decodes the payload and confirms that its single entry binds the
//! designated oracle identity, the caller-supplied signature bytes, and the
//! exact serialized bet record.

use crate::bet::Bet;
use crate::errors::SettlementError;
use crate::util::bytes_eq;
use vstd::bytes::*;
use vstd::prelude::*;
use vstd::slice::{slice_index_get, slice_subrange, slice_to_vec};

verus! {

/// Offset of the first offsets table inside a verification payload.
pub const PAYLOAD_HEADER_LEN: usize = 2;

/// Width of one offsets table.
pub const OFFSETS_TABLE_LEN: usize = 14;

/// Width of a public key inside a verification payload.
pub const PUBKEY_LEN: usize = 32;

/// Width of a signature inside a verification payload.
pub const SIGNATURE_LEN: usize = 64;

/// Marker index meaning "this very payload" in an offsets table. An entry
/// whose referenced bytes live anywhere else was not verified over this
/// payload's data and cannot be trusted here.
pub const THIS_PAYLOAD: u16 = 0xffff;

/// The well-known verification request the engine accepts: its declared
/// target, how many auxiliary account references it carries, and its payload.
pub struct VerifierInstruction {
    /// The handler the request names.
    pub program_id: [u8; 32],
    /// How many auxiliary account references the request carries.
    pub num_accounts: usize,
    /// The verification payload.
    pub data: Vec<u8>,
}

/// One offsets table, as laid out in the payload.
pub struct SignatureOffsets {
    pub signature_offset: u16,
    pub signature_instruction_index: u16,
    pub public_key_offset: u16,
    pub public_key_instruction_index: u16,
    pub message_data_offset: u16,
    pub message_data_size: u16,
    pub message_instruction_index: u16,
}

/// The mathematical content of one decoded signature entry. A `None` field
/// means the offsets table points outside the payload.
pub struct SignatureEntryModel {
    pub is_verifiable: bool,
    pub public_key: Option<Seq<u8>>,
    pub signature: Option<Seq<u8>>,
    pub message: Option<Seq<u8>>,
}

/// One decoded signature entry.
pub struct SignatureEntry {
    /// Whether every referenced range lives in this very payload.
    pub is_verifiable: bool,
    /// The declared public key, when it lies inside the payload.
    pub public_key: Option<Vec<u8>>,
    /// The declared signature bytes, when they lie inside the payload.
    pub signature: Option<Vec<u8>>,
    /// The declared message, when it lies inside the payload.
    pub message: Option<Vec<u8>>,
}

impl View for SignatureEntry {
    type V = SignatureEntryModel;

    open spec fn view(&self) -> SignatureEntryModel {
        SignatureEntryModel {
            is_verifiable: self.is_verifiable,
            public_key: match self.public_key {
                Some(v) => Some(v@),
                None => None,
            },
            signature: match self.signature {
                Some(v) => Some(v@),
                None => None,
            },
            message: match self.message {
                Some(v) => Some(v@),
                None => None,
            },
        }
    }
}

/// The little-endian 16-bit value at position `pos` of the payload.
pub open spec fn spec_u16_at(data: Seq<u8>, pos: int) -> u16
    recommends
        0 <= pos,
        pos + 2 <= data.len(),
{
    spec_u16_from_le_bytes(data.subrange(pos, pos + 2))
}

/// The offsets table that starts at position `pos` of the payload.
pub open spec fn spec_offsets_at(data: Seq<u8>, pos: int) -> SignatureOffsets
    recommends
        0 <= pos,
        pos + OFFSETS_TABLE_LEN <= data.len(),
{
    SignatureOffsets {
        signature_offset: spec_u16_at(data, pos),
        signature_instruction_index: spec_u16_at(data, pos + 2),
        public_key_offset: spec_u16_at(data, pos + 4),
        public_key_instruction_index: spec_u16_at(data, pos + 6),
        message_data_offset: spec_u16_at(data, pos + 8),
        message_data_size: spec_u16_at(data, pos + 10),
        message_instruction_index: spec_u16_at(data, pos + 12),
    }
}

/// A payload decodes at all: it has a header, and one whole offsets table
/// per declared entry.
pub open spec fn payload_well_formed(data: Seq<u8>) -> bool {
    &&& data.len() >= PAYLOAD_HEADER_LEN
    &&& data.len() >= PAYLOAD_HEADER_LEN + OFFSETS_TABLE_LEN * (data[0] as int)
}

/// How many signature entries the payload declares.
pub open spec fn spec_signature_count(data: Seq<u8>) -> int
    recommends
        data.len() >= 1,
{
    data[0] as int
}

/// The `len` bytes at `off`, when that range lies inside the payload.
pub open spec fn spec_extract(data: Seq<u8>, off: int, len: int) -> Option<Seq<u8>>
    recommends
        0 <= off,
        0 <= len,
{
    if off + len <= data.len() {
        Some(data.subrange(off, off + len))
    } else {
        None
    }
}

/// The decoded entry number `i` of a well-formed payload.
pub open spec fn spec_entry_at(data: Seq<u8>, i: int) -> SignatureEntryModel
    recommends
        payload_well_formed(data),
        0 <= i < spec_signature_count(data),
{
    let offs = spec_offsets_at(data, PAYLOAD_HEADER_LEN + OFFSETS_TABLE_LEN * i);
    SignatureEntryModel {
        is_verifiable: offs.signature_instruction_index == THIS_PAYLOAD
            && offs.public_key_instruction_index == THIS_PAYLOAD
            && offs.message_instruction_index == THIS_PAYLOAD,
        public_key: spec_extract(data, offs.public_key_offset as int, PUBKEY_LEN as int),
        signature: spec_extract(data, offs.signature_offset as int, SIGNATURE_LEN as int),
        message: spec_extract(
            data,
            offs.message_data_offset as int,
            offs.message_data_size as int,
        ),
    }
}

/// Reads the little-endian 16-bit value at `pos`.
fn read_u16_at(data: &[u8], pos: usize) -> (x: u16)
    requires
        pos + 2 <= data@.len(),
    ensures
        x == spec_u16_at(data@, pos as int),
{
    let n = data.len();
    proof {
        assert(pos + 2 <= n);
    }
    u16_from_le_bytes(slice_subrange(data, pos, pos + 2))
}

/// Copies the `len` bytes at `off` out of the payload, when they lie inside.
fn extract_bytes(data: &[u8], off: usize, len: usize) -> (out: Option<Vec<u8>>)
    ensures
        match out {
            Some(v) => spec_extract(data@, off as int, len as int) == Some(v@),
            None => spec_extract(data@, off as int, len as int) is None,
        },
{
    if off <= data.len() && len <= data.len() - off {
        Some(slice_to_vec(slice_subrange(data, off, off + len)))
    } else {
        None
    }
}

/// Decodes a verification payload into its signature entries.
///
/// An undecodable payload is reported as `SignatureMismatch`: no signature
/// entry can be compared against the caller's.
pub fn unpack(data: &[u8]) -> (r: Result<Vec<SignatureEntry>, SettlementError>)
    ensures
        match r {
            Ok(entries) => {
                &&& payload_well_formed(data@)
                &&& entries@.len() == spec_signature_count(data@)
                &&& forall|i: int|
                    0 <= i < entries@.len() ==> entries@[i]@ == spec_entry_at(data@, i)
            },
            Err(e) => {
                &&& e == SettlementError::SignatureMismatch
                &&& !payload_well_formed(data@)
            },
        },
{
    if data.len() < PAYLOAD_HEADER_LEN {
        return Err(SettlementError::SignatureMismatch);
    }
    let count = *slice_index_get(data, 0) as usize;
    if data.len() < PAYLOAD_HEADER_LEN + OFFSETS_TABLE_LEN * count {
        return Err(SettlementError::SignatureMismatch);
    }
    let mut entries: Vec<SignatureEntry> = Vec::new();
    let mut i: usize = 0;
    while i < count
        invariant
            payload_well_formed(data@),
            count == spec_signature_count(data@),
            0 <= i <= count,
            entries@.len() == i,
            forall|j: int| 0 <= j < i ==> entries@[j]@ == spec_entry_at(data@, j),
        decreases count - i,
    {
        let pos = PAYLOAD_HEADER_LEN + OFFSETS_TABLE_LEN * i;
        proof {
            assert(OFFSETS_TABLE_LEN * (i + 1) <= OFFSETS_TABLE_LEN * (count as int))
                by (nonlinear_arith)
                requires
                    i + 1 <= count,
            ;
        }
        let signature_offset = read_u16_at(data, pos);
        let signature_instruction_index = read_u16_at(data, pos + 2);
        let public_key_offset = read_u16_at(data, pos + 4);
        let public_key_instruction_index = read_u16_at(data, pos + 6);
        let message_data_offset = read_u16_at(data, pos + 8);
        let message_data_size = read_u16_at(data, pos + 10);
        let message_instruction_index = read_u16_at(data, pos + 12);
        let entry = SignatureEntry {
            is_verifiable: signature_instruction_index == THIS_PAYLOAD
                && public_key_instruction_index == THIS_PAYLOAD
                && message_instruction_index == THIS_PAYLOAD,
            public_key: extract_bytes(data, public_key_offset as usize, PUBKEY_LEN),
            signature: extract_bytes(data, signature_offset as usize, SIGNATURE_LEN),
            message: extract_bytes(
                data,
                message_data_offset as usize,
                message_data_size as usize,
            ),
        };
        entries.push(entry);
        i = i + 1;
    }
    Ok(entries)
}

/// Builds the verification payload that attests `signature` by `public_key`
/// over `message`: one entry, every referenced range inside this payload.
/// This is the payload an oracle-side submitter sends alongside a resolution.
pub fn encode_verification_payload(
    public_key: &[u8; 32],
    signature: &[u8],
    message: &[u8],
) -> (out: Vec<u8>)
    requires
        signature@.len() == SIGNATURE_LEN,
        message@.len() <= 0xffff,
    ensures
        payload_well_formed(out@),
        spec_signature_count(out@) == 1,
        spec_entry_at(out@, 0) == (SignatureEntryModel {
            is_verifiable: true,
            public_key: Some(public_key@),
            signature: Some(signature@),
            message: Some(message@),
        }),
        out@.len() == 112 + message@.len(),
{
    let mut out: Vec<u8> = Vec::new();
    out.push(1u8);
    out.push(0u8);
    let mut signature_offset = u16_to_le_bytes(48);
    out.append(&mut signature_offset);
    let mut signature_instruction_index = u16_to_le_bytes(THIS_PAYLOAD);
    out.append(&mut signature_instruction_index);
    let mut public_key_offset = u16_to_le_bytes(16);
    out.append(&mut public_key_offset);
    let mut public_key_instruction_index = u16_to_le_bytes(THIS_PAYLOAD);
    out.append(&mut public_key_instruction_index);
    let mut message_data_offset = u16_to_le_bytes(112);
    out.append(&mut message_data_offset);
    let mut message_data_size = u16_to_le_bytes(message.len() as u16);
    out.append(&mut message_data_size);
    let mut message_instruction_index = u16_to_le_bytes(THIS_PAYLOAD);
    out.append(&mut message_instruction_index);
    let mut public_key_bytes = slice_to_vec(public_key.as_slice());
    out.append(&mut public_key_bytes);
    let mut signature_bytes = slice_to_vec(signature);
    out.append(&mut signature_bytes);
    let mut message_bytes = slice_to_vec(message);
    out.append(&mut message_bytes);
    proof {
        lemma_auto_spec_u16_to_from_le_bytes();
        let s = out@;
        assert(s.len() == 112 + message@.len());
        assert(s[0] == 1u8);
        assert(s.subrange(2, 4) =~= spec_u16_to_le_bytes(48u16));
        assert(s.subrange(4, 6) =~= spec_u16_to_le_bytes(THIS_PAYLOAD));
        assert(s.subrange(6, 8) =~= spec_u16_to_le_bytes(16u16));
        assert(s.subrange(8, 10) =~= spec_u16_to_le_bytes(THIS_PAYLOAD));
        assert(s.subrange(10, 12) =~= spec_u16_to_le_bytes(112u16));
        assert(s.subrange(12, 14) =~= spec_u16_to_le_bytes(message@.len() as u16));
        assert(s.subrange(14, 16) =~= spec_u16_to_le_bytes(THIS_PAYLOAD));
        assert(s.subrange(16, 48) =~= public_key@);
        assert(s.subrange(48, 112) =~= signature@);
        assert(s.subrange(112, s.len() as int) =~= message@);
        assert((message@.len() as u16) as int == message@.len());
    }
    out
}

/// Law: a signature entry whose declared public key is not the designated
/// oracle identity is rejected as `WrongSigner`, however well-formed the
/// rest of the request is.
pub proof fn lemma_wrong_signer_rejected(
    program_id: Seq<u8>,
    num_accounts: int,
    data: Seq<u8>,
    sig: Seq<u8>,
    bet: Bet,
    oracle: Seq<u8>,
)
    requires
        program_id == spec_ed25519_verifier_id(),
        num_accounts == 0,
        payload_well_formed(data),
        spec_signature_count(data) == 1,
        spec_entry_at(data, 0).is_verifiable,
        spec_entry_at(data, 0).public_key != Some(oracle),
    ensures
        spec_verify_attestation(program_id, num_accounts, data, sig, bet, oracle) == Err::<
            (),
            SettlementError,
        >(SettlementError::WrongSigner),
{
}

/// Law: when every check up to the message comparison passes but the declared
/// message differs from the serialized bet record in even one byte, the
/// verdict is `MessageMismatch` — never a silent pass.
pub proof fn lemma_message_mutation_rejected(
    program_id: Seq<u8>,
    num_accounts: int,
    data: Seq<u8>,
    sig: Seq<u8>,
    bet: Bet,
    oracle: Seq<u8>,
    i: int,
)
    requires
        program_id == spec_ed25519_verifier_id(),
        num_accounts == 0,
        payload_well_formed(data),
        spec_signature_count(data) == 1,
        spec_entry_at(data, 0).is_verifiable,
        spec_entry_at(data, 0).public_key == Some(oracle),
        spec_entry_at(data, 0).signature == Some(sig),
        spec_entry_at(data, 0).message matches Some(m) && m.len() == bet.spec_message().len()
            && 0 <= i < m.len() && m[i] != bet.spec_message()[i],
    ensures
        spec_verify_attestation(program_id, num_accounts, data, sig, bet, oracle) == Err::<
            (),
            SettlementError,
        >(SettlementError::MessageMismatch),
{
}

/// Law: whatever else holds of the request, a declared message that is not
/// the serialized bet record never verifies.
pub proof fn lemma_no_silent_pass(
    program_id: Seq<u8>,
    num_accounts: int,
    data: Seq<u8>,
    sig: Seq<u8>,
    bet: Bet,
    oracle: Seq<u8>,
)
    requires
        payload_well_formed(data) && spec_signature_count(data) == 1 ==> spec_entry_at(
            data,
            0,
        ).message != Some(bet.spec_message()),
    ensures
        spec_verify_attestation(program_id, num_accounts, data, sig, bet, oracle) != Ok::<
            (),
            SettlementError,
        >(()),
{
}

/// The well-known address of the signature-verification facility, as bytes.
pub open spec fn spec_ed25519_verifier_id() -> Seq<u8> {
    seq![
        3u8, 125u8, 70u8, 214u8, 124u8, 147u8, 251u8, 190u8, 18u8, 249u8, 66u8, 143u8, 131u8,
        141u8, 64u8, 255u8, 5u8, 112u8, 116u8, 73u8, 39u8, 244u8, 138u8, 100u8, 252u8, 202u8,
        112u8, 68u8, 128u8, 0u8, 0u8, 0u8,
    ]
}

/// Relies on `solana_program::ed25519_program::ID`: the fixed address of the
/// signature-verification facility, base58
/// `Ed25519SigVerify111111111111111111111111111`, whose decoding is the 32
/// bytes of `spec_ed25519_verifier_id`.
#[verifier::external_body]
pub fn ed25519_verifier_id() -> (id: [u8; 32])
    ensures
        id@ == spec_ed25519_verifier_id(),
{
    solana_program::ed25519_program::ID.to_bytes()
}

/// The exact verdict of the attestation verifier, checks in order: the
/// request must name the verification facility and carry no auxiliary
/// accounts; its payload must decode to exactly one entry; the entry must be
/// verifiable against this payload, name the designated oracle, carry the
/// caller-supplied signature bytes, and declare the serialized bet record as
/// its message.
pub open spec fn spec_verify_attestation(
    program_id: Seq<u8>,
    num_accounts: int,
    data: Seq<u8>,
    sig: Seq<u8>,
    bet: Bet,
    oracle: Seq<u8>,
) -> Result<(), SettlementError> {
    if program_id != spec_ed25519_verifier_id() {
        Err(SettlementError::UntrustedVerifier)
    } else if num_accounts != 0 {
        Err(SettlementError::MalformedVerificationRequest)
    } else if !payload_well_formed(data) {
        Err(SettlementError::SignatureMismatch)
    } else if spec_signature_count(data) != 1 {
        Err(SettlementError::MultipleOrZeroSignatures)
    } else {
        let entry = spec_entry_at(data, 0);
        if !entry.is_verifiable {
            Err(SettlementError::UnverifiableHeader)
        } else if entry.public_key != Some(oracle) {
            Err(SettlementError::WrongSigner)
        } else if entry.signature != Some(sig) {
            Err(SettlementError::SignatureMismatch)
        } else if entry.message != Some(bet.spec_message()) {
            Err(SettlementError::MessageMismatch)
        } else {
            Ok(())
        }
    }
}

/// Confirms that the companion verification request attests `sig` over the
/// exact bytes of `bet`, signed by `oracle`.
pub fn verify_ed25519_signature(
    instruction: &VerifierInstruction,
    sig: &[u8],
    bet: &Bet,
    oracle: &[u8; 32],
) -> (r: Result<(), SettlementError>)
    ensures
        r == spec_verify_attestation(
            instruction.program_id@,
            instruction.num_accounts as int,
            instruction.data@,
            sig@,
            *bet,
            oracle@,
        ),
{
    let expected_id = ed25519_verifier_id();
    if !bytes_eq(instruction.program_id.as_slice(), expected_id.as_slice()) {
        return Err(SettlementError::UntrustedVerifier);
    }
    if instruction.num_accounts != 0 {
        return Err(SettlementError::MalformedVerificationRequest);
    }
    let entries = match unpack(instruction.data.as_slice()) {
        Ok(entries) => entries,
        Err(e) => {
            return Err(e);
        },
    };
    if entries.len() != 1 {
        return Err(SettlementError::MultipleOrZeroSignatures);
    }
    let entry = &entries[0];
    if !entry.is_verifiable {
        return Err(SettlementError::UnverifiableHeader);
    }
    match &entry.public_key {
        None => {
            return Err(SettlementError::WrongSigner);
        },
        Some(public_key) => {
            if !bytes_eq(public_key.as_slice(), oracle.as_slice()) {
                return Err(SettlementError::WrongSigner);
            }
        },
    }
    match &entry.signature {
        None => {
            return Err(SettlementError::SignatureMismatch);
        },
        Some(signature) => {
            if !bytes_eq(signature.as_slice(), sig) {
                return Err(SettlementError::SignatureMismatch);
            }
        },
    }
    let expected_message = bet.message_bytes();
    match &entry.message {
        None => {
            return Err(SettlementError::MessageMismatch);
        },
        Some(message) => {
            if !bytes_eq(message.as_slice(), expected_message.as_slice()) {
                return Err(SettlementError::MessageMismatch);
            }
        },
    }
    Ok(())
}

} // verus!
