//! The failure taxonomy of a resolution attempt.
//!
//! Every variant is terminal for the current attempt: nothing is retried
//! internally, and no partial state change is visible when one is returned.

use vstd::prelude::*;

verus! {

/// Why a resolution attempt was rejected.
#[derive(Clone, Copy, Debug, PartialEq, Eq, Structural)]
pub enum SettlementError {
    /// The companion verification request names some handler other than the
    /// well-known signature-verification facility.
    UntrustedVerifier,
    /// The verification request carries auxiliary account references.
    MalformedVerificationRequest,
    /// The verification payload does not decode to exactly one signature entry.
    MultipleOrZeroSignatures,
    /// The signature entry is not marked verifiable against this payload.
    UnverifiableHeader,
    /// The signature entry's public key is not the designated oracle identity.
    WrongSigner,
    /// The signature entry's bytes differ from the signature the caller
    /// supplied, or the payload itself could not be decoded.
    SignatureMismatch,
    /// The signed message differs from the serialized bet record.
    MessageMismatch,
    /// A payout computation left the representable range.
    ArithmeticOverflow,
    /// The pool could not cover the payout, or the destination could not
    /// receive it.
    TransferFailed,
    /// The bet record does not exist (any more).
    RecordNotFound,
}

} // verus!
