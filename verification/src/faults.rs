//! The structured outcome of a cryptographic proof check that succeeded
//! mechanically but found the claims or the proof invalid, and its 1:1
//! mapping into the result taxonomy.
//!
//! The caller runs the (asynchronous, external) proof verification and
//! reports which fault it returned; the free-text details — error displays
//! and RFC3339 renderings of the timestamps involved — are captured at that
//! edge and carried through unchanged.

use vstd::prelude::*;

use crate::results::{kind_verified, ResultKind, VerificationResult};

verus! {

/// A claims-level fault: the proof verified but the claims are inconsistent.
#[derive(Debug)]
pub enum ClaimsFault {
    /// The credential has no issuance date.
    MissingIssuanceDate { details: String },
    /// The credential is not valid yet; `valid_from` is the RFC3339
    /// rendering of its `validFrom` timestamp.
    Premature { valid_from: String },
    /// The credential has expired; `valid_until` is the RFC3339 rendering
    /// of its `validUntil` timestamp.
    Expired { valid_until: String },
    /// Any other claims error.
    Other { details: String },
}

/// A proof-level fault: the proof itself could not be accepted.
#[derive(Debug)]
pub enum ProofFault {
    /// No proof is attached.
    Missing { details: String },
    /// The signature does not verify.
    Signature { details: String },
    /// The signing key is not controlled by the stated verification method.
    KeyMismatch { details: String },
    /// The proof's algorithm does not match the verification method.
    AlgorithmMismatch { details: String },
    /// Any other proof error.
    Other { details: String },
}

/// A semantic-invalid outcome of proof verification: either the claims or
/// the proof were found invalid.
#[derive(Debug)]
pub enum Invalidity {
    Claims(ClaimsFault),
    Proof(ProofFault),
}

/// The result kind each invalidity maps to.
pub open spec fn invalidity_kind(f: Invalidity) -> ResultKind {
    match f {
        Invalidity::Claims(c) => match c {
            ClaimsFault::MissingIssuanceDate { .. } => ResultKind::VcValidationErrorMissingIssuance,
            ClaimsFault::Premature { .. } => ResultKind::VcValidationErrorPremature,
            ClaimsFault::Expired { .. } => ResultKind::VcValidationErrorExpired,
            ClaimsFault::Other { .. } => ResultKind::VcValidationErrorOther,
        },
        Invalidity::Proof(p) => match p {
            ProofFault::Missing { .. } => ResultKind::VcProofErrorMissing,
            ProofFault::Signature { .. } => ResultKind::VcProofErrorSignature,
            ProofFault::KeyMismatch { .. } => ResultKind::VcProofErrorKeyMismatch,
            ProofFault::AlgorithmMismatch { .. } => ResultKind::VcProofErrorAlgorithmMismatch,
            ProofFault::Other { .. } => ResultKind::VcProofError,
        },
    }
}

/// The details text each invalidity carries into its result: for the
/// temporal faults the timestamp itself, otherwise the reported details.
pub open spec fn invalidity_details(f: Invalidity) -> Seq<char> {
    match f {
        Invalidity::Claims(c) => match c {
            ClaimsFault::MissingIssuanceDate { details } => details@,
            ClaimsFault::Premature { valid_from } => valid_from@,
            ClaimsFault::Expired { valid_until } => valid_until@,
            ClaimsFault::Other { details } => details@,
        },
        Invalidity::Proof(p) => match p {
            ProofFault::Missing { details } => details@,
            ProofFault::Signature { details } => details@,
            ProofFault::KeyMismatch { details } => details@,
            ProofFault::AlgorithmMismatch { details } => details@,
            ProofFault::Other { details } => details@,
        },
    }
}

/// Whether a result kind reports a proof-level failure.
pub open spec fn is_proof_error_kind(k: ResultKind) -> bool {
    ||| k is VcProofError
    ||| k is VcProofErrorMissing
    ||| k is VcProofErrorSignature
    ||| k is VcProofErrorKeyMismatch
    ||| k is VcProofErrorAlgorithmMismatch
}

impl VerificationResult {
    /// Maps a semantic-invalid proof outcome 1:1 onto the result taxonomy.
    pub fn from_invalidity(f: Invalidity) -> (r: Self)
        ensures
            r.wf(),
            r.kind() == invalidity_kind(f),
            r.details() == invalidity_details(f),
    {
        match f {
            Invalidity::Claims(c) => match c {
                ClaimsFault::MissingIssuanceDate { details } => {
                    VerificationResult::vc_validation_missing_issuance_date(details)
                },
                ClaimsFault::Premature { valid_from } => {
                    VerificationResult::vc_validation_error_premature(valid_from)
                },
                ClaimsFault::Expired { valid_until } => {
                    VerificationResult::vc_validation_error_expired(valid_until)
                },
                ClaimsFault::Other { details } => {
                    VerificationResult::vc_validation_error_other(details)
                },
            },
            Invalidity::Proof(p) => match p {
                ProofFault::Missing { details } => {
                    VerificationResult::vc_proof_error_missing(details)
                },
                ProofFault::Signature { details } => {
                    VerificationResult::vc_proof_error_signature(details)
                },
                ProofFault::KeyMismatch { details } => {
                    VerificationResult::vc_proof_error_key_mismatch(details)
                },
                ProofFault::AlgorithmMismatch { details } => {
                    VerificationResult::vc_proof_error_algorithm_mismatch(details)
                },
                ProofFault::Other { details } => VerificationResult::vc_proof_error(details),
            },
        }
    }
}

/// A proof-level fault never maps to a verified state, and always to a
/// proof-error kind.
pub proof fn lemma_proof_fault_maps_to_proof_error(f: Invalidity)
    requires
        f is Proof,
    ensures
        is_proof_error_kind(invalidity_kind(f)),
        !kind_verified(invalidity_kind(f)),
{
}

} // verus!
