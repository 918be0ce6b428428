//! The result taxonomy: one tagged variant per verification outcome.
//!
//! Each variant carries a payload with a numeric code (a single, distinct
//! bit), a fixed human-readable message, a free-text details field and a
//! redundant `verified` flag. Only `VcValid` and `VpValid` are verified
//! terminal states; every other variant is a failure or error state.

use vstd::prelude::*;

verus! {

/// The payload carried by every [`VerificationResult`] variant.
#[derive(Debug)]
pub struct VerificationResultPayload {
    pub code: u32,
    pub details: String,
    pub message: String,
    pub verified: bool,
}

/// The bare tag of a [`VerificationResult`], without its payload.
#[derive(Clone, Copy, PartialEq, Eq, Structural, Debug)]
pub enum ResultKind {
    DidConfigError,
    VcParseError,
    VcProofError,
    VcProofErrorAlgorithmMismatch,
    VcProofErrorKeyMismatch,
    VcProofErrorMissing,
    VcProofErrorSignature,
    VcValid,
    VcValidationErrorExpired,
    VcValidationErrorMissingIssuance,
    VcValidationErrorOther,
    VcValidationErrorPremature,
    VcValidationErrorSubjectMismatch,
    VpParseError,
    VpProofError,
    VpValid,
    VpVerificationError,
}

/// The numeric code of each result kind: a single set bit, so that distinct
/// kinds could in principle be OR-combined without collision.
pub open spec fn kind_code(k: ResultKind) -> u32 {
    match k {
        ResultKind::VpValid => 0x1,
        ResultKind::VcValid => 0x2,
        ResultKind::VpParseError => 0x4,
        ResultKind::VpProofError => 0x8,
        ResultKind::VpVerificationError => 0x10,
        ResultKind::VcParseError => 0x20,
        ResultKind::VcProofError => 0x40,
        ResultKind::VcProofErrorMissing => 0x80,
        ResultKind::VcProofErrorSignature => 0x100,
        ResultKind::VcProofErrorKeyMismatch => 0x200,
        ResultKind::VcProofErrorAlgorithmMismatch => 0x400,
        ResultKind::VcValidationErrorOther => 0x800,
        ResultKind::VcValidationErrorPremature => 0x1000,
        ResultKind::VcValidationErrorExpired => 0x2000,
        ResultKind::VcValidationErrorMissingIssuance => 0x4000,
        ResultKind::VcValidationErrorSubjectMismatch => 0x8000,
        ResultKind::DidConfigError => 0x10000,
    }
}

/// The fixed message of each result kind.
pub open spec fn kind_message(k: ResultKind) -> Seq<char> {
    match k {
        ResultKind::VpValid => "Verifiable Presentation is valid."@,
        ResultKind::VcValid => "Verifiable Credential is valid."@,
        ResultKind::VpParseError => "Failed to parse Verifiable Presentation."@,
        ResultKind::VpProofError => "Proof error in Verifiable Presentation."@,
        ResultKind::VpVerificationError => "Verification of Verifiable Presentation failed."@,
        ResultKind::VcParseError => "Failed to parse Verifiable Credential."@,
        ResultKind::VcProofError => "Proof error in Verifiable Credential."@,
        ResultKind::VcProofErrorMissing => "Missing proof in Verifiable Credential."@,
        ResultKind::VcProofErrorSignature => "Invalid signature in Verifiable Credential proof."@,
        ResultKind::VcProofErrorKeyMismatch => "Key mismatch in Verifiable Credential proof."@,
        ResultKind::VcProofErrorAlgorithmMismatch => "Algorithm mismatch in Verifiable Credential proof."@,
        ResultKind::VcValidationErrorOther => "Validation failed for unknown reasons."@,
        ResultKind::VcValidationErrorPremature => "Verifiable Credential is not valid yet (premature)."@,
        ResultKind::VcValidationErrorExpired => "Verifiable Credential has expired."@,
        ResultKind::VcValidationErrorMissingIssuance => "Issuance date is missing in Verifiable Credential."@,
        ResultKind::VcValidationErrorSubjectMismatch => "Validation failed due to unexpected subject."@,
        ResultKind::DidConfigError => "Verification of DID Configuration failed."@,
    }
}

/// Whether a result kind is a verified terminal state.
pub open spec fn kind_verified(k: ResultKind) -> bool {
    k is VcValid || k is VpValid
}

/// The outcome of checking one credential, presentation or configuration
/// document. Serialized with a `result` discriminator equal to the variant
/// name; the payload's `code` is the kind's single bit.
#[derive(Debug)]
pub enum VerificationResult {
    DidConfigError(VerificationResultPayload),
    VcParseError(VerificationResultPayload),
    VcProofError(VerificationResultPayload),
    VcProofErrorAlgorithmMismatch(VerificationResultPayload),
    VcProofErrorKeyMismatch(VerificationResultPayload),
    VcProofErrorMissing(VerificationResultPayload),
    VcProofErrorSignature(VerificationResultPayload),
    VcValid(VerificationResultPayload),
    VcValidationErrorExpired(VerificationResultPayload),
    VcValidationErrorMissingIssuance(VerificationResultPayload),
    VcValidationErrorOther(VerificationResultPayload),
    VcValidationErrorPremature(VerificationResultPayload),
    VcValidationErrorSubjectMismatch(VerificationResultPayload),
    VpParseError(VerificationResultPayload),
    VpProofError(VerificationResultPayload),
    VpValid(VerificationResultPayload),
    VpVerificationError(VerificationResultPayload),
}

impl VerificationResult {
    /// The tag of this result.
    pub open spec fn kind(self) -> ResultKind {
        match self {
            VerificationResult::DidConfigError(_) => ResultKind::DidConfigError,
            VerificationResult::VcParseError(_) => ResultKind::VcParseError,
            VerificationResult::VcProofError(_) => ResultKind::VcProofError,
            VerificationResult::VcProofErrorAlgorithmMismatch(_) => ResultKind::VcProofErrorAlgorithmMismatch,
            VerificationResult::VcProofErrorKeyMismatch(_) => ResultKind::VcProofErrorKeyMismatch,
            VerificationResult::VcProofErrorMissing(_) => ResultKind::VcProofErrorMissing,
            VerificationResult::VcProofErrorSignature(_) => ResultKind::VcProofErrorSignature,
            VerificationResult::VcValid(_) => ResultKind::VcValid,
            VerificationResult::VcValidationErrorExpired(_) => ResultKind::VcValidationErrorExpired,
            VerificationResult::VcValidationErrorMissingIssuance(_) => ResultKind::VcValidationErrorMissingIssuance,
            VerificationResult::VcValidationErrorOther(_) => ResultKind::VcValidationErrorOther,
            VerificationResult::VcValidationErrorPremature(_) => ResultKind::VcValidationErrorPremature,
            VerificationResult::VcValidationErrorSubjectMismatch(_) => ResultKind::VcValidationErrorSubjectMismatch,
            VerificationResult::VpParseError(_) => ResultKind::VpParseError,
            VerificationResult::VpProofError(_) => ResultKind::VpProofError,
            VerificationResult::VpValid(_) => ResultKind::VpValid,
            VerificationResult::VpVerificationError(_) => ResultKind::VpVerificationError,
        }
    }

    /// The payload of this result, whichever variant it is.
    pub open spec fn payload(self) -> VerificationResultPayload {
        match self {
            VerificationResult::DidConfigError(p) => p,
            VerificationResult::VcParseError(p) => p,
            VerificationResult::VcProofError(p) => p,
            VerificationResult::VcProofErrorAlgorithmMismatch(p) => p,
            VerificationResult::VcProofErrorKeyMismatch(p) => p,
            VerificationResult::VcProofErrorMissing(p) => p,
            VerificationResult::VcProofErrorSignature(p) => p,
            VerificationResult::VcValid(p) => p,
            VerificationResult::VcValidationErrorExpired(p) => p,
            VerificationResult::VcValidationErrorMissingIssuance(p) => p,
            VerificationResult::VcValidationErrorOther(p) => p,
            VerificationResult::VcValidationErrorPremature(p) => p,
            VerificationResult::VcValidationErrorSubjectMismatch(p) => p,
            VerificationResult::VpParseError(p) => p,
            VerificationResult::VpProofError(p) => p,
            VerificationResult::VpValid(p) => p,
            VerificationResult::VpVerificationError(p) => p,
        }
    }

    /// The details text of this result.
    pub open spec fn details(self) -> Seq<char> {
        self.payload().details@
    }

    /// Whether this result is one of the two verified terminal states.
    pub open spec fn is_valid(self) -> bool {
        self is VcValid || self is VpValid
    }

    /// A result is well formed when its payload's code, message and
    /// `verified` flag all agree with its variant.
    pub open spec fn wf(self) -> bool {
        &&& self.payload().code == kind_code(self.kind())
        &&& self.payload().message@ == kind_message(self.kind())
        &&& self.payload().verified == kind_verified(self.kind())
    }
}

/// The code is a bijection on kinds: reading a payload's code back
/// identifies the variant it was built from.
pub proof fn lemma_code_identifies_kind(k1: ResultKind, k2: ResultKind)
    ensures
        kind_code(k1) == kind_code(k2) ==> k1 == k2,
{
}

/// The `verified` flag is redundant with the variant: on a well-formed
/// result it is set exactly on the two valid terminal states.
pub proof fn lemma_verified_flag_redundant(r: VerificationResult)
    requires
        r.wf(),
    ensures
        r.payload().verified == r.is_valid(),
{
}

impl VerificationResult {
    /// An exact copy of this result.
    pub fn duplicate(&self) -> (r: Self)
        ensures
            r == *self,
    {
        match self {
            VerificationResult::DidConfigError(p) => VerificationResult::DidConfigError(p.duplicate()),
            VerificationResult::VcParseError(p) => VerificationResult::VcParseError(p.duplicate()),
            VerificationResult::VcProofError(p) => VerificationResult::VcProofError(p.duplicate()),
            VerificationResult::VcProofErrorAlgorithmMismatch(p) => VerificationResult::VcProofErrorAlgorithmMismatch(p.duplicate()),
            VerificationResult::VcProofErrorKeyMismatch(p) => VerificationResult::VcProofErrorKeyMismatch(p.duplicate()),
            VerificationResult::VcProofErrorMissing(p) => VerificationResult::VcProofErrorMissing(p.duplicate()),
            VerificationResult::VcProofErrorSignature(p) => VerificationResult::VcProofErrorSignature(p.duplicate()),
            VerificationResult::VcValid(p) => VerificationResult::VcValid(p.duplicate()),
            VerificationResult::VcValidationErrorExpired(p) => VerificationResult::VcValidationErrorExpired(p.duplicate()),
            VerificationResult::VcValidationErrorMissingIssuance(p) => VerificationResult::VcValidationErrorMissingIssuance(p.duplicate()),
            VerificationResult::VcValidationErrorOther(p) => VerificationResult::VcValidationErrorOther(p.duplicate()),
            VerificationResult::VcValidationErrorPremature(p) => VerificationResult::VcValidationErrorPremature(p.duplicate()),
            VerificationResult::VcValidationErrorSubjectMismatch(p) => VerificationResult::VcValidationErrorSubjectMismatch(p.duplicate()),
            VerificationResult::VpParseError(p) => VerificationResult::VpParseError(p.duplicate()),
            VerificationResult::VpProofError(p) => VerificationResult::VpProofError(p.duplicate()),
            VerificationResult::VpValid(p) => VerificationResult::VpValid(p.duplicate()),
            VerificationResult::VpVerificationError(p) => VerificationResult::VpVerificationError(p.duplicate()),
        }
    }
}

impl VerificationResultPayload {
    /// An exact copy of this payload.
    pub fn duplicate(&self) -> (r: Self)
        ensures
            r == *self,
    {
        VerificationResultPayload {
            code: self.code,
            details: self.details.clone(),
            message: self.message.clone(),
            verified: self.verified,
        }
    }
}

/// Whether every result of a batch is a valid credential: the reduction
/// the URL verification endpoint reports as its `verified` flag.
pub fn all_results_valid(results: &Vec<VerificationResult>) -> (r: bool)
    ensures
        r == forall|i: int| 0 <= i < results@.len() ==> (#[trigger] results@[i]) is VcValid,
{
    let n = results.len();
    for i in 0..n
        invariant
            n == results@.len(),
            forall|k: int| 0 <= k < i ==> (#[trigger] results@[k]) is VcValid,
    {
        match &results[i] {
            VerificationResult::VcValid(_) => {},
            _ => {
                return false;
            },
        }
    }
    true
}

impl VerificationResult {
    /// Builds a [`ResultKind::DidConfigError`] result with the given reason.
    pub fn did_config_error(reason: String) -> (r: Self)
        ensures
            r.wf(),
            r.kind() == ResultKind::DidConfigError,
            r.details() == reason@,
    {
        VerificationResult::DidConfigError(VerificationResultPayload {
            message: "Verification of DID Configuration failed.".to_owned(),
            details: reason,
            verified: false,
            code: 0x10000,
        })
    }

    /// Turns a result into `Ok` exactly when it is a verified terminal
    /// state, and into `Err` otherwise; the carried value is unchanged.
    pub fn into_result(self) -> (r: Result<Self, Self>)
        ensures
            r matches Ok(v) ==> v == self,
            r matches Err(v) ==> v == self,
            r is Ok <==> self.is_valid(),
    {
        match self {
            VerificationResult::VcValid(_) | VerificationResult::VpValid(_) => Ok(self),
            _ => Err(self),
        }
    }

    /// Like [`Self::into_result`], but the `Ok` side is a one-element list.
    pub fn into_vec_result(self) -> (r: Result<Vec<Self>, Self>)
        ensures
            r matches Ok(v) ==> v@ =~= seq![self],
            r matches Err(v) ==> v == self,
            r is Ok <==> self.is_valid(),
    {
        match self {
            VerificationResult::VcValid(_) | VerificationResult::VpValid(_) => {
                let mut v: Vec<Self> = Vec::new();
                v.push(self);
                Ok(v)
            },
            _ => Err(self),
        }
    }

    /// Builds a [`ResultKind::VcParseError`] result.
    pub fn vc_parse_error(e: String) -> (r: Self)
        ensures
            r.wf(),
            r.kind() == ResultKind::VcParseError,
            r.details() == e@,
    {
        VerificationResult::VcParseError(VerificationResultPayload {
            message: "Failed to parse Verifiable Credential.".to_owned(),
            details: e,
            verified: false,
            code: 0x20,
        })
    }

    /// Builds a [`ResultKind::VcProofError`] result.
    pub fn vc_proof_error(e: String) -> (r: Self)
        ensures
            r.wf(),
            r.kind() == ResultKind::VcProofError,
            r.details() == e@,
    {
        VerificationResult::VcProofError(VerificationResultPayload {
            message: "Proof error in Verifiable Credential.".to_owned(),
            details: e,
            verified: false,
            code: 0x40,
        })
    }

    /// Builds a [`ResultKind::VcProofErrorAlgorithmMismatch`] result.
    pub fn vc_proof_error_algorithm_mismatch(e: String) -> (r: Self)
        ensures
            r.wf(),
            r.kind() == ResultKind::VcProofErrorAlgorithmMismatch,
            r.details() == e@,
    {
        VerificationResult::VcProofErrorAlgorithmMismatch(VerificationResultPayload {
            message: "Algorithm mismatch in Verifiable Credential proof.".to_owned(),
            details: e,
            verified: false,
            code: 0x400,
        })
    }

    /// Builds a [`ResultKind::VcProofErrorKeyMismatch`] result.
    pub fn vc_proof_error_key_mismatch(e: String) -> (r: Self)
        ensures
            r.wf(),
            r.kind() == ResultKind::VcProofErrorKeyMismatch,
            r.details() == e@,
    {
        VerificationResult::VcProofErrorKeyMismatch(VerificationResultPayload {
            message: "Key mismatch in Verifiable Credential proof.".to_owned(),
            details: e,
            verified: false,
            code: 0x200,
        })
    }

    /// Builds a [`ResultKind::VcProofErrorMissing`] result.
    pub fn vc_proof_error_missing(e: String) -> (r: Self)
        ensures
            r.wf(),
            r.kind() == ResultKind::VcProofErrorMissing,
            r.details() == e@,
    {
        VerificationResult::VcProofErrorMissing(VerificationResultPayload {
            message: "Missing proof in Verifiable Credential.".to_owned(),
            details: e,
            verified: false,
            code: 0x80,
        })
    }

    /// Builds a [`ResultKind::VcProofErrorSignature`] result.
    pub fn vc_proof_error_signature(e: String) -> (r: Self)
        ensures
            r.wf(),
            r.kind() == ResultKind::VcProofErrorSignature,
            r.details() == e@,
    {
        VerificationResult::VcProofErrorSignature(VerificationResultPayload {
            message: "Invalid signature in Verifiable Credential proof.".to_owned(),
            details: e,
            verified: false,
            code: 0x100,
        })
    }

    /// Builds the verified [`ResultKind::VcValid`] terminal state.
    pub fn vc_valid() -> (r: Self)
        ensures
            r.wf(),
            r.kind() == ResultKind::VcValid,
            r.details() == Seq::<char>::empty(),
    {
        VerificationResult::VcValid(VerificationResultPayload {
            message: "Verifiable Credential is valid.".to_owned(),
            details: String::new(),
            verified: true,
            code: 0x2,
        })
    }

    /// Builds a [`ResultKind::VcValidationErrorExpired`] result; the details
    /// carry the credential's `validUntil` timestamp.
    pub fn vc_validation_error_expired(e: String) -> (r: Self)
        ensures
            r.wf(),
            r.kind() == ResultKind::VcValidationErrorExpired,
            r.details() == e@,
    {
        VerificationResult::VcValidationErrorExpired(VerificationResultPayload {
            message: "Verifiable Credential has expired.".to_owned(),
            details: e,
            verified: false,
            code: 0x2000,
        })
    }

    /// Builds a [`ResultKind::VcValidationErrorOther`] result.
    pub fn vc_validation_error_other(e: String) -> (r: Self)
        ensures
            r.wf(),
            r.kind() == ResultKind::VcValidationErrorOther,
            r.details() == e@,
    {
        VerificationResult::VcValidationErrorOther(VerificationResultPayload {
            message: "Validation failed for unknown reasons.".to_owned(),
            details: e,
            verified: false,
            code: 0x800,
        })
    }

    /// Builds a [`ResultKind::VcValidationErrorPremature`] result; the
    /// details carry the credential's `validFrom` timestamp.
    pub fn vc_validation_error_premature(e: String) -> (r: Self)
        ensures
            r.wf(),
            r.kind() == ResultKind::VcValidationErrorPremature,
            r.details() == e@,
    {
        VerificationResult::VcValidationErrorPremature(VerificationResultPayload {
            message: "Verifiable Credential is not valid yet (premature).".to_owned(),
            details: e,
            verified: false,
            code: 0x1000,
        })
    }

    /// Builds a [`ResultKind::VcValidationErrorSubjectMismatch`] result.
    pub fn vc_validation_error_subject_mismatch(e: String) -> (r: Self)
        ensures
            r.wf(),
            r.kind() == ResultKind::VcValidationErrorSubjectMismatch,
            r.details() == e@,
    {
        VerificationResult::VcValidationErrorSubjectMismatch(VerificationResultPayload {
            message: "Validation failed due to unexpected subject.".to_owned(),
            details: e,
            verified: false,
            code: 0x8000,
        })
    }

    /// Builds a [`ResultKind::VcValidationErrorMissingIssuance`] result.
    pub fn vc_validation_missing_issuance_date(e: String) -> (r: Self)
        ensures
            r.wf(),
            r.kind() == ResultKind::VcValidationErrorMissingIssuance,
            r.details() == e@,
    {
        VerificationResult::VcValidationErrorMissingIssuance(VerificationResultPayload {
            message: "Issuance date is missing in Verifiable Credential.".to_owned(),
            details: e,
            verified: false,
            code: 0x4000,
        })
    }

    /// Builds a [`ResultKind::VpParseError`] result.
    pub fn vp_parse_error(e: String) -> (r: Self)
        ensures
            r.wf(),
            r.kind() == ResultKind::VpParseError,
            r.details() == e@,
    {
        VerificationResult::VpParseError(VerificationResultPayload {
            message: "Failed to parse Verifiable Presentation.".to_owned(),
            details: e,
            verified: false,
            code: 0x4,
        })
    }

    /// Builds a [`ResultKind::VpProofError`] result.
    pub fn vp_proof_error(e: String) -> (r: Self)
        ensures
            r.wf(),
            r.kind() == ResultKind::VpProofError,
            r.details() == e@,
    {
        VerificationResult::VpProofError(VerificationResultPayload {
            message: "Proof error in Verifiable Presentation.".to_owned(),
            details: e,
            verified: false,
            code: 0x8,
        })
    }

    /// Builds the verified [`ResultKind::VpValid`] terminal state.
    pub fn vp_valid() -> (r: Self)
        ensures
            r.wf(),
            r.kind() == ResultKind::VpValid,
            r.details() == Seq::<char>::empty(),
    {
        VerificationResult::VpValid(VerificationResultPayload {
            message: "Verifiable Presentation is valid.".to_owned(),
            details: String::new(),
            verified: true,
            code: 0x1,
        })
    }

    /// Builds a [`ResultKind::VpVerificationError`] result.
    pub fn vp_verification_error(e: String) -> (r: Self)
        ensures
            r.wf(),
            r.kind() == ResultKind::VpVerificationError,
            r.details() == e@,
    {
        VerificationResult::VpVerificationError(VerificationResultPayload {
            message: "Verification of Verifiable Presentation failed.".to_owned(),
            details: e,
            verified: false,
            code: 0x10,
        })
    }
}

} // verus!
