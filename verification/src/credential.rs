//! Credential verification: the decision taken on one Verifiable
//! Credential once the caller has parsed it and run its (asynchronous,
//! external) cryptographic proof check.
//!
//! The caller reports what happened as a [`VcCheckEvent`]; every rule on
//! that event — fault mapping, subject binding, bearer-credential
//! allowance — is decided and proved here.

use vstd::prelude::*;
use vstd::string::StringExecFns;

use crate::did::{check_did, is_did};
use crate::faults::{invalidity_details, invalidity_kind, is_proof_error_kind, Invalidity};
use crate::results::{kind_verified, ResultKind, VerificationResult};
use crate::text::str_eq;

verus! {

/// What the parse and proof-check pipeline reported for one credential.
#[derive(Debug)]
pub enum VcCheckEvent {
    /// The credential JSON did not parse as a Data-Integrity credential.
    ParseFailed { details: String },
    /// Proof verification failed mechanically (resolver error, unsupported
    /// algorithm, malformed proof structure).
    ProofFailed { details: String },
    /// Proof verification ran and found the claims or the proof invalid.
    Invalid { fault: Invalidity },
    /// Proof verification succeeded; `subject_id` is the credential's
    /// `credentialSubject[0].id` where that field is present and a string.
    Verified { subject_id: Option<String> },
}

/// Whether the reported subject id is present and a syntactically valid DID.
pub open spec fn subject_is_did(subject_id: Option<String>) -> bool {
    subject_id matches Some(s) && is_did(s@)
}

/// The details text of a subject-mismatch result.
pub open spec fn mismatch_details(expected: Seq<char>, found: Seq<char>) -> Seq<char> {
    "Expected '"@ + expected + "' but found '"@ + found + "'"@
}

/// The result kind that checking one credential produces.
pub open spec fn vc_verdict_kind(
    event: VcCheckEvent,
    expected: Seq<char>,
    allow_missing_subjectid: bool,
) -> ResultKind {
    match event {
        VcCheckEvent::ParseFailed { .. } => ResultKind::VcParseError,
        VcCheckEvent::ProofFailed { .. } => ResultKind::VcProofError,
        VcCheckEvent::Invalid { fault } => invalidity_kind(fault),
        VcCheckEvent::Verified { subject_id } => {
            if !subject_is_did(subject_id) {
                if allow_missing_subjectid {
                    ResultKind::VcValid
                } else {
                    ResultKind::VcValidationErrorOther
                }
            } else if subject_id.unwrap()@ == expected {
                ResultKind::VcValid
            } else {
                ResultKind::VcValidationErrorSubjectMismatch
            }
        },
    }
}

/// The details text that checking one credential produces.
pub open spec fn vc_verdict_details(
    event: VcCheckEvent,
    expected: Seq<char>,
    allow_missing_subjectid: bool,
) -> Seq<char> {
    match event {
        VcCheckEvent::ParseFailed { details } => details@,
        VcCheckEvent::ProofFailed { details } => details@,
        VcCheckEvent::Invalid { fault } => invalidity_details(fault),
        VcCheckEvent::Verified { subject_id } => {
            if !subject_is_did(subject_id) {
                if allow_missing_subjectid {
                    Seq::<char>::empty()
                } else {
                    "Subject must be a DID"@
                }
            } else if subject_id.unwrap()@ == expected {
                Seq::<char>::empty()
            } else {
                mismatch_details(expected, subject_id.unwrap()@)
            }
        },
    }
}

/// The value carried on either side of a verification result.
pub open spec fn result_value(
    r: Result<VerificationResult, VerificationResult>,
) -> VerificationResult {
    match r {
        Ok(v) => v,
        Err(v) => v,
    }
}

/// The full postcondition of [`verify_vc`]: the returned result is well
/// formed, its kind and details are the verdict of the event, and it sits
/// on the `Ok` side exactly when that verdict is a verified state.
pub open spec fn vc_check_contract(
    event: VcCheckEvent,
    expected: Seq<char>,
    allow_missing_subjectid: bool,
    r: Result<VerificationResult, VerificationResult>,
) -> bool {
    let v = result_value(r);
    &&& v.wf()
    &&& v.kind() == vc_verdict_kind(event, expected, allow_missing_subjectid)
    &&& v.details() == vc_verdict_details(event, expected, allow_missing_subjectid)
    &&& r is Ok <==> kind_verified(vc_verdict_kind(event, expected, allow_missing_subjectid))
}

/// Decides the outcome for one credential from its check event.
///
/// A parse failure, a mechanical proof failure and each semantic fault map
/// 1:1 onto the result taxonomy. On cryptographic success the subject
/// binding is checked: a subject id that is absent or not a well-formed DID
/// is accepted only for bearer-style credentials
/// (`allow_missing_subjectid`); a well-formed subject DID must equal
/// `expected_subject`.
pub fn verify_vc(
    event: VcCheckEvent,
    expected_subject: &str,
    allow_missing_subjectid: bool,
) -> (r: Result<VerificationResult, VerificationResult>)
    ensures
        vc_check_contract(event, expected_subject@, allow_missing_subjectid, r),
{
    match event {
        VcCheckEvent::ParseFailed { details } => {
            VerificationResult::vc_parse_error(details).into_result()
        },
        VcCheckEvent::ProofFailed { details } => {
            VerificationResult::vc_proof_error(details).into_result()
        },
        VcCheckEvent::Invalid { fault } => {
            VerificationResult::from_invalidity(fault).into_result()
        },
        VcCheckEvent::Verified { subject_id } => {
            let id_is_did = match &subject_id {
                Some(s) => check_did(s.as_str()),
                None => false,
            };
            if !id_is_did {
                if allow_missing_subjectid {
                    VerificationResult::vc_valid().into_result()
                } else {
                    VerificationResult::vc_validation_error_other(
                        "Subject must be a DID".to_owned(),
                    ).into_result()
                }
            } else {
                let found = subject_id.unwrap();
                if str_eq(found.as_str(), expected_subject) {
                    VerificationResult::vc_valid().into_result()
                } else {
                    let mut details = "Expected '".to_owned();
                    details.append(expected_subject);
                    details.append("' but found '");
                    details.append(found.as_str());
                    details.append("'");
                    VerificationResult::vc_validation_error_subject_mismatch(details)
                        .into_result()
                }
            }
        },
    }
}

/// A correctly-signed credential whose subject is a well-formed DID equal
/// to the expected one is accepted as valid, whether or not bearer
/// credentials are allowed.
pub proof fn lemma_matching_subject_accepted(
    subject: String,
    expected: Seq<char>,
    allow_missing_subjectid: bool,
)
    requires
        is_did(subject@),
        subject@ == expected,
    ensures
        ({
            let event = VcCheckEvent::Verified { subject_id: Some(subject) };
            vc_verdict_kind(event, expected, allow_missing_subjectid) == ResultKind::VcValid
        }),
{
}

/// A credential whose proof could not be accepted — mechanically or
/// because of a proof fault such as a signature made with a key the stated
/// verification method does not control — is reported as a proof error,
/// never as valid.
pub proof fn lemma_proof_fault_never_valid(
    event: VcCheckEvent,
    expected: Seq<char>,
    allow_missing_subjectid: bool,
)
    requires
        event matches VcCheckEvent::Invalid { fault: Invalidity::Proof(_) }
            || event is ProofFailed,
    ensures
        is_proof_error_kind(vc_verdict_kind(event, expected, allow_missing_subjectid)),
        !kind_verified(vc_verdict_kind(event, expected, allow_missing_subjectid)),
{
}

/// A credential whose `validUntil` lies in the past is reported as
/// expired, with the details equal to the RFC3339 rendering of that
/// timestamp as the checker reported it.
pub proof fn lemma_expired_reported(
    valid_until: String,
    expected: Seq<char>,
    allow_missing_subjectid: bool,
)
    ensures
        ({
            let event = VcCheckEvent::Invalid {
                fault: Invalidity::Claims(crate::faults::ClaimsFault::Expired { valid_until }),
            };
            &&& vc_verdict_kind(event, expected, allow_missing_subjectid)
                == ResultKind::VcValidationErrorExpired
            &&& vc_verdict_details(event, expected, allow_missing_subjectid) == valid_until@
        }),
{
}

/// Checking a credential is deterministic: two results of [`verify_vc`]
/// for the same event, expected subject and allowance agree on their side,
/// kind and details.
pub proof fn lemma_verify_vc_deterministic(
    event: VcCheckEvent,
    expected: Seq<char>,
    allow_missing_subjectid: bool,
    r1: Result<VerificationResult, VerificationResult>,
    r2: Result<VerificationResult, VerificationResult>,
)
    requires
        vc_check_contract(event, expected, allow_missing_subjectid, r1),
        vc_check_contract(event, expected, allow_missing_subjectid, r2),
    ensures
        (r1 is Ok) == (r2 is Ok),
        result_value(r1).kind() == result_value(r2).kind(),
        result_value(r1).details() == result_value(r2).details(),
{
}

} // verus!
