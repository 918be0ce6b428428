//! The validation orchestrator: the protocol-level entry point that wires
//! the input matcher, the holder extraction and the credential and
//! presentation verifiers together, and collapses the per-input results
//! into one protocol outcome.
//!
//! The cryptographic checks themselves are asynchronous, external work:
//! [`validate`] either finishes on its own or hands back the list of
//! checks to run; the caller performs them and brings the events to
//! [`verify_submission`], which reduces everything to an [`Outcome`].

use vstd::prelude::*;
use vstd::string::StringExecFns;

use crate::credential::{vc_verdict_details, vc_verdict_kind, verify_vc, VcCheckEvent};
use crate::did::{check_did, is_did};
use crate::json::json_first_element;
use crate::matcher::{
    effective_value, find_and_validate_inputs, get_holder_id, input_matches_mapping,
    lemma_holder_search_from_mappings, mapping_matchable, spec_holder_from_mappings,
    HolderOutcome, MatchingInput, PresentationDefinition, PresentationSubmission,
};
use crate::decode::ClaimFormatDesignation;
use crate::presentation::{
    verify_vp, vp_verdict_details, vp_verdict_kind, VpCheckEvent, VpDecision,
};
use crate::results::{kind_verified, ResultKind, VerificationResult};

verus! {

/// The protocol-level result of one validation call. All granularity of
/// the underlying per-input results is collapsed: all valid, some
/// failure, or an internal/decoding problem.
pub enum Outcome {
    Success { info: String },
    Failure { reason: String },
    Error { cause: String },
}

/// What the external protocol layer asked to validate: a presentation
/// definition kept in the session, if one was set.
pub struct Session {
    pub presentation_definition: Option<PresentationDefinition>,
}

/// The submitted authorization response. The JWT-encoded form is
/// deliberately unsupported and surfaces as a distinct error outcome,
/// never a crash.
pub enum AuthorizationResponse {
    Unencoded { vp_token: String, presentation_submission: PresentationSubmission },
    Jwt { response: String },
}

/// One check that the caller must run for one matched input.
pub enum PlannedCheck {
    /// A JWT-encoded presentation or credential: unsupported, counts as a
    /// presentation proof failure.
    UnsupportedPresentation,
    /// Any other unknown claim type: unsupported, counts as a credential
    /// proof failure.
    UnsupportedClaim,
    /// Verify this presentation's proof and holder binding only; its
    /// credentials are validated separately through their own mappings.
    Presentation { value: String },
    /// Verify this credential fully, allowing a missing subject id.
    Credential { value: String },
}

/// What the caller's check of one matched input reported.
pub enum InputCheckEvent {
    /// The input needed no cryptographic check.
    NotNeeded,
    /// The presentation-level check event.
    Presentation { vp_event: VpCheckEvent },
    /// The credential-level check event.
    Credential { vc_event: VcCheckEvent },
}

/// The value one matched input is verified as: its raw match, with an
/// embedded JSON document unwrapped, and of an array its first element.
pub open spec fn normalized_value(raw: Seq<char>) -> Seq<char> {
    let unwrapped = effective_value(raw);
    match json_first_element(unwrapped) {
        Some(first) => first,
        None => unwrapped,
    }
}

/// Which check is planned for one matched input.
pub open spec fn planned_for(input: MatchingInput, c: PlannedCheck) -> bool {
    match input.format {
        ClaimFormatDesignation::JwtVpJson | ClaimFormatDesignation::JwtVcJson => c
            is UnsupportedPresentation,
        ClaimFormatDesignation::LdpVp => c matches PlannedCheck::Presentation { value }
            && value@ == normalized_value(input.raw_value@),
        ClaimFormatDesignation::LdpVc => c matches PlannedCheck::Credential { value }
            && value@ == normalized_value(input.raw_value@),
        _ => c is UnsupportedClaim,
    }
}

/// Computes [`normalized_value`] of a raw matched value.
fn normalize_value(raw: &str) -> (r: String)
    ensures
        r@ == normalized_value(raw@),
{
    let unwrapped = crate::matcher::effective_of(raw);
    match crate::json::first_element_of(unwrapped.as_str()) {
        Some(first) => first,
        None => unwrapped,
    }
}

/// Plans the check each matched input needs, by its declared format.
pub fn plan_checks(inputs: &Vec<MatchingInput>) -> (r: Vec<PlannedCheck>)
    ensures
        r@.len() == inputs@.len(),
        forall|k: int| 0 <= k < inputs@.len() ==> planned_for(#[trigger] inputs@[k], r@[k]),
{
    let n = inputs.len();
    let mut out: Vec<PlannedCheck> = Vec::new();
    for k in 0..n
        invariant
            n == inputs@.len(),
            out@.len() == k,
            forall|kk: int| 0 <= kk < k ==> planned_for(#[trigger] inputs@[kk], out@[kk]),
    {
        let check = match &inputs[k].format {
            ClaimFormatDesignation::JwtVpJson | ClaimFormatDesignation::JwtVcJson => {
                PlannedCheck::UnsupportedPresentation
            },
            ClaimFormatDesignation::LdpVp => PlannedCheck::Presentation {
                value: normalize_value(inputs[k].raw_value.as_str()),
            },
            ClaimFormatDesignation::LdpVc => PlannedCheck::Credential {
                value: normalize_value(inputs[k].raw_value.as_str()),
            },
            _ => PlannedCheck::UnsupportedClaim,
        };
        out.push(check);
    }
    out
}

/// Whether the event is of the sort the planned check calls for.
pub open spec fn event_fits(c: PlannedCheck, e: InputCheckEvent) -> bool {
    match c {
        PlannedCheck::UnsupportedPresentation => e is NotNeeded,
        PlannedCheck::UnsupportedClaim => e is NotNeeded,
        PlannedCheck::Presentation { .. } => e is Presentation,
        PlannedCheck::Credential { .. } => e is Credential,
    }
}

/// The kind of the result one planned check reports, given its event.
pub open spec fn spec_item_kind(
    c: PlannedCheck,
    e: InputCheckEvent,
    expected: Seq<char>,
) -> ResultKind {
    match c {
        PlannedCheck::UnsupportedPresentation => ResultKind::VpProofError,
        PlannedCheck::UnsupportedClaim => ResultKind::VcProofError,
        PlannedCheck::Presentation { .. } => match e {
            InputCheckEvent::Presentation { vp_event } => vp_verdict_kind(vp_event, expected),
            _ => ResultKind::VpProofError,
        },
        PlannedCheck::Credential { .. } => match e {
            InputCheckEvent::Credential { vc_event } => vc_verdict_kind(vc_event, expected, true),
            _ => ResultKind::VcProofError,
        },
    }
}

/// The details of the result one planned check reports, given its event.
pub open spec fn spec_item_details(
    c: PlannedCheck,
    e: InputCheckEvent,
    expected: Seq<char>,
) -> Seq<char> {
    match c {
        PlannedCheck::UnsupportedPresentation => "JwtVpJson is not supported"@,
        PlannedCheck::UnsupportedClaim => "Claim type not supported"@,
        PlannedCheck::Presentation { .. } => match e {
            InputCheckEvent::Presentation { vp_event } => vp_verdict_details(vp_event, expected),
            _ => Seq::<char>::empty(),
        },
        PlannedCheck::Credential { .. } => match e {
            InputCheckEvent::Credential { vc_event } => vc_verdict_details(
                vc_event,
                expected,
                true,
            ),
            _ => Seq::<char>::empty(),
        },
    }
}

/// Whether one planned check, given its event, counts as verified: an
/// unsupported input never does; a presentation passes on its proof and
/// holder binding; a credential passes under the bearer-credential
/// allowance.
pub open spec fn submission_item_ok(
    c: PlannedCheck,
    e: InputCheckEvent,
    expected: Seq<char>,
) -> bool {
    kind_verified(spec_item_kind(c, e, expected))
}

/// Builds the per-input result list: one result per planned check, in
/// input order. This is the granularity the protocol outcome collapses;
/// callers may log it.
pub fn submission_results(
    checks: &Vec<PlannedCheck>,
    events: Vec<InputCheckEvent>,
    expected_id: &str,
) -> (rs: Vec<VerificationResult>)
    requires
        events@.len() == checks@.len(),
        forall|k: int| 0 <= k < checks@.len() ==> event_fits(#[trigger] checks@[k], events@[k]),
    ensures
        rs@.len() == checks@.len(),
        forall|k: int|
            0 <= k < checks@.len() ==> {
                &&& (#[trigger] rs@[k]).wf()
                &&& rs@[k].kind() == spec_item_kind(checks@[k], events@[k], expected_id@)
                &&& rs@[k].details() == spec_item_details(checks@[k], events@[k], expected_id@)
            },
{
    let n = checks.len();
    let ghost all_events = events@;
    let mut rest = events;
    let mut rs: Vec<VerificationResult> = Vec::new();
    for k in 0..n
        invariant
            n == checks@.len(),
            all_events.len() == n,
            rest@ =~= all_events.skip(k as int),
            rs@.len() == k,
            forall|kk: int|
                0 <= kk < checks@.len() ==> event_fits(#[trigger] checks@[kk], all_events[kk]),
            forall|kk: int|
                0 <= kk < k ==> {
                    &&& (#[trigger] rs@[kk]).wf()
                    &&& rs@[kk].kind() == spec_item_kind(checks@[kk], all_events[kk], expected_id@)
                    &&& rs@[kk].details() == spec_item_details(
                        checks@[kk],
                        all_events[kk],
                        expected_id@,
                    )
                },
    {
        proof {
            assert(rest@[0] == all_events[k as int]);
        }
        let event = rest.remove(0);
        let result = match (&checks[k], event) {
            (PlannedCheck::UnsupportedPresentation, _) => {
                VerificationResult::vp_proof_error("JwtVpJson is not supported".to_owned())
            },
            (PlannedCheck::UnsupportedClaim, _) => {
                VerificationResult::vc_proof_error("Claim type not supported".to_owned())
            },
            (PlannedCheck::Presentation { .. }, InputCheckEvent::Presentation { vp_event }) => {
                match verify_vp(vp_event, expected_id, false) {
                    VpDecision::Rejected { error } => error,
                    VpDecision::AcceptedProofOnly => VerificationResult::vp_valid(),
                    VpDecision::CheckCredentials => vstd::pervasive::unreached(),
                }
            },
            (PlannedCheck::Credential { .. }, InputCheckEvent::Credential { vc_event }) => {
                match verify_vc(vc_event, expected_id, true) {
                    Ok(result) => result,
                    Err(result) => result,
                }
            },
            (_, _) => vstd::pervasive::unreached(),
        };
        rs.push(result);
        proof {
            assert(rest@ =~= all_events.skip(k + 1));
        }
    }
    rs
}

/// The full postcondition of [`verify_submission`]: no inputs is an
/// internal error; otherwise all checks verified is success and anything
/// less is failure. No partial credit is exposed at this layer.
pub open spec fn submission_outcome_contract(
    checks: Seq<PlannedCheck>,
    events: Seq<InputCheckEvent>,
    expected: Seq<char>,
    o: Outcome,
) -> bool {
    if checks.len() == 0 {
        o matches Outcome::Error { cause } && cause@ == "Not enough inputs received"@
    } else if forall|k: int|
        0 <= k < checks.len() ==> submission_item_ok(#[trigger] checks[k], events[k], expected) {
        o matches Outcome::Success { info } && info@ == "Verification successed"@
    } else {
        o matches Outcome::Failure { reason } && reason@ == "Verification failed"@
    }
}

/// Verifies the matched inputs from the events the caller's checks
/// reported, and reduces them to one protocol outcome.
pub fn verify_submission(
    checks: &Vec<PlannedCheck>,
    events: Vec<InputCheckEvent>,
    expected_id: &str,
) -> (o: Outcome)
    requires
        events@.len() == checks@.len(),
        forall|k: int| 0 <= k < checks@.len() ==> event_fits(#[trigger] checks@[k], events@[k]),
    ensures
        submission_outcome_contract(checks@, events@, expected_id@, o),
{
    let n = checks.len();
    if n == 0 {
        return Outcome::Error { cause: "Not enough inputs received".to_owned() };
    }
    let ghost all_events = events@;
    let results = submission_results(checks, events, expected_id);
    let mut all_ok = true;
    for k in 0..n
        invariant
            n == checks@.len(),
            all_events.len() == n,
            results@.len() == n,
            forall|kk: int|
                0 <= kk < checks@.len() ==> event_fits(#[trigger] checks@[kk], all_events[kk]),
            forall|kk: int|
                0 <= kk < n ==> (#[trigger] results@[kk]).kind() == spec_item_kind(
                    checks@[kk],
                    all_events[kk],
                    expected_id@,
                ),
            all_ok == forall|kk: int|
                0 <= kk < k ==> submission_item_ok(
                    #[trigger] checks@[kk],
                    all_events[kk],
                    expected_id@,
                ),
    {
        let ghost previously_ok = all_ok;
        let item_ok = match &results[k] {
            VerificationResult::VcValid(_) | VerificationResult::VpValid(_) => true,
            _ => false,
        };
        proof {
            assert(item_ok == kind_verified(
                spec_item_kind(checks@[k as int], all_events[k as int], expected_id@),
            ));
            assert(item_ok == submission_item_ok(
                checks@[k as int],
                all_events[k as int],
                expected_id@,
            ));
        }
        all_ok = all_ok && item_ok;
        proof {
            if all_ok {
                assert forall|kk: int| 0 <= kk < k + 1 implies submission_item_ok(
                    #[trigger] checks@[kk],
                    all_events[kk],
                    expected_id@,
                ) by {}
            } else {
                if previously_ok {
                    assert(!submission_item_ok(
                        checks@[k as int],
                        all_events[k as int],
                        expected_id@,
                    ));
                }
            }
        }
    }
    if all_ok {
        Outcome::Success { info: "Verification successed".to_owned() }
    } else {
        Outcome::Failure { reason: "Verification failed".to_owned() }
    }
}

/// What [`validate`] decided: either a final outcome, or the checks the
/// caller must run before [`verify_submission`] can finish the job.
pub enum PreparedValidation {
    /// Validation finished without cryptographic work.
    Done { outcome: Outcome },
    /// The submission matched; run one check per matched input and hand
    /// the events, with these checks and this holder DID, to
    /// [`verify_submission`].
    NeedChecks { inputs: Vec<MatchingInput>, expected_id: String, checks: Vec<PlannedCheck> },
}

/// The failure reason when a submission references a different
/// definition.
pub open spec fn mismatch_reason(expected: Seq<char>, got: Seq<char>) -> Seq<char> {
    "Submission is for a different definition, IDs don't match: expected: "@ + expected
        + " got: "@ + got
}

/// The full postcondition of [`validate`].
pub open spec fn validate_contract(
    session: Session,
    response: AuthorizationResponse,
    r: PreparedValidation,
) -> bool {
    match session.presentation_definition {
        None => r matches PreparedValidation::Done { outcome } && outcome matches Outcome::Error {
            cause,
        } && cause@ == "Presentation definition empty"@,
        Some(definition) => match response {
            AuthorizationResponse::Jwt { .. } => r matches PreparedValidation::Done { outcome }
                && outcome matches Outcome::Error { cause } && cause@
                == "JWT submissions not supported"@,
            AuthorizationResponse::Unencoded { vp_token, presentation_submission } => {
                let maps = presentation_submission.descriptor_map@;
                if presentation_submission.definition_id@ != definition.id@ {
                    r matches PreparedValidation::Done { outcome } && outcome
                        matches Outcome::Failure { reason } && reason@ == mismatch_reason(
                        definition.id@,
                        presentation_submission.definition_id@,
                    )
                } else if !(forall|k: int|
                    0 <= k < maps.len() ==> mapping_matchable(
                        vp_token@,
                        #[trigger] maps[k],
                        definition.input_descriptors@,
                    )) {
                    r matches PreparedValidation::Done { outcome } && outcome
                        matches Outcome::Error { cause } && cause@ == "Decoding error"@
                } else {
                    match spec_holder_from_mappings(vp_token@, maps) {
                        HolderOutcome::PathError => r matches PreparedValidation::Done { outcome }
                            && outcome matches Outcome::Error { cause } && cause@
                            == "JSONPath error"@,
                        HolderOutcome::DecodeError => r matches PreparedValidation::Done {
                            outcome,
                        } && outcome matches Outcome::Error { cause } && cause@
                            == "JSONPath decoding error"@,
                        HolderOutcome::NotFound => r matches PreparedValidation::Done { outcome }
                            && outcome matches Outcome::Error { cause } && cause@
                            == "Unable to determine holder ID"@,
                        HolderOutcome::Found(holder) => if !is_did(holder) {
                            r matches PreparedValidation::Done { outcome } && outcome
                                matches Outcome::Error { cause } && cause@ == "Invalid DID"@
                        } else {
                            r matches PreparedValidation::NeedChecks {
                                inputs,
                                expected_id,
                                checks,
                            } && {
                                &&& expected_id@ == holder
                                &&& inputs@.len() == maps.len()
                                &&& forall|k: int|
                                    0 <= k < maps.len() ==> input_matches_mapping(
                                        vp_token@,
                                        maps[k],
                                        definition.input_descriptors@,
                                        #[trigger] inputs@[k],
                                    )
                                &&& checks@.len() == inputs@.len()
                                &&& forall|k: int|
                                    0 <= k < inputs@.len() ==> planned_for(
                                        #[trigger] inputs@[k],
                                        checks@[k],
                                    )
                            }
                        },
                    }
                }
            },
        },
    }
}

/// Validates the submitted presentation against the session's
/// presentation definition.
///
/// A missing definition, a JWT-encoded submission, a definition-id
/// mismatch, an unmatchable submission and a failed holder extraction
/// each finish immediately with the corresponding outcome. Otherwise the
/// submission matched: the caller runs the returned checks — the
/// cryptographic work this engine does not perform — and reduces their
/// events with [`verify_submission`].
pub fn validate(session: &Session, response: &AuthorizationResponse) -> (r: PreparedValidation)
    ensures
        validate_contract(*session, *response, r),
{
    let definition = match &session.presentation_definition {
        Some(definition) => definition,
        None => {
            return PreparedValidation::Done {
                outcome: Outcome::Error { cause: "Presentation definition empty".to_owned() },
            };
        },
    };
    let (vp_token, presentation_submission) = match response {
        AuthorizationResponse::Unencoded { vp_token, presentation_submission } => (
            vp_token,
            presentation_submission,
        ),
        AuthorizationResponse::Jwt { .. } => {
            return PreparedValidation::Done {
                outcome: Outcome::Error { cause: "JWT submissions not supported".to_owned() },
            };
        },
    };
    if !crate::text::str_eq(
        presentation_submission.definition_id.as_str(),
        definition.id.as_str(),
    ) {
        let mut reason =
            "Submission is for a different definition, IDs don't match: expected: ".to_owned();
        reason.append(definition.id.as_str());
        reason.append(" got: ");
        reason.append(presentation_submission.definition_id.as_str());
        return PreparedValidation::Done { outcome: Outcome::Failure { reason } };
    }
    let inputs = match find_and_validate_inputs(
        definition,
        presentation_submission,
        vp_token.as_str(),
    ) {
        Ok(inputs) => inputs,
        Err(_) => {
            return PreparedValidation::Done {
                outcome: Outcome::Error { cause: "Decoding error".to_owned() },
            };
        },
    };
    proof {
        lemma_holder_search_from_mappings(
            vp_token@,
            presentation_submission.descriptor_map@,
            definition.input_descriptors@,
            inputs@,
        );
    }
    let expected_id = match get_holder_id(&inputs) {
        Ok(holder) => holder,
        Err(cause) => {
            return PreparedValidation::Done { outcome: Outcome::Error { cause } };
        },
    };
    if !check_did(expected_id.as_str()) {
        return PreparedValidation::Done {
            outcome: Outcome::Error { cause: "Invalid DID".to_owned() },
        };
    }
    let checks = plan_checks(&inputs);
    PreparedValidation::NeedChecks { inputs, expected_id, checks }
}

} // verus!
