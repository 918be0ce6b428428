//! Presentation verification: the decision taken on one Verifiable
//! Presentation once the caller has parsed it and checked its proof, and
//! the order restoration of the per-credential results produced by the
//! concurrent fan-out over its embedded credentials.

use vstd::prelude::*;

use crate::results::{ResultKind, VerificationResult};

verus! {

/// What the parse and proof-check pipeline reported for one presentation.
#[derive(Debug)]
pub enum VpCheckEvent {
    /// The presentation JSON did not parse as a Data-Integrity presentation.
    ParseFailed { details: String },
    /// Proof verification failed mechanically.
    ProofFailed { details: String },
    /// Proof verification ran and found the presentation invalid.
    Invalid { details: String },
    /// Proof verification succeeded; `holder` is the presentation's
    /// declared holder URI where one is present.
    Verified { holder: Option<String> },
}

/// What to do with one presentation after its proof-level checks.
#[derive(Debug)]
pub enum VpDecision {
    /// The presentation is rejected with this error result.
    Rejected { error: VerificationResult },
    /// The proof-only check passed; the presentation counts as valid
    /// without inspecting its credentials.
    AcceptedProofOnly,
    /// The proof-level checks passed; every embedded credential must now
    /// be checked in turn.
    CheckCredentials,
}

/// Whether the declared holder is present and equals the expected DID.
pub open spec fn holder_matches(holder: Option<String>, expected: Seq<char>) -> bool {
    holder matches Some(h) && h@ == expected
}

/// The result kind the proof-level checks of one presentation produce.
pub open spec fn vp_verdict_kind(event: VpCheckEvent, expected: Seq<char>) -> ResultKind {
    match event {
        VpCheckEvent::ParseFailed { .. } => ResultKind::VpParseError,
        VpCheckEvent::ProofFailed { .. } => ResultKind::VpProofError,
        VpCheckEvent::Invalid { .. } => ResultKind::VpVerificationError,
        VpCheckEvent::Verified { holder } => if holder_matches(holder, expected) {
            ResultKind::VpValid
        } else {
            ResultKind::VpVerificationError
        },
    }
}

/// The details text the proof-level checks of one presentation produce.
pub open spec fn vp_verdict_details(event: VpCheckEvent, expected: Seq<char>) -> Seq<char> {
    match event {
        VpCheckEvent::ParseFailed { details } => details@,
        VpCheckEvent::ProofFailed { details } => details@,
        VpCheckEvent::Invalid { details } => details@,
        VpCheckEvent::Verified { holder } => if holder_matches(holder, expected) {
            Seq::<char>::empty()
        } else {
            "Holder of presentation must match DID"@
        },
    }
}

/// The full postcondition of [`verify_vp`]: a presentation whose
/// proof-level verdict is not `VpValid` is rejected with exactly that
/// verdict; one that passes proceeds to its credentials or straight to
/// acceptance.
pub open spec fn vp_decision_contract(
    event: VpCheckEvent,
    expected: Seq<char>,
    verify_vcs: bool,
    d: VpDecision,
) -> bool {
    if vp_verdict_kind(event, expected) is VpValid {
        if verify_vcs {
            d is CheckCredentials
        } else {
            d is AcceptedProofOnly
        }
    } else {
        &&& d matches VpDecision::Rejected { error }
        &&& error.wf()
        &&& error.kind() == vp_verdict_kind(event, expected)
        &&& error.details() == vp_verdict_details(event, expected)
    }
}

/// Decides what to do with one presentation from its check event.
///
/// A parse failure, a mechanical proof failure and a semantic-invalid
/// outcome each reject the presentation with the matching result; so does
/// a declared holder that is absent or differs from the expected DID.
/// Otherwise the presentation proceeds: to the per-credential checks when
/// `verify_vcs` is set, or straight to acceptance when it is not.
pub fn verify_vp(event: VpCheckEvent, expected_holder: &str, verify_vcs: bool) -> (d: VpDecision)
    ensures
        vp_decision_contract(event, expected_holder@, verify_vcs, d),
{
    match event {
        VpCheckEvent::ParseFailed { details } => VpDecision::Rejected {
            error: VerificationResult::vp_parse_error(details),
        },
        VpCheckEvent::ProofFailed { details } => VpDecision::Rejected {
            error: VerificationResult::vp_proof_error(details),
        },
        VpCheckEvent::Invalid { details } => VpDecision::Rejected {
            error: VerificationResult::vp_verification_error(details),
        },
        VpCheckEvent::Verified { holder } => {
            let matches_expected = match &holder {
                Some(h) => crate::text::str_eq(h.as_str(), expected_holder),
                None => false,
            };
            if !matches_expected {
                VpDecision::Rejected {
                    error: VerificationResult::vp_verification_error(
                        "Holder of presentation must match DID".to_owned(),
                    ),
                }
            } else if verify_vcs {
                VpDecision::CheckCredentials
            } else {
                VpDecision::AcceptedProofOnly
            }
        },
    }
}

/// One per-credential result tagged with the position of its credential
/// inside the presentation, as produced by the concurrent fan-out.
pub struct IndexedResult {
    pub index: usize,
    pub result: VerificationResult,
}

/// Whether some entry carries the tag `j`.
pub open spec fn covers_position(tagged: Seq<IndexedResult>, j: int) -> bool {
    exists|i: int| 0 <= i < tagged.len() && (#[trigger] tagged[i]).index == j
}

/// Whether `out[j]` is the result some entry tagged `j` carries.
pub open spec fn restored_at(
    tagged: Seq<IndexedResult>,
    out: Seq<VerificationResult>,
    j: int,
) -> bool {
    exists|i: int|
        0 <= i < tagged.len() && (#[trigger] tagged[i]).index == j && out[j] == tagged[i].result
}

/// Returns the result tagged with position `j`.
fn find_result(tagged: &Vec<IndexedResult>, j: usize) -> (r: VerificationResult)
    requires
        covers_position(tagged@, j as int),
    ensures
        exists|i: int|
            0 <= i < tagged@.len() && (#[trigger] tagged@[i]).index == j && r == tagged@[i].result,
{
    let n = tagged.len();
    for i in 0..n
        invariant
            n == tagged@.len(),
            exists|k: int| 0 <= k < tagged@.len() && (#[trigger] tagged@[k]).index == j,
            forall|k: int| 0 <= k < i ==> (#[trigger] tagged@[k]).index != j,
    {
        if tagged[i].index == j {
            return tagged[i].result.duplicate();
        }
    }
    vstd::pervasive::unreached()
}

/// The fan-out law: a presentation with N embedded credentials yields
/// exactly N results, in the order the credentials appear — whatever
/// order the concurrent tasks completed in.
///
/// `expected` is the per-credential result list in credential order;
/// where each tagged entry carries the result of its own credential and
/// the restored list meets [`order_credential_results`]'s contract, the
/// restored list is `expected`, position by position.
pub proof fn lemma_fanout_preserves_credential_order(
    tagged: Seq<IndexedResult>,
    out: Seq<VerificationResult>,
    expected: Seq<VerificationResult>,
)
    requires
        tagged.len() == expected.len(),
        forall|i: int|
            0 <= i < tagged.len() ==> (#[trigger] tagged[i]).index < expected.len()
                && tagged[i].result == expected[tagged[i].index as int],
        out.len() == tagged.len(),
        forall|j: int| 0 <= j < tagged.len() ==> #[trigger] restored_at(tagged, out, j),
    ensures
        out =~= expected,
{
    assert forall|j: int| 0 <= j < out.len() implies out[j] == expected[j] by {
        assert(restored_at(tagged, out, j));
        let i = choose|i: int|
            0 <= i < tagged.len() && (#[trigger] tagged[i]).index == j && out[j]
                == tagged[i].result;
        assert(tagged[i].result == expected[j]);
    }
}

/// Restores the original credential order after the concurrent fan-out:
/// the results arrive tagged with their credential's position, in
/// completion order, and leave sorted by that position.
///
/// For a presentation with N embedded credentials this returns exactly N
/// results, the one at position `j` being the result the fan-out produced
/// for credential `j` — whatever order the concurrent tasks completed in.
pub fn order_credential_results(tagged: &Vec<IndexedResult>) -> (r: Vec<VerificationResult>)
    requires
        forall|j: int| 0 <= j < tagged@.len() ==> #[trigger] covers_position(tagged@, j),
    ensures
        r@.len() == tagged@.len(),
        forall|j: int| 0 <= j < tagged@.len() ==> #[trigger] restored_at(tagged@, r@, j),
{
    let n = tagged.len();
    let mut out: Vec<VerificationResult> = Vec::new();
    for j in 0..n
        invariant
            n == tagged@.len(),
            out@.len() == j,
            forall|jj: int| 0 <= jj < tagged@.len() ==> #[trigger] covers_position(tagged@, jj),
            forall|jj: int| 0 <= jj < j ==> #[trigger] restored_at(tagged@, out@, jj),
    {
        let r = find_result(tagged, j);
        let ghost before = out@;
        out.push(r);
        proof {
            assert forall|jj: int| 0 <= jj < j + 1 implies #[trigger] restored_at(
                tagged@,
                out@,
                jj,
            ) by {
                if jj < j {
                    assert(restored_at(tagged@, before, jj));
                    assert(out@[jj] == before[jj]);
                } else {
                    assert(out@[jj] == r);
                }
            }
        }
    }
    out
}

} // verus!
