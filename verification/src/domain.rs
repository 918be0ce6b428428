//! Domain linkage: verifying that a well-known DID configuration document
//! binds a DID to the web origin it was requested from.
//!
//! Only the first linked credential of a configuration document is
//! consulted; entries beyond the first are a known limitation and are
//! deliberately ignored.

use vstd::prelude::*;

use crate::credential::{vc_verdict_details, vc_verdict_kind, verify_vc, VcCheckEvent};
use crate::did::{check_did, is_did};
use crate::results::{kind_verified, ResultKind, VerificationResult};
use crate::text::str_eq;
use crate::web::{origin_of, url_origin};

verus! {

/// What the domain-linkage logic reads of one linked credential: its
/// issuer, and the `id` and `origin` fields of its first credential
/// subject where they are present and strings.
pub struct LinkedCredential {
    pub issuer: String,
    pub subject_id: Option<String>,
    pub origin: Option<String>,
}

/// The domain-linkage document fetched from a well-known path on a web
/// origin: `{ "linked_dids": [ <VC>, ... ] }`.
pub struct WellKnownDidConfig {
    pub linked_dids: Vec<LinkedCredential>,
}

/// What parsing a configuration document reported.
pub enum DidConfigParse {
    /// The document did not parse as a well-known DID configuration.
    Failed { details: String },
    /// The parsed document.
    Parsed { config: WellKnownDidConfig },
}

/// Whether `r` is a `DidConfigError` with exactly these details.
pub open spec fn is_did_config_err(
    r: Result<VerificationResult, VerificationResult>,
    details: Seq<char>,
) -> bool {
    &&& r matches Err(v)
    &&& v.wf()
    &&& v.kind() == ResultKind::DidConfigError
    &&& v.details() == details
}

/// Whether the first linked credential's `origin` is present and exactly
/// equals the ASCII serialization of the requesting origin.
pub open spec fn origin_bound(origin: Option<String>, origin_url: Seq<char>) -> bool {
    origin matches Some(o) && url_origin(origin_url) == Some(o@)
}

/// The full postcondition of [`verify_did_configuration_vc`].
pub open spec fn did_config_contract(
    parse: DidConfigParse,
    vc_event: VcCheckEvent,
    origin_url: Seq<char>,
    r: Result<VerificationResult, VerificationResult>,
) -> bool {
    match parse {
        DidConfigParse::Failed { details } => is_did_config_err(r, details@),
        DidConfigParse::Parsed { config } => {
            if config.linked_dids@.len() == 0 {
                is_did_config_err(r, "DID configuration has no linked credentials"@)
            } else {
                let first = config.linked_dids@[0];
                if !is_did(first.issuer@) {
                    is_did_config_err(r, "issuer is not a DID"@)
                } else {
                    let kind = vc_verdict_kind(vc_event, first.issuer@, false);
                    let details = vc_verdict_details(vc_event, first.issuer@, false);
                    if kind_verified(kind) {
                        if origin_bound(first.origin, origin_url) {
                            &&& r matches Ok(v)
                            &&& v.wf()
                            &&& v.kind() == ResultKind::VcValid
                            &&& v.details() == Seq::<char>::empty()
                        } else {
                            is_did_config_err(
                                r,
                                "credentialSubject.origin must match the origin the resource was requested from"@,
                            )
                        }
                    } else if kind is VcValidationErrorOther {
                        is_did_config_err(r, details)
                    } else if kind is VcValidationErrorSubjectMismatch {
                        is_did_config_err(r, "Subject must be equal to issuer"@)
                    } else {
                        &&& r matches Err(v)
                        &&& v.wf()
                        &&& v.kind() == kind
                        &&& v.details() == details
                    }
                }
            }
        },
    }
}

/// Verifies a well-known DID configuration document against the origin
/// it was requested from.
///
/// The caller parses the document and runs the first linked credential's
/// cryptographic check, reporting both here. The domain-linkage rules
/// then require the credential's subject to equal its issuer — the
/// credential check runs with the issuer as the expected subject, and a
/// missing or mismatched subject is remapped to a configuration error —
/// and `credentialSubject.origin` to exactly equal the requesting
/// origin's ASCII serialization. Every other credential failure passes
/// through unchanged.
pub fn verify_did_configuration_vc(
    parse: DidConfigParse,
    vc_event: VcCheckEvent,
    origin_url: &str,
) -> (r: Result<VerificationResult, VerificationResult>)
    ensures
        did_config_contract(parse, vc_event, origin_url@, r),
{
    let config = match parse {
        DidConfigParse::Failed { details } => {
            return Err(VerificationResult::did_config_error(details));
        },
        DidConfigParse::Parsed { config } => config,
    };
    if config.linked_dids.len() == 0 {
        return Err(VerificationResult::did_config_error(
            "DID configuration has no linked credentials".to_owned(),
        ));
    }
    let first = &config.linked_dids[0];
    if !check_did(first.issuer.as_str()) {
        return Err(VerificationResult::did_config_error("issuer is not a DID".to_owned()));
    }
    match verify_vc(vc_event, first.issuer.as_str(), false) {
        Ok(_) => {
            let origin_ok = match &first.origin {
                Some(o) => match origin_of(origin_url) {
                    Some(requested) => str_eq(o.as_str(), requested.as_str()),
                    None => false,
                },
                None => false,
            };
            if origin_ok {
                Ok(VerificationResult::vc_valid())
            } else {
                Err(VerificationResult::did_config_error(
                    "credentialSubject.origin must match the origin the resource was requested from".to_owned(),
                ))
            }
        },
        Err(error) => match error {
            VerificationResult::VcValidationErrorOther(payload) => {
                Err(VerificationResult::did_config_error(payload.details))
            },
            VerificationResult::VcValidationErrorSubjectMismatch(_) => {
                Err(VerificationResult::did_config_error(
                    "Subject must be equal to issuer".to_owned(),
                ))
            },
            _ => Err(error),
        },
    }
}

/// A configuration document whose credential verifies but whose
/// `credentialSubject.origin` does not exactly match the requesting
/// origin is rejected as a configuration error with exactly this details
/// text.
pub proof fn lemma_origin_mismatch_rejected(
    parse: DidConfigParse,
    vc_event: VcCheckEvent,
    origin_url: Seq<char>,
    r: Result<VerificationResult, VerificationResult>,
)
    requires
        did_config_contract(parse, vc_event, origin_url, r),
        parse matches DidConfigParse::Parsed { config } && config.linked_dids@.len() > 0 && {
            let first = config.linked_dids@[0];
            &&& is_did(first.issuer@)
            &&& kind_verified(vc_verdict_kind(vc_event, first.issuer@, false))
            &&& !origin_bound(first.origin, origin_url)
        },
    ensures
        is_did_config_err(
            r,
            "credentialSubject.origin must match the origin the resource was requested from"@,
        ),
{
}

/// The DIDs a configuration document links: the subject ids of its
/// linked credentials that are present and syntactically valid DIDs, in
/// order.
pub open spec fn spec_config_dids(creds: Seq<LinkedCredential>) -> Seq<String>
    decreases creds.len(),
{
    if creds.len() == 0 {
        Seq::empty()
    } else {
        let rest = spec_config_dids(creds.drop_first());
        match creds[0].subject_id {
            Some(s) => if is_did(s@) {
                seq![s] + rest
            } else {
                rest
            },
            None => rest,
        }
    }
}

/// Extracts all valid DIDs from the given configuration document. Where
/// no linked credential carries a valid subject DID the result is empty.
pub fn config_to_dids(config: &WellKnownDidConfig) -> (r: Vec<String>)
    ensures
        r@ == spec_config_dids(config.linked_dids@),
{
    let n = config.linked_dids.len();
    let mut out: Vec<String> = Vec::new();
    proof {
        assert(config.linked_dids@.skip(0) =~= config.linked_dids@);
    }
    for i in 0..n
        invariant
            n == config.linked_dids@.len(),
            spec_config_dids(config.linked_dids@) =~= out@ + spec_config_dids(
                config.linked_dids@.skip(i as int),
            ),
    {
        proof {
            assert(config.linked_dids@.skip(i as int)[0] == config.linked_dids@[i as int]);
            assert(config.linked_dids@.skip(i as int).drop_first() =~= config.linked_dids@.skip(
                i + 1,
            ));
        }
        let ghost before = out@;
        match &config.linked_dids[i].subject_id {
            Some(s) => {
                if check_did(s.as_str()) {
                    out.push(s.clone());
                    proof {
                        assert(out@ =~= before + seq![config.linked_dids@[i as int].subject_id.unwrap()]);
                    }
                }
            },
            None => {},
        }
        proof {
            assert(spec_config_dids(config.linked_dids@) =~= out@ + spec_config_dids(
                config.linked_dids@.skip(i + 1),
            ));
        }
    }
    proof {
        assert(config.linked_dids@.skip(n as int) =~= Seq::<LinkedCredential>::empty());
        assert(out@ + Seq::<String>::empty() =~= out@);
    }
    out
}

} // verus!
