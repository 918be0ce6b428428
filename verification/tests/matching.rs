use verification_service::config::{AppConfig, ConfigError};
use verification_service::credential::VcCheckEvent;
use verification_service::decode::{
    ClaimDecodingError, ClaimFormatDesignation, VerifyingClaimsDecoder,
};
use verification_service::matcher::{
    find_and_validate_inputs, get_holder_id, ConstraintField, DescriptorMap, FieldFilter,
    InputDescriptor, MatchError, MatchingInput, PresentationDefinition, PresentationSubmission,
};
use verification_service::presentation::VpCheckEvent;
use verification_service::results::VerificationResult;
use verification_service::validate::{
    plan_checks, submission_results, validate, verify_submission, AuthorizationResponse,
    InputCheckEvent, Outcome, PlannedCheck, PreparedValidation, Session,
};
use verification_service::web::{
    is_valid_url, url_to_didweb, url_to_well_known_config_uri, VerificationRequest,
};

const HOLDER: &str = "did:key:z6MkhaXgBZDvotDkL5257faiztiGiC2QtKLGpbnnEGta2doK";

// A compact JWS: header {"alg":"ES256"}, payload {"a":1}, opaque signature.
const JWS: &str = "eyJhbGciOiJFUzI1NiJ9.eyJhIjoxfQ.c2ln";

#[test]
fn url_validation() {
    assert!(is_valid_url("https://example.com"));
    assert!(is_valid_url("https://example.com/"));
    assert!(is_valid_url("https://example.com:3000/"));
    assert!(is_valid_url("https://localhost:3000/"));
    assert!(is_valid_url("did:web:example.com"));
    assert!(is_valid_url("did:web:example.com:user1"));
    assert!(is_valid_url("did:web:localhost"));

    assert!(!is_valid_url("ftp://example.com"));
    assert!(!is_valid_url("http://example.com"));
}

#[test]
fn url_scheme_is_normalized_by_the_parser() {
    assert!(is_valid_url("HTTPS://EXAMPLE.COM"));
    assert!(!is_valid_url("no scheme at all"));
}

#[test]
fn test_url_to_well_known_config_uri() {
    assert_eq!(
        url_to_well_known_config_uri(
            url::Url::parse("https://identity.foundation").unwrap().as_str()
        )
        .unwrap(),
        "https://identity.foundation/.well-known/did-configuration.json"
    );
    assert_eq!(
        url_to_well_known_config_uri(
            url::Url::parse("https://identity.foundation/path/is/ignored").unwrap().as_str()
        )
        .unwrap(),
        "https://identity.foundation/.well-known/did-configuration.json"
    );
    assert_eq!(
        url_to_well_known_config_uri(
            url::Url::parse("http://https.is/enforced").unwrap().as_str()
        )
        .unwrap(),
        "https://https.is/.well-known/did-configuration.json"
    );
}

#[test]
fn test_url_to_didweb() {
    assert_eq!(
        url_to_didweb(url::Url::parse("https://w3c-ccg.github.io").unwrap().as_str())
            .unwrap()[0],
        "did:web:w3c-ccg.github.io"
    );

    assert_eq!(
        url_to_didweb(
            url::Url::parse("https://w3c-ccg.github.io/path/is/ignored").unwrap().as_str()
        )
        .unwrap()[0],
        "did:web:w3c-ccg.github.io"
    );

    url_to_didweb(url::Url::parse("https://127.0.0.1").unwrap().as_str()).unwrap_err();

    assert_eq!(
        url_to_didweb(url::Url::parse("https://example.com:3000").unwrap().as_str())
            .unwrap()[0],
        "did:web:example.com%3A3000"
    );
}

#[test]
fn didweb_error_names_the_missing_domain() {
    let e = url_to_didweb("https://[::1]:8080/").unwrap_err();
    assert_eq!(e, "URL has no domain name");
}

#[test]
fn test_query() {
    let ok = VerificationRequest::parse("https://www.abc.com".to_owned()).unwrap();
    assert_eq!(ok.q, "https://www.abc.com");

    let empty = VerificationRequest::parse(String::new()).unwrap_err();
    assert_eq!(empty.error, "empty 'q' param");
    assert!(!empty.verified);

    let invalid = VerificationRequest::parse("abc.com".to_owned()).unwrap_err();
    assert_eq!(invalid.error, "invalid 'q' param");
    assert!(!invalid.verified);
}

#[test]
fn decode_ldp_vc_is_passthrough() {
    let decoder = VerifyingClaimsDecoder;
    let raw = "{\"credentialSubject\":{\"id\":\"did:example:abc\"}}";
    let decoded = decoder.decode(raw, &ClaimFormatDesignation::LdpVc).unwrap();
    assert_eq!(decoded.original_value, raw);
    assert_eq!(decoded.decoded_value, raw);
}

#[test]
fn decode_jwt_formats_decode_header_and_payload_only() {
    let decoder = VerifyingClaimsDecoder;
    let raw = format!("\"{}\"", JWS);
    for format in [
        ClaimFormatDesignation::JwtVcJson,
        ClaimFormatDesignation::JwtVc,
        ClaimFormatDesignation::JwtVpJson,
    ] {
        let decoded = decoder.decode(raw.as_str(), &format).unwrap();
        assert_eq!(decoded.original_value, raw);
        assert_eq!(decoded.decoded_value, "{\"a\":1}");
    }
}

#[test]
fn decode_jwt_failure_names_the_stage() {
    let decoder = VerifyingClaimsDecoder;

    let not_a_string = "{\"token\":1}";
    let e = decoder.decode(not_a_string, &ClaimFormatDesignation::JwtVcJson).unwrap_err();
    match e {
        ClaimDecodingError::Undecodable { details } => {
            assert_eq!(details, "unable to convert value to string");
        },
        _ => panic!("expected a decoding failure"),
    }

    let not_a_jws = "\"three.parts.missing-base64!\"";
    let e = decoder.decode(not_a_jws, &ClaimFormatDesignation::JwtVcJson).unwrap_err();
    match e {
        ClaimDecodingError::Undecodable { details } => {
            assert_eq!(details, "unable to decode JWS payload");
        },
        _ => panic!("expected a decoding failure"),
    }
}

#[test]
fn decode_ldp_vp_reparses_the_embedded_document() {
    let decoder = VerifyingClaimsDecoder;
    let raw = "\"{\\\"holder\\\":\\\"did:example:abc\\\"}\"";
    let decoded = decoder.decode(raw, &ClaimFormatDesignation::LdpVp).unwrap();
    assert_eq!(decoded.decoded_value, "{\"holder\":\"did:example:abc\"}");
}

#[test]
fn decode_unknown_format_is_rejected() {
    let decoder = VerifyingClaimsDecoder;
    let e = decoder.decode(
        "{}",
        &ClaimFormatDesignation::Other { tag: "ac_vc".to_owned() },
    ).unwrap_err();
    match e {
        ClaimDecodingError::UnknownFormat { format } => {
            assert!(matches!(format, ClaimFormatDesignation::Other { .. }));
        },
        _ => panic!("expected an unknown-format error"),
    }
}

fn sample_definition() -> PresentationDefinition {
    PresentationDefinition {
        id: "definition-1".to_owned(),
        input_descriptors: vec![InputDescriptor {
            id: "descriptor-1".to_owned(),
            fields: vec![ConstraintField {
                path: "$.holder".to_owned(),
                filter: Some(FieldFilter::AnyString),
            }],
        }],
    }
}

fn sample_submission() -> PresentationSubmission {
    PresentationSubmission {
        definition_id: "definition-1".to_owned(),
        descriptor_map: vec![DescriptorMap {
            id: "descriptor-1".to_owned(),
            format: ClaimFormatDesignation::LdpVp,
            path: "$.vp".to_owned(),
        }],
    }
}

// The VP Token carries the presentation as an embedded JSON string.
fn sample_vp_token() -> String {
    format!("{{\"vp\":\"{{\\\"holder\\\":\\\"{}\\\"}}\"}}", HOLDER)
}

#[test]
fn matcher_resolves_decodes_and_validates() {
    let inputs = find_and_validate_inputs(
        &sample_definition(),
        &sample_submission(),
        sample_vp_token().as_str(),
    ).unwrap();
    assert_eq!(inputs.len(), 1);
    assert_eq!(inputs[0].descriptor_id, "descriptor-1");
    assert!(matches!(inputs[0].format, ClaimFormatDesignation::LdpVp));
    let expected_decoded = format!("{{\"holder\":\"{}\"}}", HOLDER);
    assert_eq!(inputs[0].decoded_value, expected_decoded);
}

#[test]
fn matcher_rejects_missing_path() {
    let mut submission = sample_submission();
    submission.descriptor_map[0].path = "$.elsewhere".to_owned();
    let e = find_and_validate_inputs(
        &sample_definition(),
        &submission,
        sample_vp_token().as_str(),
    ).unwrap_err();
    assert!(matches!(e, MatchError::PathMismatch));
}

#[test]
fn matcher_rejects_overlong_paths_without_parsing_them() {
    // A deeply nested filter expression recurses inside the outside path
    // parser with the nesting depth; the engine never hands over a path
    // beyond its length limit and reports a path mismatch instead.
    let mut path = String::from("$[?");
    for _ in 0..20000 {
        path.push('(');
    }
    path.push_str("@.a");
    for _ in 0..20000 {
        path.push(')');
    }
    path.push(']');

    let mut submission = sample_submission();
    submission.descriptor_map[0].path = path;
    let e = find_and_validate_inputs(
        &sample_definition(),
        &submission,
        sample_vp_token().as_str(),
    ).unwrap_err();
    assert!(matches!(e, MatchError::PathMismatch));
}

#[test]
fn matcher_rejects_unknown_descriptor() {
    let mut submission = sample_submission();
    submission.descriptor_map[0].id = "descriptor-9".to_owned();
    let e = find_and_validate_inputs(
        &sample_definition(),
        &submission,
        sample_vp_token().as_str(),
    ).unwrap_err();
    assert!(matches!(e, MatchError::UnknownDescriptor));
}

#[test]
fn matcher_rejects_filter_mismatch() {
    let mut definition = sample_definition();
    definition.input_descriptors[0].fields[0].filter = Some(FieldFilter::ConstString {
        value: "did:example:someone-else".to_owned(),
    });
    let e = find_and_validate_inputs(
        &definition,
        &sample_submission(),
        sample_vp_token().as_str(),
    ).unwrap_err();
    assert!(matches!(e, MatchError::ConstraintMismatch));

    let mut definition = sample_definition();
    definition.input_descriptors[0].fields[0].filter = Some(FieldFilter::ConstString {
        value: HOLDER.to_owned(),
    });
    assert!(find_and_validate_inputs(
        &definition,
        &sample_submission(),
        sample_vp_token().as_str(),
    ).is_ok());
}

#[test]
fn matcher_rejects_undecodable_input() {
    let mut submission = sample_submission();
    submission.descriptor_map[0].format = ClaimFormatDesignation::JwtVpJson;
    let e = find_and_validate_inputs(
        &sample_definition(),
        &submission,
        sample_vp_token().as_str(),
    ).unwrap_err();
    assert!(matches!(e, MatchError::Decoding { .. }));
}

fn ldp_vp_input(raw_value: &str) -> MatchingInput {
    MatchingInput {
        descriptor_id: "descriptor-1".to_owned(),
        format: ClaimFormatDesignation::LdpVp,
        raw_value: raw_value.to_owned(),
        decoded_value: String::new(),
    }
}

#[test]
fn holder_is_read_from_the_first_presentation_input() {
    let raw = format!("\"{{\\\"holder\\\":\\\"{}\\\"}}\"", HOLDER);
    let holder = get_holder_id(&vec![ldp_vp_input(raw.as_str())]).unwrap();
    assert_eq!(holder, HOLDER);
}

#[test]
fn holder_extraction_error_cases() {
    // No presentation-typed input at all.
    let credential_only = MatchingInput {
        descriptor_id: "descriptor-1".to_owned(),
        format: ClaimFormatDesignation::LdpVc,
        raw_value: "{}".to_owned(),
        decoded_value: "{}".to_owned(),
    };
    let e = get_holder_id(&vec![credential_only]).unwrap_err();
    assert_eq!(e, "Unable to determine holder ID");

    // A JWT-encoded presentation stops the scan unsupported.
    let jwt_vp = MatchingInput {
        descriptor_id: "descriptor-1".to_owned(),
        format: ClaimFormatDesignation::JwtVpJson,
        raw_value: format!("\"{}\"", JWS),
        decoded_value: String::new(),
    };
    let e = get_holder_id(&vec![jwt_vp]).unwrap_err();
    assert_eq!(e, "Unable to determine holder ID");

    // A presentation without a holder.
    let e = get_holder_id(&vec![ldp_vp_input("\"{\\\"id\\\":\\\"x\\\"}\"")]).unwrap_err();
    assert_eq!(e, "JSONPath error");

    // A holder that is not a string.
    let e = get_holder_id(&vec![ldp_vp_input("\"{\\\"holder\\\":7}\"")]).unwrap_err();
    assert_eq!(e, "JSONPath decoding error");
}

#[test]
fn planned_checks_follow_the_declared_format() {
    let inputs = vec![
        MatchingInput {
            descriptor_id: "a".to_owned(),
            format: ClaimFormatDesignation::JwtVpJson,
            raw_value: "\"x\"".to_owned(),
            decoded_value: String::new(),
        },
        MatchingInput {
            descriptor_id: "b".to_owned(),
            format: ClaimFormatDesignation::LdpVc,
            raw_value: "[7,8]".to_owned(),
            decoded_value: "[7,8]".to_owned(),
        },
        MatchingInput {
            descriptor_id: "c".to_owned(),
            format: ClaimFormatDesignation::JwtVc,
            raw_value: "\"x\"".to_owned(),
            decoded_value: String::new(),
        },
    ];
    let checks = plan_checks(&inputs);
    assert_eq!(checks.len(), 3);
    assert!(matches!(checks[0], PlannedCheck::UnsupportedPresentation));
    // An array input is checked through its first element.
    match &checks[1] {
        PlannedCheck::Credential { value } => assert_eq!(value, "7"),
        _ => panic!("expected a credential check"),
    }
    assert!(matches!(checks[2], PlannedCheck::UnsupportedClaim));
}

#[test]
fn validate_rejects_mismatched_definition_id() {
    let session = Session {
        presentation_definition: Some(sample_definition()),
    };
    let mut submission = sample_submission();
    submission.definition_id = "definition-2".to_owned();
    let response = AuthorizationResponse::Unencoded {
        vp_token: sample_vp_token(),
        presentation_submission: submission,
    };
    match validate(&session, &response) {
        PreparedValidation::Done { outcome: Outcome::Failure { reason } } => {
            assert_eq!(
                reason,
                "Submission is for a different definition, IDs don't match: \
                 expected: definition-1 got: definition-2"
            );
        },
        _ => panic!("expected a failure outcome"),
    }
}

#[test]
fn validate_rejects_jwt_submissions_and_missing_definitions() {
    let session = Session { presentation_definition: None };
    let response = AuthorizationResponse::Jwt { response: "a.b.c".to_owned() };
    match validate(&session, &response) {
        PreparedValidation::Done { outcome: Outcome::Error { cause } } => {
            assert_eq!(cause, "Presentation definition empty");
        },
        _ => panic!("expected an error outcome"),
    }

    let session = Session {
        presentation_definition: Some(sample_definition()),
    };
    let response = AuthorizationResponse::Jwt { response: "a.b.c".to_owned() };
    match validate(&session, &response) {
        PreparedValidation::Done { outcome: Outcome::Error { cause } } => {
            assert_eq!(cause, "JWT submissions not supported");
        },
        _ => panic!("expected an error outcome"),
    }
}

#[test]
fn validate_reports_unmatchable_submissions_as_decoding_errors() {
    let session = Session {
        presentation_definition: Some(sample_definition()),
    };
    let mut submission = sample_submission();
    submission.descriptor_map[0].path = "$.elsewhere".to_owned();
    let response = AuthorizationResponse::Unencoded {
        vp_token: sample_vp_token(),
        presentation_submission: submission,
    };
    match validate(&session, &response) {
        PreparedValidation::Done { outcome: Outcome::Error { cause } } => {
            assert_eq!(cause, "Decoding error");
        },
        _ => panic!("expected an error outcome"),
    }
}

#[test]
fn validate_rejects_a_submission_without_mappings() {
    let session = Session {
        presentation_definition: Some(sample_definition()),
    };
    let submission = PresentationSubmission {
        definition_id: "definition-1".to_owned(),
        descriptor_map: Vec::new(),
    };
    let response = AuthorizationResponse::Unencoded {
        vp_token: sample_vp_token(),
        presentation_submission: submission,
    };
    match validate(&session, &response) {
        PreparedValidation::Done { outcome: Outcome::Error { cause } } => {
            assert_eq!(cause, "Unable to determine holder ID");
        },
        _ => panic!("expected an error outcome"),
    }
}

#[test]
fn validate_full_flow_succeeds_on_a_matching_submission() {
    let session = Session {
        presentation_definition: Some(sample_definition()),
    };
    let response = AuthorizationResponse::Unencoded {
        vp_token: sample_vp_token(),
        presentation_submission: sample_submission(),
    };
    let (expected_id, checks) = match validate(&session, &response) {
        PreparedValidation::NeedChecks { inputs, expected_id, checks } => {
            assert_eq!(inputs.len(), 1);
            assert_eq!(expected_id, HOLDER);
            (expected_id, checks)
        },
        _ => panic!("expected checks to run"),
    };
    assert_eq!(checks.len(), 1);
    assert!(matches!(checks[0], PlannedCheck::Presentation { .. }));

    let events = vec![InputCheckEvent::Presentation {
        vp_event: VpCheckEvent::Verified { holder: Some(HOLDER.to_owned()) },
    }];
    match verify_submission(&checks, events, expected_id.as_str()) {
        Outcome::Success { info } => assert_eq!(info, "Verification successed"),
        _ => panic!("expected success"),
    }

    let events = vec![InputCheckEvent::Presentation {
        vp_event: VpCheckEvent::ProofFailed { details: "bad proof".to_owned() },
    }];
    match verify_submission(&checks, events, expected_id.as_str()) {
        Outcome::Failure { reason } => assert_eq!(reason, "Verification failed"),
        _ => panic!("expected failure"),
    }
}

#[test]
fn validate_full_flow_with_a_credential_input() {
    let definition = PresentationDefinition {
        id: "definition-1".to_owned(),
        input_descriptors: vec![InputDescriptor {
            id: "descriptor-1".to_owned(),
            fields: Vec::new(),
        }],
    };
    // One LdpVp input carrying the holder and one LdpVc credential.
    let submission = PresentationSubmission {
        definition_id: "definition-1".to_owned(),
        descriptor_map: vec![
            DescriptorMap {
                id: "descriptor-1".to_owned(),
                format: ClaimFormatDesignation::LdpVp,
                path: "$.vp".to_owned(),
            },
            DescriptorMap {
                id: "descriptor-1".to_owned(),
                format: ClaimFormatDesignation::LdpVc,
                path: "$.vc".to_owned(),
            },
        ],
    };
    let vp_token = format!(
        "{{\"vp\":\"{{\\\"holder\\\":\\\"{}\\\"}}\",\"vc\":{{\"credentialSubject\":{{\"id\":\"{}\"}}}}}}",
        HOLDER, HOLDER,
    );
    let session = Session { presentation_definition: Some(definition) };
    let response = AuthorizationResponse::Unencoded {
        vp_token,
        presentation_submission: submission,
    };
    let (expected_id, checks) = match validate(&session, &response) {
        PreparedValidation::NeedChecks { expected_id, checks, .. } => (expected_id, checks),
        _ => panic!("expected checks to run"),
    };
    assert_eq!(checks.len(), 2);
    assert!(matches!(checks[1], PlannedCheck::Credential { .. }));

    let events = vec![
        InputCheckEvent::Presentation {
            vp_event: VpCheckEvent::Verified { holder: Some(HOLDER.to_owned()) },
        },
        InputCheckEvent::Credential {
            vc_event: VcCheckEvent::Verified { subject_id: Some(HOLDER.to_owned()) },
        },
    ];
    match verify_submission(&checks, events, expected_id.as_str()) {
        Outcome::Success { info } => assert_eq!(info, "Verification successed"),
        _ => panic!("expected success"),
    }
}

#[test]
fn submission_results_report_one_result_per_input() {
    let checks = vec![
        PlannedCheck::UnsupportedPresentation,
        PlannedCheck::UnsupportedClaim,
        PlannedCheck::Presentation { value: "{}".to_owned() },
        PlannedCheck::Credential { value: "{}".to_owned() },
    ];
    let events = vec![
        InputCheckEvent::NotNeeded,
        InputCheckEvent::NotNeeded,
        InputCheckEvent::Presentation {
            vp_event: VpCheckEvent::Verified { holder: Some(HOLDER.to_owned()) },
        },
        InputCheckEvent::Credential {
            vc_event: VcCheckEvent::Verified { subject_id: Some(HOLDER.to_owned()) },
        },
    ];
    let results = submission_results(&checks, events, HOLDER);
    assert_eq!(results.len(), 4);
    match &results[0] {
        VerificationResult::VpProofError(p) => {
            assert_eq!(p.details, "JwtVpJson is not supported");
        },
        _ => panic!("expected a presentation proof error"),
    }
    match &results[1] {
        VerificationResult::VcProofError(p) => {
            assert_eq!(p.details, "Claim type not supported");
        },
        _ => panic!("expected a credential proof error"),
    }
    assert!(matches!(results[2], VerificationResult::VpValid(_)));
    assert!(matches!(results[3], VerificationResult::VcValid(_)));
}

#[test]
fn verify_submission_requires_at_least_one_input() {
    let checks: Vec<PlannedCheck> = Vec::new();
    let events: Vec<InputCheckEvent> = Vec::new();
    match verify_submission(&checks, events, HOLDER) {
        Outcome::Error { cause } => assert_eq!(cause, "Not enough inputs received"),
        _ => panic!("expected an error outcome"),
    }
}

#[test]
fn verify_submission_counts_unsupported_inputs_as_failures() {
    let checks = vec![PlannedCheck::UnsupportedPresentation];
    let events = vec![InputCheckEvent::NotNeeded];
    assert!(matches!(
        verify_submission(&checks, events, HOLDER),
        Outcome::Failure { .. }
    ));
}

fn full_config() -> AppConfig {
    AppConfig {
        host: "::".to_owned(),
        port: 3000,
        external_hostname: "vds.example.com".to_owned(),
        callback_hostname: "shop.example.com".to_owned(),
        key_path: "./key.jwk".to_owned(),
        verification_method: "did:web:shop.example.com#key1".to_owned(),
        callback_base_path: "callback".to_owned(),
        bearer_token: None,
    }
}

#[test]
fn config_validation_accepts_a_complete_configuration() {
    let validated = AppConfig::validate(full_config()).unwrap();
    assert_eq!(validated.host, "::");
    assert_eq!(validated.port, 3000);
}

#[test]
fn config_validation_reports_the_first_broken_rule() {
    let mut c = full_config();
    c.host = String::new();
    let ConfigError::NotFound { message } = AppConfig::validate(c).unwrap_err();
    assert_eq!(message, "Error: 'host' is required but missing");

    let mut c = full_config();
    c.port = 0;
    let ConfigError::NotFound { message } = AppConfig::validate(c).unwrap_err();
    assert_eq!(message, "Error: 'port' out of bounds");

    let mut c = full_config();
    c.external_hostname = String::new();
    let ConfigError::NotFound { message } = AppConfig::validate(c).unwrap_err();
    assert_eq!(message, "Error: 'external_hostname' is required but missing");

    let mut c = full_config();
    c.callback_hostname = String::new();
    let ConfigError::NotFound { message } = AppConfig::validate(c).unwrap_err();
    assert_eq!(message, "Error: 'shop_hostname' must be a valid non-zero value");

    let mut c = full_config();
    c.key_path = String::new();
    let ConfigError::NotFound { message } = AppConfig::validate(c).unwrap_err();
    assert_eq!(message, "Error: 'key_path' is required but missing");

    let mut c = full_config();
    c.verification_method = String::new();
    let ConfigError::NotFound { message } = AppConfig::validate(c).unwrap_err();
    assert_eq!(message, "Error: 'verification_method' is required but missing");

    let mut c = full_config();
    c.callback_base_path = String::new();
    let ConfigError::NotFound { message } = AppConfig::validate(c).unwrap_err();
    assert_eq!(message, "Error: 'callback_base_path' is required but missing");
}
