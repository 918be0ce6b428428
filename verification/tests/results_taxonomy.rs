use verification_service::results::{all_results_valid, VerificationResult};

#[test]
fn valid_terminal_states() {
    let vc = VerificationResult::vc_valid();
    match &vc {
        VerificationResult::VcValid(p) => {
            assert_eq!(p.code, 1 << 1);
            assert_eq!(p.message, "Verifiable Credential is valid.");
            assert_eq!(p.details, "");
            assert!(p.verified);
        },
        _ => panic!("expected VcValid"),
    }
    let vp = VerificationResult::vp_valid();
    match &vp {
        VerificationResult::VpValid(p) => {
            assert_eq!(p.code, 1 << 0);
            assert_eq!(p.message, "Verifiable Presentation is valid.");
            assert!(p.verified);
        },
        _ => panic!("expected VpValid"),
    }
    assert!(vc.into_result().is_ok());
    assert!(vp.into_result().is_ok());
}

#[test]
fn error_constructors_carry_their_bit_and_details() {
    let cases: Vec<(VerificationResult, u32)> = vec![
        (VerificationResult::vp_parse_error("d".to_owned()), 1 << 2),
        (VerificationResult::vp_proof_error("d".to_owned()), 1 << 3),
        (VerificationResult::vp_verification_error("d".to_owned()), 1 << 4),
        (VerificationResult::vc_parse_error("d".to_owned()), 1 << 5),
        (VerificationResult::vc_proof_error("d".to_owned()), 1 << 6),
        (VerificationResult::vc_proof_error_missing("d".to_owned()), 1 << 7),
        (VerificationResult::vc_proof_error_signature("d".to_owned()), 1 << 8),
        (VerificationResult::vc_proof_error_key_mismatch("d".to_owned()), 1 << 9),
        (VerificationResult::vc_proof_error_algorithm_mismatch("d".to_owned()), 1 << 10),
        (VerificationResult::vc_validation_error_other("d".to_owned()), 1 << 11),
        (VerificationResult::vc_validation_error_premature("d".to_owned()), 1 << 12),
        (VerificationResult::vc_validation_error_expired("d".to_owned()), 1 << 13),
        (VerificationResult::vc_validation_missing_issuance_date("d".to_owned()), 1 << 14),
        (VerificationResult::vc_validation_error_subject_mismatch("d".to_owned()), 1 << 15),
        (VerificationResult::did_config_error("d".to_owned()), 1 << 16),
    ];
    let mut seen: Vec<u32> = Vec::new();
    for (result, expected_code) in cases {
        let payload = match &result {
            VerificationResult::DidConfigError(p) => p,
            VerificationResult::VcParseError(p) => p,
            VerificationResult::VcProofError(p) => p,
            VerificationResult::VcProofErrorAlgorithmMismatch(p) => p,
            VerificationResult::VcProofErrorKeyMismatch(p) => p,
            VerificationResult::VcProofErrorMissing(p) => p,
            VerificationResult::VcProofErrorSignature(p) => p,
            VerificationResult::VcValid(p) => p,
            VerificationResult::VcValidationErrorExpired(p) => p,
            VerificationResult::VcValidationErrorMissingIssuance(p) => p,
            VerificationResult::VcValidationErrorOther(p) => p,
            VerificationResult::VcValidationErrorPremature(p) => p,
            VerificationResult::VcValidationErrorSubjectMismatch(p) => p,
            VerificationResult::VpParseError(p) => p,
            VerificationResult::VpProofError(p) => p,
            VerificationResult::VpValid(p) => p,
            VerificationResult::VpVerificationError(p) => p,
        };
        assert_eq!(payload.code, expected_code);
        assert_eq!(payload.details, "d");
        assert!(!payload.verified);
        assert!(!seen.contains(&payload.code));
        seen.push(payload.code);
        assert!(result.into_result().is_err());
    }
}

#[test]
fn into_vec_result_wraps_valid_results_once() {
    let ok = VerificationResult::vp_valid().into_vec_result().unwrap();
    assert_eq!(ok.len(), 1);
    assert!(matches!(ok[0], VerificationResult::VpValid(_)));

    let err = VerificationResult::vc_parse_error("bad".to_owned()).into_vec_result();
    assert!(matches!(err, Err(VerificationResult::VcParseError(_))));
}

#[test]
fn batch_verified_flag_requires_every_result_valid() {
    let all_valid = vec![VerificationResult::vc_valid(), VerificationResult::vc_valid()];
    assert!(all_results_valid(&all_valid));

    let mixed = vec![
        VerificationResult::vc_valid(),
        VerificationResult::vp_valid(),
    ];
    assert!(!all_results_valid(&mixed));

    let with_error = vec![
        VerificationResult::vc_valid(),
        VerificationResult::vc_proof_error_signature("x".to_owned()),
    ];
    assert!(!all_results_valid(&with_error));

    let empty: Vec<VerificationResult> = Vec::new();
    assert!(all_results_valid(&empty));
}
