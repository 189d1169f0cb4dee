use optimus::admission::{
    admit_submission, default_timeout, default_weight, idempotency_decision, validate_payload,
    validate_submission, AdmissionDecision, AdmissionOutcome, IdempotencyRecord, SubmitRequest,
    TestCaseInput, ValidationError,
};
use optimus::fingerprint::canonical_fingerprint;
use optimus::registry::LanguageRegistry;
use optimus::types::Language;

fn python_registry() -> LanguageRegistry {
    LanguageRegistry::from_names(&vec!["python".to_string()]).unwrap()
}

fn case(input: &str, expected: &str, weight: u32) -> TestCaseInput {
    TestCaseInput {
        input: input.to_string(),
        expected_output: expected.to_string(),
        weight,
    }
}

fn good_request() -> SubmitRequest {
    SubmitRequest {
        language: Language::Python,
        source_code: "print(1)".to_string(),
        test_cases: vec![case("a", "b", 10)],
        timeout_ms: 5000,
    }
}

#[test]
fn test_defaults() {
    assert_eq!(default_timeout(), 5000);
    assert_eq!(default_weight(), 10);
}

#[test]
fn test_valid_submission_passes() {
    let reg = python_registry();
    assert_eq!(validate_submission(&good_request(), &reg), None);
}

#[test]
fn test_no_test_cases_rejected() {
    let mut req = good_request();
    req.test_cases = vec![];
    assert_eq!(validate_payload(&req), Some(ValidationError::NoTestCases));
}

#[test]
fn test_too_many_test_cases_rejected() {
    let mut req = good_request();
    req.test_cases = (0..101).map(|_| case("a", "b", 10)).collect();
    assert_eq!(validate_payload(&req), Some(ValidationError::TooManyTestCases));
}

#[test]
fn test_source_code_too_large_rejected() {
    let mut req = good_request();
    req.source_code = "x".repeat(256001);
    assert_eq!(validate_payload(&req), Some(ValidationError::SourceCodeTooLarge));
}

#[test]
fn test_empty_source_code_rejected() {
    let mut req = good_request();
    req.source_code = "   \n\t ".to_string();
    assert_eq!(validate_payload(&req), Some(ValidationError::EmptySourceCode));
}

#[test]
fn test_oversized_test_input_rejected() {
    let mut req = good_request();
    req.test_cases = vec![case(&"y".repeat(64001), "b", 10)];
    assert_eq!(validate_payload(&req), Some(ValidationError::TestCaseInputTooLarge));
}

#[test]
fn test_oversized_expected_output_rejected() {
    let mut req = good_request();
    req.test_cases = vec![case("a", &"y".repeat(64001), 10)];
    assert_eq!(validate_payload(&req), Some(ValidationError::TestCaseOutputTooLarge));
}

#[test]
fn test_invalid_timeout_rejected() {
    let mut req = good_request();
    req.timeout_ms = 0;
    assert_eq!(validate_payload(&req), Some(ValidationError::InvalidTimeout));
    req.timeout_ms = 60001;
    assert_eq!(validate_payload(&req), Some(ValidationError::InvalidTimeout));
    req.timeout_ms = 60000;
    assert_eq!(validate_payload(&req), None);
}

#[test]
fn test_unknown_language_rejected() {
    let reg = python_registry();
    let mut req = good_request();
    req.language = Language::Java;
    assert_eq!(
        validate_submission(&req, &reg),
        Some(ValidationError::LanguageNotSupported)
    );
}

#[test]
fn test_error_codes_are_stable() {
    assert_eq!(ValidationError::NoTestCases.code(), "NO_TEST_CASES");
    assert_eq!(ValidationError::TooManyTestCases.code(), "TOO_MANY_TEST_CASES");
    assert_eq!(ValidationError::SourceCodeTooLarge.code(), "SOURCE_CODE_TOO_LARGE");
    assert_eq!(ValidationError::EmptySourceCode.code(), "EMPTY_SOURCE_CODE");
    assert_eq!(
        ValidationError::TestCaseInputTooLarge.code(),
        "TEST_CASE_INPUT_TOO_LARGE"
    );
    assert_eq!(
        ValidationError::TestCaseOutputTooLarge.code(),
        "TEST_CASE_OUTPUT_TOO_LARGE"
    );
    assert_eq!(ValidationError::InvalidTimeout.code(), "INVALID_TIMEOUT");
    assert_eq!(
        ValidationError::LanguageNotSupported.code(),
        "LANGUAGE_NOT_SUPPORTED"
    );
}

#[test]
fn test_http_statuses() {
    assert_eq!(ValidationError::NoTestCases.http_status(), 400);
    assert_eq!(ValidationError::SourceCodeTooLarge.http_status(), 413);
    assert_eq!(ValidationError::TestCaseInputTooLarge.http_status(), 413);
    assert_eq!(ValidationError::TestCaseOutputTooLarge.http_status(), 413);
    assert_eq!(ValidationError::LanguageNotSupported.http_status(), 422);
    assert_eq!(ValidationError::InvalidTimeout.http_status(), 400);
}

#[test]
fn test_canonical_fingerprint_exact() {
    let req = good_request();
    assert_eq!(
        canonical_fingerprint(&req),
        "{\"language\":\"python\",\"source_code\":\"print(1)\",\"test_cases\":[{\"input\":\"a\",\"expected_output\":\"b\",\"weight\":10}],\"timeout_ms\":5000}"
    );
}

#[test]
fn test_canonical_fingerprint_escapes_specials() {
    let mut req = good_request();
    req.source_code = "a\"b\\c\nd\te\rf".to_string();
    let fp = canonical_fingerprint(&req);
    assert!(fp.contains("\"source_code\":\"a\\\"b\\\\c\\nd\\te\\rf\""));
}

#[test]
fn test_canonical_fingerprint_deterministic() {
    let req = good_request();
    assert_eq!(canonical_fingerprint(&req), canonical_fingerprint(&req));
    let mut other = good_request();
    other.timeout_ms = 4999;
    assert_ne!(canonical_fingerprint(&req), canonical_fingerprint(&other));
}

#[test]
fn test_idempotency_decision_ladder() {
    let fp = "fp-1".to_string();
    let rec = IdempotencyRecord {
        key: "K".to_string(),
        request_fingerprint: fp.clone(),
        job_id: "J".to_string(),
        created_at: "2024-01-01T00:00:00Z".to_string(),
    };
    assert!(matches!(
        idempotency_decision(None, &fp),
        AdmissionDecision::Fresh
    ));
    match idempotency_decision(Some(&rec), &fp) {
        AdmissionDecision::Replay(id) => assert_eq!(id, "J"),
        _ => panic!("same fingerprint must replay"),
    }
    assert!(matches!(
        idempotency_decision(Some(&rec), "fp-2"),
        AdmissionDecision::Conflict
    ));
}

#[test]
fn test_idempotency_replay() {
    let reg = python_registry();
    let req = good_request();
    let fp = canonical_fingerprint(&req);

    // First submission under key "K": admitted with the fresh id.
    let first = admit_submission(&req, &reg, None, &fp, "11111111-1111-4111-8111-111111111111".to_string());
    let job = match first {
        AdmissionOutcome::Accepted(job) => job,
        _ => panic!("fresh submission must be accepted"),
    };
    assert_eq!(job.id, "11111111-1111-4111-8111-111111111111");
    assert_eq!(job.test_cases[0].id, 1);

    let rec = IdempotencyRecord {
        key: "K".to_string(),
        request_fingerprint: fp.clone(),
        job_id: job.id.clone(),
        created_at: "2024-01-01T00:00:00Z".to_string(),
    };

    // Same key, same payload: the stored id comes back, nothing enqueued.
    let second = admit_submission(&req, &reg, Some(&rec), &fp, "22222222-2222-4222-8222-222222222222".to_string());
    match second {
        AdmissionOutcome::AlreadyAccepted(id) => assert_eq!(id, job.id),
        _ => panic!("replay must return the stored job id"),
    }

    // Same key, different payload: conflict.
    let mut other = good_request();
    other.source_code = "print(2)".to_string();
    let fp2 = canonical_fingerprint(&other);
    assert_ne!(fp, fp2);
    let third = admit_submission(&other, &reg, Some(&rec), &fp2, "33333333-3333-4333-8333-333333333333".to_string());
    assert!(matches!(third, AdmissionOutcome::IdempotencyConflict));
}

#[test]
fn test_admission_assigns_sequential_ids() {
    let reg = python_registry();
    let mut req = good_request();
    req.test_cases = vec![case("a", "b", 10), case("c", "d", 15), case("e", "f", 0)];
    let fp = canonical_fingerprint(&req);
    let outcome = admit_submission(&req, &reg, None, &fp, "44444444-4444-4444-8444-444444444444".to_string());
    match outcome {
        AdmissionOutcome::Accepted(job) => {
            assert_eq!(job.test_cases.len(), 3);
            assert_eq!(job.test_cases[0].id, 1);
            assert_eq!(job.test_cases[1].id, 2);
            assert_eq!(job.test_cases[2].id, 3);
            assert_eq!(job.test_cases[1].weight, 15);
            assert_eq!(job.metadata.attempts, 0);
            assert_eq!(job.metadata.max_attempts, 3);
        }
        _ => panic!("valid submission must be accepted"),
    }
}

#[test]
fn test_rejected_submission_is_rejected_before_queueing() {
    let reg = python_registry();
    let mut req = good_request();
    req.test_cases = vec![];
    let fp = canonical_fingerprint(&req);
    let outcome = admit_submission(&req, &reg, None, &fp, "55555555-5555-4555-8555-555555555555".to_string());
    match outcome {
        AdmissionOutcome::Rejected(e) => assert_eq!(e, ValidationError::NoTestCases),
        _ => panic!("invalid submission must be rejected"),
    }
}
