//! Admission: validation of a submission payload, assignment of test
//! case ids, construction of the job, and the idempotency protocol
//! that makes re-submission under the same key safe.

use vstd::prelude::*;

verus! {

use vstd::string::StringSliceAdditionalSpecFns;

use crate::text::{byte_len, norm_spec, str_eq};
use crate::types::{JobMetadata, JobRequest, Language, TestCase};

/// Default per-test timeout in milliseconds applied when a submission
/// does not specify one.
pub fn default_timeout() -> (r: u64)
    ensures
        r == 5000,
{
    5000
}

/// Default weight applied to a test case when a submission does not
/// specify one.
pub fn default_weight() -> (r: u32)
    ensures
        r == 10,
{
    10
}

/// A submission payload as the API receives it (after transport
/// defaults have been applied: weight 10, timeout 5000 ms).
#[derive(Debug, Clone)]
pub struct SubmitRequest {
    pub language: Language,
    pub source_code: String,
    pub test_cases: Vec<TestCaseInput>,
    pub timeout_ms: u64,
}

/// One test case of a submission payload; ids are assigned later, at
/// admission.
#[derive(Debug, Clone)]
pub struct TestCaseInput {
    pub input: String,
    pub expected_output: String,
    pub weight: u32,
}

/// The successful response to a submission: the admitted job id.
#[derive(Debug, Clone)]
pub struct SubmitResponse {
    pub job_id: String,
}

/// A structured error: a stable code and a human-readable message.
#[derive(Debug, Clone)]
pub struct ErrorDetail {
    pub code: String,
    pub message: String,
}

/// The error body returned for a rejected request.
#[derive(Debug, Clone)]
pub struct ErrorResponse {
    pub error: ErrorDetail,
}

/// Why a submission was rejected before it touched the queue. Each
/// variant surfaces as a distinct error code.
#[derive(Debug, Clone, Copy, PartialEq, Eq, Structural)]
pub enum ValidationError {
    NoTestCases,
    TooManyTestCases,
    SourceCodeTooLarge,
    EmptySourceCode,
    TestCaseInputTooLarge,
    TestCaseOutputTooLarge,
    InvalidTimeout,
    LanguageNotSupported,
}

/// The stable code of a validation error.
pub open spec fn spec_error_code(e: ValidationError) -> Seq<char> {
    match e {
        ValidationError::NoTestCases => "NO_TEST_CASES"@,
        ValidationError::TooManyTestCases => "TOO_MANY_TEST_CASES"@,
        ValidationError::SourceCodeTooLarge => "SOURCE_CODE_TOO_LARGE"@,
        ValidationError::EmptySourceCode => "EMPTY_SOURCE_CODE"@,
        ValidationError::TestCaseInputTooLarge => "TEST_CASE_INPUT_TOO_LARGE"@,
        ValidationError::TestCaseOutputTooLarge => "TEST_CASE_OUTPUT_TOO_LARGE"@,
        ValidationError::InvalidTimeout => "INVALID_TIMEOUT"@,
        ValidationError::LanguageNotSupported => "LANGUAGE_NOT_SUPPORTED"@,
    }
}

impl ValidationError {
    /// The stable code of this error.
    pub fn code(&self) -> (r: &'static str)
        ensures
            r@ == spec_error_code(*self),
    {
        match self {
            ValidationError::NoTestCases => "NO_TEST_CASES",
            ValidationError::TooManyTestCases => "TOO_MANY_TEST_CASES",
            ValidationError::SourceCodeTooLarge => "SOURCE_CODE_TOO_LARGE",
            ValidationError::EmptySourceCode => "EMPTY_SOURCE_CODE",
            ValidationError::TestCaseInputTooLarge => "TEST_CASE_INPUT_TOO_LARGE",
            ValidationError::TestCaseOutputTooLarge => "TEST_CASE_OUTPUT_TOO_LARGE",
            ValidationError::InvalidTimeout => "INVALID_TIMEOUT",
            ValidationError::LanguageNotSupported => "LANGUAGE_NOT_SUPPORTED",
        }
    }

    /// A human-readable message for this error.
    pub fn message(&self) -> (r: &'static str)
        ensures
            r@ == spec_error_message(*self),
    {
        match self {
            ValidationError::NoTestCases => "At least one test case is required",
            ValidationError::TooManyTestCases => "Maximum 100 test cases allowed",
            ValidationError::SourceCodeTooLarge => "Maximum 256000 bytes of source code allowed",
            ValidationError::EmptySourceCode => "Source code cannot be empty",
            ValidationError::TestCaseInputTooLarge => "Test case input exceeds 64000 bytes",
            ValidationError::TestCaseOutputTooLarge => (
            "Test case expected output exceeds 64000 bytes"),
            ValidationError::InvalidTimeout => "Timeout must be between 1ms and 60000ms",
            ValidationError::LanguageNotSupported => "Language is not enabled or supported",
        }
    }

    /// The HTTP status the API reports this error with: 413 for the
    /// size limits, 422 for an unknown language, 400 otherwise.
    pub fn http_status(&self) -> (r: u16)
        ensures
            r == spec_http_status(*self),
    {
        match self {
            ValidationError::SourceCodeTooLarge => 413,
            ValidationError::TestCaseInputTooLarge => 413,
            ValidationError::TestCaseOutputTooLarge => 413,
            ValidationError::LanguageNotSupported => 422,
            _ => 400,
        }
    }
}

/// The message for each validation error.
pub open spec fn spec_error_message(e: ValidationError) -> Seq<char> {
    match e {
        ValidationError::NoTestCases => "At least one test case is required"@,
        ValidationError::TooManyTestCases => "Maximum 100 test cases allowed"@,
        ValidationError::SourceCodeTooLarge => "Maximum 256000 bytes of source code allowed"@,
        ValidationError::EmptySourceCode => "Source code cannot be empty"@,
        ValidationError::TestCaseInputTooLarge => "Test case input exceeds 64000 bytes"@,
        ValidationError::TestCaseOutputTooLarge => "Test case expected output exceeds 64000 bytes"@,
        ValidationError::InvalidTimeout => "Timeout must be between 1ms and 60000ms"@,
        ValidationError::LanguageNotSupported => "Language is not enabled or supported"@,
    }
}

/// The HTTP status for each validation error.
pub open spec fn spec_http_status(e: ValidationError) -> u16 {
    match e {
        ValidationError::SourceCodeTooLarge => 413,
        ValidationError::TestCaseInputTooLarge => 413,
        ValidationError::TestCaseOutputTooLarge => 413,
        ValidationError::LanguageNotSupported => 422,
        _ => 400,
    }
}

/// The error body for a validation error.
pub fn error_response(e: &ValidationError) -> (r: ErrorResponse)
    ensures
        r.error.code@ == spec_error_code(*e),
{
    ErrorResponse {
        error: ErrorDetail { code: e.code().to_owned(), message: e.message().to_owned() },
    }
}

/// First size violation among the test cases, checked in submission
/// order, input before expected output.
pub open spec fn spec_case_sizes(tcs: Seq<TestCaseInput>) -> Option<ValidationError>
    decreases tcs.len(),
{
    if tcs.len() == 0 {
        None
    } else if byte_len(tcs[0].input@) > 64000 {
        Some(ValidationError::TestCaseInputTooLarge)
    } else if byte_len(tcs[0].expected_output@) > 64000 {
        Some(ValidationError::TestCaseOutputTooLarge)
    } else {
        spec_case_sizes(tcs.drop_first())
    }
}

/// The validation ladder applied to the payload itself, in order:
/// test case count, source size, source emptiness after trimming,
/// per-case sizes, timeout bounds.
pub open spec fn spec_validate_payload(req: SubmitRequest) -> Option<ValidationError> {
    if req.test_cases@.len() == 0 {
        Some(ValidationError::NoTestCases)
    } else if req.test_cases@.len() > 100 {
        Some(ValidationError::TooManyTestCases)
    } else if byte_len(req.source_code@) > 256000 {
        Some(ValidationError::SourceCodeTooLarge)
    } else if norm_spec(req.source_code@).len() == 0 {
        Some(ValidationError::EmptySourceCode)
    } else if spec_case_sizes(req.test_cases@) is Some {
        spec_case_sizes(req.test_cases@)
    } else if req.timeout_ms < 1 || req.timeout_ms > 60000 {
        Some(ValidationError::InvalidTimeout)
    } else {
        None
    }
}

/// The full validation ladder: the language must be enabled, then the
/// payload ladder applies.
pub open spec fn spec_validate(req: SubmitRequest, enabled: Seq<Language>) -> Option<
    ValidationError,
> {
    if !enabled.contains(req.language) {
        Some(ValidationError::LanguageNotSupported)
    } else {
        spec_validate_payload(req)
    }
}

/// Check the per-case size limits.
fn check_case_sizes(tcs: &Vec<TestCaseInput>) -> (r: Option<ValidationError>)
    ensures
        r == spec_case_sizes(tcs@),
{
    let mut i: usize = 0;
    proof {
        assert(tcs@.skip(0) =~= tcs@);
    }
    while i < tcs.len()
        invariant
            0 <= i <= tcs@.len(),
            spec_case_sizes(tcs@) == spec_case_sizes(tcs@.skip(i as int)),
        decreases tcs@.len() - i,
    {
        proof {
            assert(tcs@.skip(i as int)[0] == tcs@[i as int]);
        }
        if tcs[i].input.as_str().as_bytes().len() > 64000 {
            return Some(ValidationError::TestCaseInputTooLarge);
        }
        if tcs[i].expected_output.as_str().as_bytes().len() > 64000 {
            return Some(ValidationError::TestCaseOutputTooLarge);
        }
        proof {
            assert(tcs@.skip(i as int).drop_first() =~= tcs@.skip(i + 1));
        }
        i = i + 1;
    }
    proof {
        assert(tcs@.skip(tcs@.len() as int).len() == 0);
    }
    None
}

/// Validate a submission against the limits and the language registry.
/// Returns the first violation of the ladder, or nothing when the
/// submission is admissible.
pub fn validate_submission(
    req: &SubmitRequest,
    registry: &crate::registry::LanguageRegistry,
) -> (r: Option<ValidationError>)
    ensures
        r == spec_validate(*req, registry.enabled_spec()),
{
    if !registry.is_enabled(req.language) {
        return Some(ValidationError::LanguageNotSupported);
    }
    validate_payload(req)
}

/// Validate the payload itself, ignoring the language registry.
pub fn validate_payload(req: &SubmitRequest) -> (r: Option<ValidationError>)
    ensures
        r == spec_validate_payload(*req),
{
    if req.test_cases.len() == 0 {
        return Some(ValidationError::NoTestCases);
    }
    if req.test_cases.len() > 100 {
        return Some(ValidationError::TooManyTestCases);
    }
    if req.source_code.as_str().as_bytes().len() > 256000 {
        return Some(ValidationError::SourceCodeTooLarge);
    }
    if crate::evaluator::normalize_output(req.source_code.as_str()).is_empty() {
        return Some(ValidationError::EmptySourceCode);
    }
    match check_case_sizes(&req.test_cases) {
        Some(e) => {
            return Some(e);
        },
        None => {},
    }
    if req.timeout_ms < 1 || req.timeout_ms > 60000 {
        return Some(ValidationError::InvalidTimeout);
    }
    None
}

/// Number the test cases 1..=n in submission order; the client's order
/// is authoritative.
pub fn assign_test_ids(inputs: &Vec<TestCaseInput>) -> (r: Vec<TestCase>)
    requires
        inputs@.len() <= 100,
    ensures
        r@.len() == inputs@.len(),
        forall|i: int|
            0 <= i < inputs@.len() ==> {
                &&& (#[trigger] r@[i]).id == i + 1
                &&& r@[i].input == inputs@[i].input
                &&& r@[i].expected_output == inputs@[i].expected_output
                &&& r@[i].weight == inputs@[i].weight
            },
{
    let mut out: Vec<TestCase> = Vec::new();
    let mut i: usize = 0;
    while i < inputs.len()
        invariant
            0 <= i <= inputs@.len() <= 100,
            out@.len() == i,
            forall|k: int|
                0 <= k < i ==> {
                    &&& (#[trigger] out@[k]).id == k + 1
                    &&& out@[k].input == inputs@[k].input
                    &&& out@[k].expected_output == inputs@[k].expected_output
                    &&& out@[k].weight == inputs@[k].weight
                },
        decreases inputs@.len() - i,
    {
        let tc = TestCase {
            id: (i + 1) as u32,
            input: inputs[i].input.clone(),
            expected_output: inputs[i].expected_output.clone(),
            weight: inputs[i].weight,
        };
        out.push(tc);
        i = i + 1;
    }
    out
}

/// Build the admitted job from a validated payload and a fresh id.
pub fn build_job(id: String, req: &SubmitRequest) -> (j: JobRequest)
    requires
        spec_validate_payload(*req) is None,
    ensures
        j.wf(),
        j.id == id,
        j.language == req.language,
        j.source_code == req.source_code,
        j.timeout_ms == req.timeout_ms,
        j.test_cases@.len() == req.test_cases@.len(),
        forall|i: int|
            0 <= i < req.test_cases@.len() ==> {
                &&& (#[trigger] j.test_cases@[i]).id == i + 1
                &&& j.test_cases@[i].input == req.test_cases@[i].input
                &&& j.test_cases@[i].expected_output == req.test_cases@[i].expected_output
                &&& j.test_cases@[i].weight == req.test_cases@[i].weight
            },
        j.metadata.attempts == 0,
        j.metadata.max_attempts == 3,
        j.metadata.last_failure_reason is None,
{
    let test_cases = assign_test_ids(&req.test_cases);
    JobRequest {
        id,
        language: req.language,
        source_code: req.source_code.clone(),
        test_cases,
        timeout_ms: req.timeout_ms,
        metadata: JobMetadata { attempts: 0, max_attempts: 3, last_failure_reason: None },
    }
}

/// The record the idempotency protocol keeps for 24 hours: the client
/// key, the fingerprint of the admitted payload, the job id it was
/// given, and when the record was made.
#[derive(Debug, Clone)]
pub struct IdempotencyRecord {
    pub key: String,
    pub request_fingerprint: String,
    pub job_id: String,
    pub created_at: String,
}

/// What the idempotency protocol decides for a submission, given the
/// stored record under its key.
#[derive(Debug, Clone)]
pub enum AdmissionDecision {
    /// No record: admit freshly and store one.
    Fresh,
    /// A record with a matching fingerprint: return its job id, enqueue
    /// nothing.
    Replay(String),
    /// A record with a different fingerprint: reject.
    Conflict,
}

/// The idempotency decision ladder.
pub open spec fn spec_decision(stored: Option<IdempotencyRecord>, fp: Seq<char>)
    -> AdmissionDecision {
    match stored {
        Option::None => AdmissionDecision::Fresh,
        Option::Some(rec) => if rec.request_fingerprint@ == fp {
            AdmissionDecision::Replay(rec.job_id)
        } else {
            AdmissionDecision::Conflict
        },
    }
}

/// Decide what to do with a submission under an idempotency key, given
/// the record stored under that key.
pub fn idempotency_decision(stored: Option<&IdempotencyRecord>, fp: &str) -> (d:
    AdmissionDecision)
    ensures
        match stored {
            Option::None => d is Fresh,
            Option::Some(rec) => d == spec_decision(Some(*rec), fp@),
        },
{
    match stored {
        Option::None => AdmissionDecision::Fresh,
        Option::Some(rec) => {
            if str_eq(rec.request_fingerprint.as_str(), fp) {
                AdmissionDecision::Replay(rec.job_id.clone())
            } else {
                AdmissionDecision::Conflict
            }
        },
    }
}

/// What admission decides for one submission.
#[derive(Debug, Clone)]
pub enum AdmissionOutcome {
    /// Admitted: enqueue this job, then store an idempotency record for
    /// it if a key was supplied.
    Accepted(JobRequest),
    /// The same key and payload were admitted before: report the stored
    /// job id, enqueue nothing.
    AlreadyAccepted(String),
    /// The payload broke a validation rule; nothing touched the queue.
    Rejected(ValidationError),
    /// The same key was used with a different payload.
    IdempotencyConflict,
}

/// Admit one submission: reject an unknown language first, then let the
/// stored idempotency record (if any) replay or conflict, then validate
/// the payload, and finally build the job under the fresh id.
pub fn admit_submission(
    req: &SubmitRequest,
    registry: &crate::registry::LanguageRegistry,
    stored: Option<&IdempotencyRecord>,
    fingerprint: &str,
    new_id: String,
) -> (o: AdmissionOutcome)
    ensures
        !registry.enabled_spec().contains(req.language) ==> (o
            matches AdmissionOutcome::Rejected(e) && e == ValidationError::LanguageNotSupported),
        registry.enabled_spec().contains(req.language) ==> match stored {
            Option::Some(rec) => {
                &&& rec.request_fingerprint@ == fingerprint@ ==> (o
                    matches AdmissionOutcome::AlreadyAccepted(id) && id == rec.job_id)
                &&& rec.request_fingerprint@ != fingerprint@ ==> o is IdempotencyConflict
            },
            Option::None => {
                &&& forall|e: ValidationError|
                    spec_validate_payload(*req) == Some(e) ==> o == AdmissionOutcome::Rejected(e)
                &&& spec_validate_payload(*req) is None ==> (o
                    matches AdmissionOutcome::Accepted(job) && {
                    &&& job.wf()
                    &&& job.id == new_id
                    &&& job.language == req.language
                    &&& job.source_code == req.source_code
                    &&& job.timeout_ms == req.timeout_ms
                    &&& job.test_cases@.len() == req.test_cases@.len()
                    &&& forall|i: int|
                        0 <= i < req.test_cases@.len() ==> {
                            &&& (#[trigger] job.test_cases@[i]).id == i + 1
                            &&& job.test_cases@[i].input == req.test_cases@[i].input
                            &&& job.test_cases@[i].expected_output
                                == req.test_cases@[i].expected_output
                            &&& job.test_cases@[i].weight == req.test_cases@[i].weight
                        }
                    &&& job.metadata.attempts == 0
                    &&& job.metadata.max_attempts == 3
                    &&& job.metadata.last_failure_reason is None
                })
            },
        },
{
    if !registry.is_enabled(req.language) {
        return AdmissionOutcome::Rejected(ValidationError::LanguageNotSupported);
    }
    match idempotency_decision(stored, fingerprint) {
        AdmissionDecision::Replay(id) => {
            return AdmissionOutcome::AlreadyAccepted(id);
        },
        AdmissionDecision::Conflict => {
            return AdmissionOutcome::IdempotencyConflict;
        },
        AdmissionDecision::Fresh => {},
    }
    match validate_payload(req) {
        Some(e) => AdmissionOutcome::Rejected(e),
        None => AdmissionOutcome::Accepted(build_job(new_id, req)),
    }
}

/// Re-submitting the payload whose fingerprint a record stores replays
/// exactly the job id the record stores: the admitted id is stable
/// under re-submission with the same key and payload.
pub proof fn lemma_replay_stable(rec: IdempotencyRecord, fp: Seq<char>)
    requires
        rec.request_fingerprint@ == fp,
    ensures
        spec_decision(Some(rec), fp) == AdmissionDecision::Replay(rec.job_id),
{
}

/// A payload whose fingerprint differs from the stored one under the
/// same key is refused as a conflict, never silently re-admitted.
pub proof fn lemma_different_payload_conflicts(rec: IdempotencyRecord, fp: Seq<char>)
    requires
        rec.request_fingerprint@ != fp,
    ensures
        spec_decision(Some(rec), fp) is Conflict,
{
}

} // verus!
