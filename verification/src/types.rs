//! The data model of the job pipeline: test cases, jobs and their retry
//! metadata, raw execution outputs, per-test results, and the final
//! execution result.

use vstd::prelude::*;

verus! {

/// One test case of a job: an id assigned at admission (1-based, in
/// submission order), the stdin handed to the program, the output it is
/// expected to produce, and the weight a pass contributes to the score.
#[derive(Debug, Clone)]
pub struct TestCase {
    pub id: u32,
    pub input: String,
    pub expected_output: String,
    pub weight: u32,
}

/// Retry bookkeeping carried by a job: how often the worker has handed
/// it back after an infrastructure failure, the cap on such attempts,
/// and the reason the last attempt failed.
#[derive(Debug, Clone)]
pub struct JobMetadata {
    pub attempts: u32,
    pub max_attempts: u32,
    pub last_failure_reason: Option<String>,
}

impl Default for JobMetadata {
    /// Fresh metadata: no attempts yet, at most three.
    fn default() -> (r: Self)
        ensures
            r.attempts == 0,
            r.max_attempts == 3,
            r.last_failure_reason is None,
    {
        JobMetadata { attempts: 0, max_attempts: 3, last_failure_reason: None }
    }
}

/// A language a job may be written in.
#[derive(Debug, Clone, Copy, PartialEq, Eq, Structural)]
pub enum Language {
    Python,
    Java,
    Rust,
}

/// An admitted job: identifier, language, source code, the ordered test
/// cases, the per-test timeout, and retry metadata. Immutable after
/// admission except for the metadata.
#[derive(Debug, Clone)]
pub struct JobRequest {
    pub id: String,
    pub language: Language,
    pub source_code: String,
    pub test_cases: Vec<TestCase>,
    pub timeout_ms: u64,
    pub metadata: JobMetadata,
}

impl JobRequest {
    /// Shape every job has after admission: between one and a hundred
    /// test cases, numbered 1..=n in submission order, a timeout within
    /// bounds, and sane retry metadata. The attempt cap stays below the
    /// counter's maximum so that one more attempt can always be
    /// counted without overflow.
    pub open spec fn wf(self) -> bool {
        &&& 1 <= self.test_cases@.len() <= 100
        &&& forall|i: int|
            0 <= i < self.test_cases@.len() ==> #[trigger] self.test_cases@[i].id == i + 1
        &&& 1 <= self.timeout_ms <= 60000
        &&& self.metadata.attempts <= self.metadata.max_attempts
        &&& 1 <= self.metadata.max_attempts < 0xffff_ffffu32
    }
}

/// Raw outcome of running one test case, as the engine saw it. The
/// three flags are independent facts about the run; the evaluator alone
/// decides their precedence.
#[derive(Debug, Clone)]
pub struct TestExecutionOutput {
    pub test_id: u32,
    pub stdout: String,
    pub stderr: String,
    pub execution_time_ms: u64,
    pub timed_out: bool,
    pub runtime_error: bool,
    pub compilation_failed: bool,
}

/// Verdict on a single test case.
#[derive(Debug, Clone, Copy, PartialEq, Eq, Structural)]
pub enum TestStatus {
    Passed,
    Failed,
    RuntimeError,
    TimeLimitExceeded,
}

/// Scored outcome of one test case.
#[derive(Debug, Clone)]
pub struct TestResult {
    pub test_id: u32,
    pub status: TestStatus,
    pub stdout: String,
    pub stderr: String,
    pub execution_time_ms: u64,
}

/// Terminal status of a whole job.
#[derive(Debug, Clone, Copy, PartialEq, Eq, Structural)]
pub enum ExecutionStatus {
    Completed,
    Failed,
    TimedOut,
    Cancelled,
}

/// The result a worker writes once per job: overall status, the score
/// earned against the maximum possible, and the per-test results in
/// submission order.
#[derive(Debug, Clone)]
pub struct ExecutionResult {
    pub job_id: String,
    pub overall_status: ExecutionStatus,
    pub score: u64,
    pub max_score: u64,
    pub results: Vec<TestResult>,
}

/// Outcome of the compile phase of a job.
#[derive(Debug, Clone)]
pub struct CompilationResult {
    pub success: bool,
    pub stderr: String,
}

impl CompilationResult {
    /// A successful compilation: no diagnostics.
    pub fn success() -> (r: Self)
        ensures
            r.success,
            r.stderr@.len() == 0,
    {
        CompilationResult { success: true, stderr: String::new() }
    }

    /// A failed compilation carrying the compiler's diagnostics.
    pub fn failure(stderr: String) -> (r: Self)
        ensures
            !r.success,
            r.stderr == stderr,
    {
        CompilationResult { success: false, stderr }
    }
}

} // verus!
