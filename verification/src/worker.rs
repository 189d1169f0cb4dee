//! Decision logic of the worker loop: what becomes of a dequeued job.
//! A completed execution (user errors included) is evaluated and its
//! result stored, never retried; an infrastructure failure increments
//! the attempt counter and requeues or dead-letters the job. The
//! retry-cap and termination laws of the protocol are proved here.

use vstd::prelude::*;

verus! {

use crate::evaluator::{
    evaluate_with_cancellation, outputs_match, spec_score, spec_test_result, sum_weights,
    total_weight,
};
use crate::types::{
    ExecutionResult, ExecutionStatus, JobMetadata, JobRequest, TestCase, TestExecutionOutput,
};

/// A copy of a test case, equal to the value it was made from.
fn clone_test_case(tc: &TestCase) -> (r: TestCase)
    ensures
        r == *tc,
{
    TestCase {
        id: tc.id,
        input: tc.input.clone(),
        expected_output: tc.expected_output.clone(),
        weight: tc.weight,
    }
}

/// A copy of a job's test cases, equal to the vector it was made from.
fn clone_test_cases(tcs: &Vec<TestCase>) -> (r: Vec<TestCase>)
    ensures
        r@ == tcs@,
{
    let mut r: Vec<TestCase> = Vec::new();
    let mut i: usize = 0;
    while i < tcs.len()
        invariant
            0 <= i <= tcs@.len(),
            r@ =~= tcs@.subrange(0, i as int),
        decreases tcs@.len() - i,
    {
        r.push(clone_test_case(&tcs[i]));
        proof {
            assert(r@ =~= tcs@.subrange(0, i + 1));
        }
        i = i + 1;
    }
    proof {
        assert(tcs@.subrange(0, tcs@.len() as int) =~= tcs@);
    }
    r
}

/// The synthetic terminal result written when a job exhausts its
/// retries: failed, score zero, no per-test results, so the API can
/// still report a terminal status.
pub fn synthetic_failed_result(job: &JobRequest) -> (r: ExecutionResult)
    requires
        job.wf(),
    ensures
        r.job_id == job.id,
        r.overall_status == ExecutionStatus::Failed,
        r.score == 0,
        r.max_score == sum_weights(job.test_cases@),
        r.results@.len() == 0,
{
    ExecutionResult {
        job_id: job.id.clone(),
        overall_status: ExecutionStatus::Failed,
        score: 0,
        max_score: total_weight(&job.test_cases),
        results: Vec::new(),
    }
}

/// What the worker does with a dequeued job once its execution ended
/// or failed.
#[derive(Debug, Clone)]
pub enum JobDisposition {
    /// The execution completed: store this result. User-code failures
    /// land here too; they are never retried.
    Store(ExecutionResult),
    /// An infrastructure failure with attempts to spare: push this
    /// copy of the job, with its incremented attempt count, to the
    /// retry queue.
    Retry(JobRequest),
    /// An infrastructure failure with attempts exhausted: push this
    /// copy to the dead-letter queue and store the synthetic failed
    /// result.
    DeadLetter(JobRequest, ExecutionResult),
}

/// Whether one more attempt is allowed after `attempts` failures out
/// of `max_attempts`.
pub open spec fn spec_may_retry(attempts: nat, max_attempts: nat) -> bool {
    attempts + 1 < max_attempts
}

/// Account for an infrastructure failure: increment the attempt
/// counter, record the reason, and either hand the job to the retry
/// queue or dead-letter it with a synthetic terminal result.
pub fn handle_infra_failure(job: &JobRequest, reason: String) -> (d: JobDisposition)
    requires
        job.wf(),
    ensures
        d is Retry <==> spec_may_retry(job.metadata.attempts as nat, job.metadata.max_attempts as nat),
        d is Retry || d is DeadLetter,
        match d {
            JobDisposition::Retry(j) => {
                &&& j.id == job.id
                &&& j.language == job.language
                &&& j.source_code == job.source_code
                &&& j.test_cases@ == job.test_cases@
                &&& j.timeout_ms == job.timeout_ms
                &&& j.metadata.attempts == job.metadata.attempts + 1
                &&& j.metadata.max_attempts == job.metadata.max_attempts
                &&& j.metadata.last_failure_reason == Some(reason)
                &&& j.wf()
            },
            JobDisposition::DeadLetter(j, r) => {
                &&& j.id == job.id
                &&& j.language == job.language
                &&& j.source_code == job.source_code
                &&& j.test_cases@ == job.test_cases@
                &&& j.timeout_ms == job.timeout_ms
                &&& j.metadata.attempts == job.metadata.attempts + 1
                &&& j.metadata.max_attempts == job.metadata.max_attempts
                &&& j.metadata.last_failure_reason == Some(reason)
                &&& r.job_id == job.id
                &&& r.overall_status == ExecutionStatus::Failed
                &&& r.score == 0
                &&& r.max_score == sum_weights(job.test_cases@)
                &&& r.results@.len() == 0
            },
            JobDisposition::Store(_) => false,
        },
{
    let attempts = job.metadata.attempts + 1;
    let metadata = JobMetadata {
        attempts,
        max_attempts: job.metadata.max_attempts,
        last_failure_reason: Some(reason),
    };
    let failed = JobRequest {
        id: job.id.clone(),
        language: job.language,
        source_code: job.source_code.clone(),
        test_cases: clone_test_cases(&job.test_cases),
        timeout_ms: job.timeout_ms,
        metadata,
    };
    if attempts < job.metadata.max_attempts {
        JobDisposition::Retry(failed)
    } else {
        let result = synthetic_failed_result(job);
        JobDisposition::DeadLetter(failed, result)
    }
}

/// Decide what becomes of a dequeued job: a finished execution (its
/// outputs and whether cancellation was observed before its last test)
/// is evaluated and stored; an infrastructure failure goes through the
/// retry protocol.
pub fn dispose_job(
    job: &JobRequest,
    execution: Result<(Vec<TestExecutionOutput>, bool), String>,
) -> (d: JobDisposition)
    requires
        job.wf(),
        execution matches Ok(p) ==> outputs_match(*job, p.0@),
    ensures
        match execution {
            Ok(p) => d matches JobDisposition::Store(r) && {
                &&& r.job_id == job.id
                &&& r.score == spec_score(*job, p.0@)
                &&& r.max_score == sum_weights(job.test_cases@)
                &&& r.score <= r.max_score
                &&& r.results@.len() == p.0@.len()
                &&& forall|i: int|
                    0 <= i < p.0@.len() ==> r.results@[i] == spec_test_result(
                        p.0@[i],
                        job.test_cases@[i],
                    )
                &&& r.overall_status == (if p.1 && p.0@.len() < job.test_cases@.len() {
                    ExecutionStatus::Cancelled
                } else if spec_score(*job, p.0@) > 0 {
                    ExecutionStatus::Completed
                } else {
                    ExecutionStatus::Failed
                })
            },
            Err(reason) => {
                &&& (d is Retry <==> spec_may_retry(
                    job.metadata.attempts as nat,
                    job.metadata.max_attempts as nat,
                ))
                &&& !(d is Store)
                &&& match d {
                    JobDisposition::Retry(j) => j.metadata.attempts == job.metadata.attempts + 1
                        && j.metadata.last_failure_reason == Some(reason),
                    JobDisposition::DeadLetter(j, r) => j.metadata.attempts == job.metadata.attempts
                        + 1 && r.overall_status == ExecutionStatus::Failed && r.score == 0
                        && r.job_id == job.id,
                    JobDisposition::Store(_) => false,
                }
            },
        },
{
    match execution {
        Ok((outputs, cancelled)) => {
            let result = evaluate_with_cancellation(job, outputs, cancelled);
            JobDisposition::Store(result)
        },
        Err(reason) => handle_infra_failure(job, reason),
    }
}

/// Queue pushes a dequeued job still causes if every further attempt
/// fails with an infrastructure error: one push per retry, and one
/// final dead-letter push.
pub open spec fn spec_failure_pushes(attempts: nat, max_attempts: nat) -> nat
    decreases max_attempts - attempts,
{
    if spec_may_retry(attempts, max_attempts) {
        1 + spec_failure_pushes(attempts + 1, max_attempts)
    } else {
        1
    }
}

/// Result writes a dequeued job causes if every further attempt fails
/// with an infrastructure error: none per retry, one at the terminal
/// dead-letter step.
pub open spec fn spec_failure_writes(attempts: nat, max_attempts: nat) -> nat
    decreases max_attempts - attempts,
{
    if spec_may_retry(attempts, max_attempts) {
        spec_failure_writes(attempts + 1, max_attempts)
    } else {
        1
    }
}

/// The failure chain from `attempts` of `max_attempts` pushes exactly
/// once per remaining attempt: the chain is finite and ends at the
/// dead-letter queue.
pub proof fn lemma_failure_pushes_exact(attempts: nat, max_attempts: nat)
    requires
        attempts < max_attempts,
    ensures
        spec_failure_pushes(attempts, max_attempts) == max_attempts - attempts,
    decreases max_attempts - attempts,
{
    if spec_may_retry(attempts, max_attempts) {
        lemma_failure_pushes_exact(attempts + 1, max_attempts);
    }
}

/// Retry cap: a freshly admitted job causes at most `max_attempts + 1`
/// queue pushes in total — the initial enqueue, up to
/// `max_attempts - 1` retries, and one dead-letter push.
pub proof fn lemma_retry_cap(max_attempts: nat)
    requires
        1 <= max_attempts,
    ensures
        1 + spec_failure_pushes(0, max_attempts) == max_attempts + 1,
{
    lemma_failure_pushes_exact(0, max_attempts);
}

/// Exactly one result write per job: however long the failure chain,
/// it ends with a single terminal write (the success path writes its
/// one result directly).
pub proof fn lemma_single_result_write(attempts: nat, max_attempts: nat)
    ensures
        spec_failure_writes(attempts, max_attempts) == 1,
    decreases max_attempts - attempts,
{
    if spec_may_retry(attempts, max_attempts) {
        lemma_single_result_write(attempts + 1, max_attempts);
    }
}

/// Every dequeued job reaches a terminal state: a stored result, or —
/// after at most `max_attempts - attempts` further failures — the
/// dead-letter queue together with its synthetic failed result. The
/// failure chain cannot loop: each step increments the attempt counter
/// and retries are allowed only while it is below the cap.
pub proof fn lemma_job_terminates(attempts: nat, max_attempts: nat)
    requires
        attempts < max_attempts,
    ensures
        spec_failure_pushes(attempts, max_attempts) <= max_attempts - attempts,
        spec_failure_writes(attempts, max_attempts) == 1,
{
    lemma_failure_pushes_exact(attempts, max_attempts);
    lemma_single_result_write(attempts, max_attempts);
}

} // verus!
