//! The deterministic evaluator: compares raw execution outputs against
//! expected outputs and assigns scores. It knows nothing about how the
//! code was run; it is a pure function from outputs to a result.

use vstd::prelude::*;

verus! {

use vstd::string::StrSliceExecFns;

use crate::text::{is_wsp, is_wsp_char, lemma_norm_window, norm_spec, str_eq};
use crate::types::{
    ExecutionResult, ExecutionStatus, JobRequest, TestCase, TestExecutionOutput, TestResult,
    TestStatus,
};

/// Normal form of an output: whitespace stripped from both ends.
/// Internal whitespace and case are preserved, so newline-style
/// differences survive everywhere but at the edges.
pub fn normalize_output(output: &str) -> (r: &str)
    ensures
        r@ == norm_spec(output@),
{
    let len = output.unicode_len();
    let mut start: usize = 0;
    while start < len && is_wsp_char(output.get_char(start))
        invariant
            0 <= start <= len,
            len == output@.len(),
            forall|k: int| 0 <= k < start ==> is_wsp(output@[k]),
        decreases len - start,
    {
        start = start + 1;
    }
    let mut end: usize = len;
    while end > start && is_wsp_char(output.get_char(end - 1))
        invariant
            start <= end <= len,
            len == output@.len(),
            forall|k: int| end <= k < len ==> is_wsp(output@[k]),
        decreases end,
    {
        end = end - 1;
    }
    proof {
        lemma_norm_window(output@, start as int, end as int);
    }
    output.substring_char(start, end)
}

/// The verdict for one output, with the strict precedence the service
/// guarantees: a compilation failure or runtime error is reported as
/// `RuntimeError`, a timeout as `TimeLimitExceeded`, stderr content as
/// `Failed`, and only a clean run whose normalized stdout equals the
/// normalized expected output as `Passed`.
pub open spec fn spec_test_status(o: TestExecutionOutput, tc: TestCase) -> TestStatus {
    if o.compilation_failed {
        TestStatus::RuntimeError
    } else if o.runtime_error {
        TestStatus::RuntimeError
    } else if o.timed_out {
        TestStatus::TimeLimitExceeded
    } else if norm_spec(o.stderr@).len() != 0 {
        TestStatus::Failed
    } else if norm_spec(o.stdout@) == norm_spec(tc.expected_output@) {
        TestStatus::Passed
    } else {
        TestStatus::Failed
    }
}

/// The test result produced for one output: the output's own id,
/// streams and timing, under the verdict of `spec_test_status`.
pub open spec fn spec_test_result(o: TestExecutionOutput, tc: TestCase) -> TestResult {
    TestResult {
        test_id: o.test_id,
        status: spec_test_status(o, tc),
        stdout: o.stdout,
        stderr: o.stderr,
        execution_time_ms: o.execution_time_ms,
    }
}

/// An output flagged as a runtime error, a timeout, or a compilation
/// failure can never be judged `Passed`, whatever its stdout holds.
pub proof fn lemma_error_never_passes(o: TestExecutionOutput, tc: TestCase)
    requires
        o.runtime_error || o.timed_out || o.compilation_failed,
    ensures
        spec_test_status(o, tc) != TestStatus::Passed,
{
}

/// Judge a single test case execution output against its test case.
pub fn evaluate_test(output: &TestExecutionOutput, test_case: &TestCase) -> (r: TestResult)
    ensures
        r == spec_test_result(*output, *test_case),
        (output.runtime_error || output.timed_out || output.compilation_failed) ==> r.status
            != TestStatus::Passed,
{
    let status = if output.compilation_failed {
        TestStatus::RuntimeError
    } else if output.runtime_error {
        TestStatus::RuntimeError
    } else if output.timed_out {
        TestStatus::TimeLimitExceeded
    } else if !normalize_output(output.stderr.as_str()).is_empty() {
        TestStatus::Failed
    } else {
        let actual = normalize_output(output.stdout.as_str());
        let expected = normalize_output(test_case.expected_output.as_str());
        if str_eq(actual, expected) {
            TestStatus::Passed
        } else {
            TestStatus::Failed
        }
    };
    TestResult {
        test_id: output.test_id,
        status,
        stdout: output.stdout.clone(),
        stderr: output.stderr.clone(),
        execution_time_ms: output.execution_time_ms,
    }
}

/// Sum of the weights of a sequence of test cases.
pub open spec fn sum_weights(tcs: Seq<TestCase>) -> int
    decreases tcs.len(),
{
    if tcs.len() == 0 {
        0
    } else {
        sum_weights(tcs.drop_last()) + tcs.last().weight
    }
}

/// The score a sequence of outputs earns: the weight of each test case
/// whose output is judged `Passed`, outputs paired with test cases by
/// position.
pub open spec fn spec_score(job: JobRequest, outputs: Seq<TestExecutionOutput>) -> int
    decreases outputs.len(),
{
    if outputs.len() == 0 {
        0
    } else {
        let i = outputs.len() - 1;
        spec_score(job, outputs.drop_last()) + if spec_test_status(
            outputs.last(),
            job.test_cases@[i as int],
        ) == TestStatus::Passed {
            job.test_cases@[i as int].weight as int
        } else {
            0
        }
    }
}

/// The outputs the engine hands the evaluator: one per executed test
/// case, in submission order, a prefix of the job's test cases
/// (possibly shorter when the job was cancelled mid-run).
pub open spec fn outputs_match(job: JobRequest, outputs: Seq<TestExecutionOutput>) -> bool {
    &&& outputs.len() <= job.test_cases@.len()
    &&& forall|i: int|
        0 <= i < outputs.len() ==> #[trigger] outputs[i].test_id == job.test_cases@[i].id
}

/// Weights are non-negative and bounded, so their sum is bounded by the
/// count of test cases times the largest weight.
pub proof fn lemma_sum_weights_bound(tcs: Seq<TestCase>)
    ensures
        0 <= sum_weights(tcs) <= tcs.len() * 0xffff_ffff,
    decreases tcs.len(),
{
    if tcs.len() == 0 {
    } else {
        lemma_sum_weights_bound(tcs.drop_last());
    }
}

/// The weight sum of a prefix never exceeds the weight sum of the whole.
pub proof fn lemma_sum_weights_prefix(tcs: Seq<TestCase>, n: int)
    requires
        0 <= n <= tcs.len(),
    ensures
        sum_weights(tcs.subrange(0, n)) <= sum_weights(tcs),
    decreases tcs.len() - n,
{
    if n == tcs.len() {
        assert(tcs.subrange(0, n) =~= tcs);
    } else {
        lemma_sum_weights_prefix(tcs.drop_last(), n);
        assert(tcs.drop_last().subrange(0, n) =~= tcs.subrange(0, n));
    }
}

/// A batch of outputs all flagged as compilation failures — what the
/// engine fabricates when the compile step fails — scores zero, and
/// every test of it is reported as a runtime error.
pub proof fn lemma_compilation_failure_scores_zero(
    job: JobRequest,
    outputs: Seq<TestExecutionOutput>,
)
    requires
        forall|i: int| 0 <= i < outputs.len() ==> (#[trigger] outputs[i]).compilation_failed,
    ensures
        spec_score(job, outputs) == 0,
        forall|i: int|
            0 <= i < outputs.len() ==> spec_test_status(#[trigger] outputs[i], job.test_cases@[i])
                == TestStatus::RuntimeError,
    decreases outputs.len(),
{
    if outputs.len() > 0 {
        assert(forall|i: int|
            0 <= i < outputs.drop_last().len() ==> (#[trigger] outputs.drop_last()[i])
                == outputs[i]);
        lemma_compilation_failure_scores_zero(job, outputs.drop_last());
    }
}

/// Sum of the weights of a job's test cases: the maximum score.
pub fn total_weight(tcs: &Vec<TestCase>) -> (r: u64)
    requires
        tcs@.len() <= 100,
    ensures
        r == sum_weights(tcs@),
{
    let mut acc: u64 = 0;
    let mut i: usize = 0;
    while i < tcs.len()
        invariant
            0 <= i <= tcs@.len() <= 100,
            acc == sum_weights(tcs@.subrange(0, i as int)),
            acc <= i * 0xffff_ffff,
        decreases tcs@.len() - i,
    {
        proof {
            assert(tcs@.subrange(0, i + 1).drop_last() =~= tcs@.subrange(0, i as int));
            assert(tcs@.subrange(0, i + 1).last() == tcs@[i as int]);
        }
        acc = acc + tcs[i].weight as u64;
        i = i + 1;
    }
    proof {
        assert(tcs@.subrange(0, tcs@.len() as int) =~= tcs@);
    }
    acc
}

/// Aggregate per-test outputs into the final execution result.
///
/// The score is the weight sum of the passed tests, the maximum score
/// the weight sum of all test cases, and the overall status `Completed`
/// exactly when the score is positive. The score never exceeds the
/// maximum score.
pub fn aggregate_results(outputs: &Vec<TestExecutionOutput>, job: &JobRequest) -> (r:
    ExecutionResult)
    requires
        job.wf(),
        outputs_match(*job, outputs@),
    ensures
        r.job_id == job.id,
        r.score == spec_score(*job, outputs@),
        r.max_score == sum_weights(job.test_cases@),
        r.score <= r.max_score,
        r.results@.len() == outputs@.len(),
        forall|i: int|
            0 <= i < outputs@.len() ==> r.results@[i] == spec_test_result(
                outputs@[i],
                job.test_cases@[i],
            ),
        r.overall_status == (if spec_score(*job, outputs@) > 0 {
            ExecutionStatus::Completed
        } else {
            ExecutionStatus::Failed
        }),
{
    let mut test_results: Vec<TestResult> = Vec::new();
    let mut total_score: u64 = 0;
    let max_score = total_weight(&job.test_cases);
    let mut idx: usize = 0;
    while idx < outputs.len()
        invariant
            job.wf(),
            outputs_match(*job, outputs@),
            0 <= idx <= outputs@.len(),
            test_results@.len() == idx,
            forall|i: int|
                0 <= i < idx ==> test_results@[i] == spec_test_result(
                    outputs@[i],
                    job.test_cases@[i],
                ),
            total_score == spec_score(*job, outputs@.subrange(0, idx as int)),
            total_score <= sum_weights(job.test_cases@.subrange(0, idx as int)),
        decreases outputs@.len() - idx,
    {
        let output = &outputs[idx];
        let test_case = &job.test_cases[idx];
        let test_result = evaluate_test(output, test_case);
        proof {
            assert(outputs@.subrange(0, idx + 1).drop_last() =~= outputs@.subrange(0, idx as int));
            assert(outputs@.subrange(0, idx + 1).last() == outputs@[idx as int]);
            assert(job.test_cases@.subrange(0, idx + 1).drop_last() =~= job.test_cases@.subrange(
                0,
                idx as int,
            ));
            lemma_sum_weights_bound(job.test_cases@.subrange(0, idx as int));
        }
        if test_result.status == TestStatus::Passed {
            total_score = total_score + test_case.weight as u64;
        }
        test_results.push(test_result);
        idx = idx + 1;
    }
    proof {
        assert(outputs@.subrange(0, outputs@.len() as int) =~= outputs@);
        lemma_sum_weights_prefix(job.test_cases@, outputs@.len() as int);
    }
    let overall_status = if total_score > 0 {
        ExecutionStatus::Completed
    } else {
        ExecutionStatus::Failed
    };
    ExecutionResult {
        job_id: job.id.clone(),
        overall_status,
        score: total_score,
        max_score,
        results: test_results,
    }
}

/// Evaluate all outputs of a job and produce the final execution
/// result; the main entry point of the evaluator.
pub fn evaluate(job: &JobRequest, outputs: Vec<TestExecutionOutput>) -> (r: ExecutionResult)
    requires
        job.wf(),
        outputs_match(*job, outputs@),
    ensures
        r.job_id == job.id,
        r.score == spec_score(*job, outputs@),
        r.max_score == sum_weights(job.test_cases@),
        r.score <= r.max_score,
        r.results@.len() == outputs@.len(),
        forall|i: int|
            0 <= i < outputs@.len() ==> r.results@[i] == spec_test_result(
                outputs@[i],
                job.test_cases@[i],
            ),
        r.overall_status == (if spec_score(*job, outputs@) > 0 {
            ExecutionStatus::Completed
        } else {
            ExecutionStatus::Failed
        }),
{
    aggregate_results(&outputs, job)
}

/// Evaluate a possibly cancelled run: like `evaluate`, but a run cut
/// short by an observed cancellation is reported as `Cancelled`, with
/// the partial results and the score they earned. A run already past
/// its final test case can no longer be cancelled: with all outputs
/// present the flag is ignored and the run is scored as usual.
pub fn evaluate_with_cancellation(
    job: &JobRequest,
    outputs: Vec<TestExecutionOutput>,
    cancelled: bool,
) -> (r: ExecutionResult)
    requires
        job.wf(),
        outputs_match(*job, outputs@),
    ensures
        r.job_id == job.id,
        r.score == spec_score(*job, outputs@),
        r.max_score == sum_weights(job.test_cases@),
        r.score <= r.max_score,
        r.results@.len() == outputs@.len(),
        forall|i: int|
            0 <= i < outputs@.len() ==> r.results@[i] == spec_test_result(
                outputs@[i],
                job.test_cases@[i],
            ),
        r.overall_status == (if cancelled && outputs@.len() < job.test_cases@.len() {
            ExecutionStatus::Cancelled
        } else if spec_score(*job, outputs@) > 0 {
            ExecutionStatus::Completed
        } else {
            ExecutionStatus::Failed
        }),
{
    let mut r = aggregate_results(&outputs, job);
    if cancelled && r.results.len() < job.test_cases.len() {
        r.overall_status = ExecutionStatus::Cancelled;
    }
    r
}

} // verus!
