use optimus::types::{
    ExecutionStatus, JobMetadata, JobRequest, Language, TestCase, TestExecutionOutput,
};
use optimus::worker::{dispose_job, handle_infra_failure, synthetic_failed_result, JobDisposition};

fn make_job(attempts: u32, max_attempts: u32) -> JobRequest {
    JobRequest {
        id: uuid::Uuid::new_v4().to_string(),
        language: Language::Python,
        source_code: "print(1)".to_string(),
        test_cases: vec![
            TestCase {
                id: 1,
                input: "a".to_string(),
                expected_output: "1".to_string(),
                weight: 10,
            },
            TestCase {
                id: 2,
                input: "b".to_string(),
                expected_output: "2".to_string(),
                weight: 15,
            },
        ],
        timeout_ms: 5000,
        metadata: JobMetadata {
            attempts,
            max_attempts,
            last_failure_reason: None,
        },
    }
}

fn passing_output(id: u32, stdout: &str) -> TestExecutionOutput {
    TestExecutionOutput {
        test_id: id,
        stdout: stdout.to_string(),
        stderr: String::new(),
        execution_time_ms: 1,
        timed_out: false,
        runtime_error: false,
        compilation_failed: false,
    }
}

#[test]
fn test_infra_failure_goes_to_retry_queue() {
    let job = make_job(0, 3);
    match handle_infra_failure(&job, "image pull failed".to_string()) {
        JobDisposition::Retry(j) => {
            assert_eq!(j.metadata.attempts, 1);
            assert_eq!(j.metadata.max_attempts, 3);
            assert_eq!(j.metadata.last_failure_reason.as_deref(), Some("image pull failed"));
            assert_eq!(j.id, job.id);
            assert_eq!(j.test_cases.len(), 2);
        }
        _ => panic!("first failure must retry"),
    }
}

#[test]
fn test_infra_failure_exhausted_goes_to_dlq_with_result() {
    let job = make_job(2, 3);
    match handle_infra_failure(&job, "store unreachable".to_string()) {
        JobDisposition::DeadLetter(j, r) => {
            assert_eq!(j.metadata.attempts, 3);
            assert_eq!(r.job_id, job.id);
            assert_eq!(r.overall_status, ExecutionStatus::Failed);
            assert_eq!(r.score, 0);
            assert_eq!(r.max_score, 25);
            assert!(r.results.is_empty());
        }
        _ => panic!("exhausted job must be dead-lettered"),
    }
}

#[test]
fn test_retry_chain_respects_cap() {
    // Following the protocol from a fresh job: two retries, then the
    // dead-letter queue — three pushes after the initial enqueue for a
    // cap of three attempts.
    let mut job = make_job(0, 3);
    let mut pushes = 0;
    loop {
        match handle_infra_failure(&job, "daemon error".to_string()) {
            JobDisposition::Retry(j) => {
                pushes += 1;
                job = j;
            }
            JobDisposition::DeadLetter(_, r) => {
                pushes += 1;
                assert_eq!(r.overall_status, ExecutionStatus::Failed);
                break;
            }
            JobDisposition::Store(_) => unreachable!(),
        }
    }
    assert_eq!(pushes, 3);
    assert_eq!(job.metadata.attempts, 2);
}

#[test]
fn test_synthetic_failed_result_shape() {
    let job = make_job(0, 3);
    let r = synthetic_failed_result(&job);
    assert_eq!(r.job_id, job.id);
    assert_eq!(r.overall_status, ExecutionStatus::Failed);
    assert_eq!(r.score, 0);
    assert_eq!(r.max_score, 25);
    assert!(r.results.is_empty());
}

#[test]
fn test_completed_execution_is_stored_not_retried() {
    let job = make_job(0, 3);
    let outputs = vec![passing_output(1, "1"), passing_output(2, "wrong")];
    match dispose_job(&job, Ok((outputs, false))) {
        JobDisposition::Store(r) => {
            assert_eq!(r.score, 10);
            assert_eq!(r.max_score, 25);
            assert_eq!(r.overall_status, ExecutionStatus::Completed);
        }
        _ => panic!("a finished execution is stored, never retried"),
    }
}

#[test]
fn test_cancelled_execution_is_stored_as_cancelled() {
    let job = make_job(0, 3);
    let outputs = vec![passing_output(1, "1")];
    match dispose_job(&job, Ok((outputs, true))) {
        JobDisposition::Store(r) => {
            assert_eq!(r.overall_status, ExecutionStatus::Cancelled);
            assert_eq!(r.results.len(), 1);
        }
        _ => panic!("a cancelled execution still stores a result"),
    }
}

#[test]
fn test_flag_after_final_test_does_not_cancel() {
    // With every test already run, an observed flag no longer cancels:
    // the run is scored as usual.
    let job = make_job(0, 3);
    let outputs = vec![passing_output(1, "1"), passing_output(2, "2")];
    match dispose_job(&job, Ok((outputs, true))) {
        JobDisposition::Store(r) => {
            assert_eq!(r.overall_status, ExecutionStatus::Completed);
            assert_eq!(r.score, 25);
        }
        _ => panic!("a finished execution is stored"),
    }
}

#[test]
fn test_failed_execution_goes_through_retry_protocol() {
    let job = make_job(0, 3);
    match dispose_job(&job, Err("container create failed".to_string())) {
        JobDisposition::Retry(j) => {
            assert_eq!(j.metadata.attempts, 1);
        }
        _ => panic!("an infrastructure failure must retry"),
    }
}
