use optimus::engine::{
    check_engine_inputs, classify_compile, classify_run, compile_command, container_env,
    create_compilation_error_outputs, generate_job_id, keep_alive_command, memory_limit_bytes,
    new_container_name, next_step, run_command, source_filename, write_source_command,
    EngineInputError, EngineStep, RunOutcome,
};
use optimus::evaluator::{evaluate, evaluate_with_cancellation};
use optimus::types::{
    ExecutionStatus, JobMetadata, JobRequest, Language, TestCase, TestExecutionOutput, TestStatus,
};

fn make_job(n_tests: u64, weight: u32, timeout_ms: u64) -> JobRequest {
    let test_cases = (1..=n_tests)
        .map(|i| TestCase {
            id: i as u32,
            input: format!("{}", i),
            expected_output: format!("{}", i * 2),
            weight,
        })
        .collect();
    JobRequest {
        id: uuid::Uuid::new_v4().to_string(),
        language: Language::Python,
        source_code: "n = int(input())\nprint(n * 2)\n".to_string(),
        test_cases,
        timeout_ms,
        metadata: JobMetadata::default(),
    }
}

#[test]
fn test_generate_job_id_is_canonical_uuid() {
    let id = generate_job_id();
    assert_eq!(id.len(), 36);
    assert!(uuid::Uuid::parse_str(&id).is_ok());
    assert_ne!(generate_job_id(), id);
}

#[test]
fn test_new_container_name_shape() {
    let name = new_container_name();
    assert!(name.starts_with("optimus-"));
    assert_eq!(name.len(), 44);
    assert!(uuid::Uuid::parse_str(&name[8..]).is_ok());
}

#[test]
fn test_write_source_command_encodes_source() {
    // base64 of "test" is "dGVzdA==": the command must carry the
    // encoding, not the raw source.
    let cmd = write_source_command(&Language::Python, "test");
    assert_eq!(cmd.len(), 3);
    assert_eq!(cmd[0], "bash");
    assert_eq!(cmd[1], "-c");
    assert_eq!(cmd[2], "echo 'dGVzdA==' | base64 -d > /code/main.py");
}

#[test]
fn test_run_command_per_language() {
    // base64 of "5\n" is "NQo=".
    let py = run_command(&Language::Python, "5\n");
    assert_eq!(py[2], "echo 'NQo=' | base64 -d | python3 -u /code/main.py");
    let rs = run_command(&Language::Rust, "5\n");
    assert_eq!(rs[2], "echo 'NQo=' | base64 -d | /code/main");
    let java = run_command(&Language::Java, "5\n");
    assert_eq!(
        java[2],
        "(unset JAVA_TOOL_OPTIONS; echo 'NQo=' | base64 -d | java -cp /code Main)"
    );
}

#[test]
fn test_compile_command_per_language() {
    assert_eq!(compile_command(&Language::Java)[2], "javac /code/Main.java 2>&1");
    assert_eq!(
        compile_command(&Language::Rust)[2],
        "rustc /code/main.rs -o /code/main 2>&1"
    );
    assert_eq!(
        compile_command(&Language::Python)[2],
        "python3 -m py_compile /code/main.py 2>&1"
    );
}

#[test]
fn test_container_env_and_filename() {
    let env = container_env(&Language::Python, "test");
    assert_eq!(env[0], "SOURCE_CODE=dGVzdA==");
    assert_eq!(env[1], "LANGUAGE=python");
    assert_eq!(source_filename(&Language::Java), "Main.java");
    assert_eq!(source_filename(&Language::Rust), "main.rs");
    assert_eq!(source_filename(&Language::Python), "main.py");
}

#[test]
fn test_keep_alive_and_memory_limit() {
    let cmd = keep_alive_command();
    assert_eq!(cmd[0], "/bin/bash");
    assert_eq!(cmd[2], "sleep 300");
    assert_eq!(memory_limit_bytes(Some(512)), 512 * 1024 * 1024);
    assert_eq!(memory_limit_bytes(None), 256 * 1024 * 1024);
}

#[test]
fn test_engine_input_caps() {
    assert_eq!(check_engine_inputs("ok", "ok"), None);
    let big_source = "x".repeat(1048577);
    assert_eq!(
        check_engine_inputs(&big_source, "ok"),
        Some(EngineInputError::SourceTooLarge)
    );
    let big_input = "y".repeat(10485761);
    assert_eq!(
        check_engine_inputs("ok", &big_input),
        Some(EngineInputError::InputTooLarge)
    );
}

#[test]
fn test_classify_clean_exit() {
    let o = classify_run(
        7,
        RunOutcome::Exited {
            exit_code: 0,
            stdout: "10".to_string(),
            stderr: String::new(),
        },
        42,
    );
    assert_eq!(o.test_id, 7);
    assert_eq!(o.stdout, "10");
    assert!(!o.runtime_error && !o.timed_out && !o.compilation_failed);
    assert_eq!(o.execution_time_ms, 42);
}

#[test]
fn test_classify_nonzero_exit_is_runtime_error() {
    let o = classify_run(
        1,
        RunOutcome::Exited {
            exit_code: 1,
            stdout: String::new(),
            stderr: "boom".to_string(),
        },
        5,
    );
    assert!(o.runtime_error);
    assert!(!o.timed_out);
    assert_eq!(o.stderr, "boom");
}

#[test]
fn test_classify_oom_and_segfault_annotations() {
    let oom = classify_run(
        1,
        RunOutcome::Exited {
            exit_code: 137,
            stdout: String::new(),
            stderr: "killed".to_string(),
        },
        5,
    );
    assert!(oom.runtime_error);
    assert_eq!(
        oom.stderr,
        "killed\n[Container killed: likely OOM or exceeded memory limit]"
    );
    let segv = classify_run(
        1,
        RunOutcome::Exited {
            exit_code: 139,
            stdout: String::new(),
            stderr: String::new(),
        },
        5,
    );
    assert_eq!(segv.stderr, "\n[Container killed: segmentation fault]");
}

#[test]
fn test_classify_deadline_keeps_partial_output() {
    let o = classify_run(
        3,
        RunOutcome::DeadlineExceeded {
            stdout: "partial".to_string(),
            stderr: String::new(),
        },
        1001,
    );
    assert!(o.timed_out);
    assert!(!o.runtime_error);
    assert_eq!(o.stdout, "partial");
    assert_eq!(o.stderr, "[Execution timed out]");
}

#[test]
fn test_classify_compile_outcomes() {
    let ok = classify_compile(true, "leftover noise".to_string());
    assert!(ok.success);
    assert_eq!(ok.stderr, "");
    let failed = classify_compile(false, "error: expected `;`".to_string());
    assert!(!failed.success);
    assert_eq!(failed.stderr, "error: expected `;`");
}

#[test]
fn test_compile_failure_fails_every_test() {
    // Three tests; the compile step exits non-zero. Every test becomes
    // a runtime error carrying the compiler's text, the score is zero,
    // and the job fails.
    let job = make_job(3, 10, 5000);
    let outputs =
        create_compilation_error_outputs(&job.test_cases, "error: expected `;`, found `}`");
    assert_eq!(outputs.len(), 3);
    for o in &outputs {
        assert!(o.compilation_failed);
        assert!(o.stderr.contains("error:"));
    }
    let result = evaluate(&job, outputs);
    assert_eq!(result.score, 0);
    assert_eq!(result.overall_status, ExecutionStatus::Failed);
    assert_eq!(result.results.len(), 3);
    for tr in &result.results {
        assert_eq!(tr.status, TestStatus::RuntimeError);
        assert!(tr.stderr.contains("error: expected `;`, found `}`"));
    }
}

#[test]
fn test_cancellation_after_three_tests() {
    // Ten tests; the cancellation flag is observed once three have
    // completed. Exactly three results are reported, the job ends
    // Cancelled, and the score is bounded by the first three weights.
    let job = make_job(10, 10, 5000);
    let mut outputs: Vec<TestExecutionOutput> = Vec::new();
    let mut cancelled_seen = false;
    loop {
        let cancelled = outputs.len() >= 3;
        if cancelled {
            cancelled_seen = true;
        }
        match next_step(&job, outputs.len(), cancelled) {
            EngineStep::RunTest(i) => {
                let tc = &job.test_cases[i];
                outputs.push(TestExecutionOutput {
                    test_id: tc.id,
                    stdout: tc.expected_output.clone(),
                    stderr: String::new(),
                    execution_time_ms: 1,
                    timed_out: false,
                    runtime_error: false,
                    compilation_failed: false,
                });
            }
            EngineStep::Finish => break,
        }
    }
    assert!(cancelled_seen);
    assert_eq!(outputs.len(), 3);
    let result = evaluate_with_cancellation(&job, outputs, true);
    assert_eq!(result.overall_status, ExecutionStatus::Cancelled);
    assert_eq!(result.results.len(), 3);
    assert!(result.score <= 30);
}

#[test]
fn test_next_step_runs_tests_in_order() {
    let job = make_job(2, 10, 5000);
    assert_eq!(next_step(&job, 0, false), EngineStep::RunTest(0));
    assert_eq!(next_step(&job, 1, false), EngineStep::RunTest(1));
    assert_eq!(next_step(&job, 2, false), EngineStep::Finish);
    assert_eq!(next_step(&job, 1, true), EngineStep::Finish);
}
