//! Decision logic of the execution engine: the commands run inside a
//! job's container, the classification of what came back, the input
//! caps, and the per-test loop with its cancellation points. The
//! container daemon itself is driven by the surrounding binary; every
//! function here is a pure decision about plain values.

use base64::Engine;
use vstd::prelude::*;

verus! {

use vstd::string::{StringExecFns, StringSliceAdditionalSpecFns};

use crate::registry::lang_name;
use crate::types::{CompilationResult, JobRequest, Language, TestCase, TestExecutionOutput};

/// What `base64` encoding of a byte string yields; a function of the
/// bytes alone.
pub uninterp spec fn b64_of(bytes: Seq<u8>) -> Seq<char>;

/// Relies on base64's `Engine::encode` with the standard padded
/// alphabet: the encoding depends on the bytes alone, and the padded
/// output has four characters for every three bytes begun.
#[verifier::external_body]
fn b64_encode(s: &str) -> (r: String)
    requires
        s.spec_bytes().len() <= 10485760,
    ensures
        r@ == b64_of(s.spec_bytes()),
        r@.len() == 4 * ((s.spec_bytes().len() + 2) / 3),
{
    base64::engine::general_purpose::STANDARD.encode(s.as_bytes())
}

/// The canonical lowercase hyphenated rendering of a UUID: 36
/// characters with hyphens at positions 8, 13, 18 and 23 and lowercase
/// hex digits elsewhere.
pub open spec fn is_uuid_chars(s: Seq<char>) -> bool {
    &&& s.len() == 36
    &&& forall|i: int|
        0 <= i < 36 ==> if i == 8 || i == 13 || i == 18 || i == 23 {
            s[i] == '-'
        } else {
            (48 <= #[trigger] s[i] as u32 <= 57) || (97 <= s[i] as u32 <= 102)
        }
}

/// Relies on uuid's `Uuid::new_v4` and its `Display`: a fresh random
/// version-4 UUID, rendered in the canonical lowercase hyphenated form.
#[verifier::external_body]
fn fresh_uuid_string() -> (r: String)
    ensures
        is_uuid_chars(r@),
{
    uuid::Uuid::new_v4().to_string()
}

/// A fresh job identifier in canonical UUID form.
pub fn generate_job_id() -> (r: String)
    ensures
        is_uuid_chars(r@),
{
    fresh_uuid_string()
}

/// A fresh container name: `optimus-` followed by a UUID.
pub fn new_container_name() -> (r: String)
    ensures
        r@.len() == 44,
        r@.subrange(0, 8) == "optimus-"@,
        is_uuid_chars(r@.skip(8)),
{
    let id = fresh_uuid_string();
    let r = String::from_str("optimus-").concat(id.as_str());
    proof {
        reveal_strlit("optimus-");
        assert(r@.subrange(0, 8) =~= "optimus-"@);
        assert(r@.skip(8) =~= id@);
    }
    r
}

/// Why the engine refused a job's inputs before any container was
/// touched: defense in depth against pathological payloads. These are
/// infrastructure errors, not user-code failures.
#[derive(Debug, Clone, Copy, PartialEq, Eq, Structural)]
pub enum EngineInputError {
    /// Source code over 1 MiB.
    SourceTooLarge,
    /// A test's stdin over 10 MiB.
    InputTooLarge,
}

/// Re-check the caps the engine imposes on what reaches a container:
/// source at most 1 MiB, per-test stdin at most 10 MiB.
pub fn check_engine_inputs(source_code: &str, input: &str) -> (r: Option<EngineInputError>)
    ensures
        r == (if source_code.spec_bytes().len() > 1048576 {
            Some(EngineInputError::SourceTooLarge)
        } else if input.spec_bytes().len() > 10485760 {
            Some(EngineInputError::InputTooLarge)
        } else {
            None::<EngineInputError>
        }),
{
    if source_code.as_bytes().len() > 1048576 {
        Some(EngineInputError::SourceTooLarge)
    } else if input.as_bytes().len() > 10485760 {
        Some(EngineInputError::InputTooLarge)
    } else {
        None
    }
}

/// The conventional in-container filename for a language's source.
pub open spec fn spec_source_filename(language: Language) -> Seq<char> {
    match language {
        Language::Java => "Main.java"@,
        Language::Rust => "main.rs"@,
        Language::Python => "main.py"@,
    }
}

/// The filename the source is written to inside the container.
pub fn source_filename(language: &Language) -> (r: &'static str)
    ensures
        r@ == spec_source_filename(*language),
{
    match language {
        Language::Java => "Main.java",
        Language::Rust => "main.rs",
        Language::Python => "main.py",
    }
}

/// The default image for a language, used when no configuration
/// overrides it.
pub open spec fn spec_default_image(language: Language) -> Seq<char> {
    match language {
        Language::Python => "optimus-python:latest"@,
        Language::Java => "optimus-java:latest"@,
        Language::Rust => "optimus-rust:latest"@,
    }
}

/// The image a job runs in: the configured image when there is one,
/// else the language's default.
pub fn image_for(language: &Language, configured: Option<String>) -> (r: String)
    ensures
        configured matches Some(img) ==> r == img,
        configured is None ==> r@ == spec_default_image(*language),
{
    match configured {
        Some(img) => img,
        None => match language {
            Language::Python => String::from_str("optimus-python:latest"),
            Language::Java => String::from_str("optimus-java:latest"),
            Language::Rust => String::from_str("optimus-rust:latest"),
        },
    }
}

/// The memory cap handed to the container, in bytes: the configured
/// cap in MiB when there is one, else 256 MiB.
pub fn memory_limit_bytes(configured_mb: Option<u32>) -> (r: i64)
    ensures
        configured_mb matches Some(mb) ==> r == mb * 1024 * 1024,
        configured_mb is None ==> r == 268435456,
{
    match configured_mb {
        Some(mb) => (mb as i64) * 1024 * 1024,
        None => 268435456,
    }
}

/// The shell line that compiles the job's source inside the container;
/// for the interpreted language this is a syntax check, so the per-test
/// loop can always assume a compile phase ran.
pub open spec fn spec_compile_line(language: Language) -> Seq<char> {
    match language {
        Language::Java => "javac /code/Main.java 2>&1"@,
        Language::Rust => "rustc /code/main.rs -o /code/main 2>&1"@,
        Language::Python => "python3 -m py_compile /code/main.py 2>&1"@,
    }
}

/// The command run for the compile phase: `bash -c` around the
/// language's compile line.
pub fn compile_command(language: &Language) -> (r: Vec<String>)
    ensures
        r@.len() == 3,
        r@[0]@ == "bash"@,
        r@[1]@ == "-c"@,
        r@[2]@ == spec_compile_line(*language),
{
    let line = match language {
        Language::Java => "javac /code/Main.java 2>&1",
        Language::Rust => "rustc /code/main.rs -o /code/main 2>&1",
        Language::Python => "python3 -m py_compile /code/main.py 2>&1",
    };
    let mut r: Vec<String> = Vec::new();
    r.push(String::from_str("bash"));
    r.push(String::from_str("-c"));
    r.push(String::from_str(line));
    r
}

/// The shell line that runs one test: the encoded stdin is decoded and
/// piped into the compiled artifact. For the JVM the tool options are
/// unset in a subshell first, so benign JVM noise cannot reach stderr
/// and be mistaken for a failure.
pub open spec fn spec_run_line(language: Language, input_bytes: Seq<u8>) -> Seq<char> {
    match language {
        Language::Java => "(unset JAVA_TOOL_OPTIONS; echo '"@ + b64_of(input_bytes)
            + "' | base64 -d | java -cp /code Main)"@,
        Language::Rust => "echo '"@ + b64_of(input_bytes) + "' | base64 -d | /code/main"@,
        Language::Python => "echo '"@ + b64_of(input_bytes)
            + "' | base64 -d | python3 -u /code/main.py"@,
    }
}

/// The command run for one test case: `bash -c` around the language's
/// run line with the test's stdin encoded into it.
pub fn run_command(language: &Language, input: &str) -> (r: Vec<String>)
    requires
        input.spec_bytes().len() <= 10485760,
    ensures
        r@.len() == 3,
        r@[0]@ == "bash"@,
        r@[1]@ == "-c"@,
        r@[2]@ == spec_run_line(*language, input.spec_bytes()),
{
    let encoded = b64_encode(input);
    let line = match language {
        Language::Java => String::from_str("(unset JAVA_TOOL_OPTIONS; echo '").concat(
            encoded.as_str(),
        ).concat("' | base64 -d | java -cp /code Main)"),
        Language::Rust => String::from_str("echo '").concat(encoded.as_str()).concat(
            "' | base64 -d | /code/main",
        ),
        Language::Python => String::from_str("echo '").concat(encoded.as_str()).concat(
            "' | base64 -d | python3 -u /code/main.py",
        ),
    };
    let mut r: Vec<String> = Vec::new();
    r.push(String::from_str("bash"));
    r.push(String::from_str("-c"));
    r.push(line);
    r
}

/// The command that writes the job's source to its conventional path
/// in the container.
pub fn write_source_command(language: &Language, source_code: &str) -> (r: Vec<String>)
    requires
        source_code.spec_bytes().len() <= 1048576,
    ensures
        r@.len() == 3,
        r@[0]@ == "bash"@,
        r@[1]@ == "-c"@,
        r@[2]@ == "echo '"@ + b64_of(source_code.spec_bytes()) + "' | base64 -d > /code/"@
            + spec_source_filename(*language),
{
    let encoded = b64_encode(source_code);
    let line = String::from_str("echo '").concat(encoded.as_str()).concat(
        "' | base64 -d > /code/",
    ).concat(source_filename(language));
    let mut r: Vec<String> = Vec::new();
    r.push(String::from_str("bash"));
    r.push(String::from_str("-c"));
    r.push(line);
    r
}

/// The idle command that keeps the job's container open between the
/// compile phase and the per-test executions.
pub fn keep_alive_command() -> (r: Vec<String>)
    ensures
        r@.len() == 3,
        r@[0]@ == "/bin/bash"@,
        r@[1]@ == "-c"@,
        r@[2]@ == "sleep 300"@,
{
    let mut r: Vec<String> = Vec::new();
    r.push(String::from_str("/bin/bash"));
    r.push(String::from_str("-c"));
    r.push(String::from_str("sleep 300"));
    r
}

/// The environment handed to the job's container: the encoded source
/// and the language name.
pub fn container_env(language: &Language, source_code: &str) -> (r: Vec<String>)
    requires
        source_code.spec_bytes().len() <= 1048576,
    ensures
        r@.len() == 2,
        r@[0]@ == "SOURCE_CODE="@ + b64_of(source_code.spec_bytes()),
        r@[1]@ == "LANGUAGE="@ + lang_name(*language),
{
    let encoded = b64_encode(source_code);
    let mut r: Vec<String> = Vec::new();
    r.push(String::from_str("SOURCE_CODE=").concat(encoded.as_str()));
    r.push(String::from_str("LANGUAGE=").concat(language.as_str()));
    r
}

/// Outcome of the compile phase from its exit status: success exactly
/// when the compile command exited zero, the diagnostics kept on
/// failure. A failed daemon call during the compile phase is not an
/// outcome here: it is an infrastructure failure, handled by the
/// retry protocol.
pub fn classify_compile(exited_zero: bool, stderr: String) -> (r: CompilationResult)
    ensures
        r.success == exited_zero,
        exited_zero ==> r.stderr@.len() == 0,
        !exited_zero ==> r.stderr == stderr,
{
    if exited_zero {
        CompilationResult::success()
    } else {
        CompilationResult::failure(stderr)
    }
}

/// How one test execution inside the container ended. A failed daemon
/// call is not an outcome: it is an infrastructure failure of the
/// whole job, handled by the retry protocol, never reported as a
/// user-code failure.
#[derive(Debug, Clone)]
pub enum RunOutcome {
    /// The process exited; streams and exit code captured.
    Exited { exit_code: i64, stdout: String, stderr: String },
    /// The process ended but no exit code could be captured.
    NoExit { stdout: String, stderr: String },
    /// The per-test deadline expired; the partial streams captured so
    /// far.
    DeadlineExceeded { stdout: String, stderr: String },
}

/// Classify what came back from one test execution, deterministically:
/// a non-zero exit is a runtime error, with the out-of-memory kill and
/// the segmentation fault annotated in stderr; a missed deadline is a
/// timeout, keeping the partial streams with the timeout marker
/// appended.
pub fn classify_run(test_id: u32, outcome: RunOutcome, elapsed_ms: u64) -> (o: TestExecutionOutput)
    ensures
        o.test_id == test_id,
        o.execution_time_ms == elapsed_ms,
        !o.compilation_failed,
        match outcome {
            RunOutcome::Exited { exit_code, stdout, stderr } => {
                &&& o.stdout == stdout
                &&& o.runtime_error == (exit_code != 0)
                &&& !o.timed_out
                &&& if exit_code == 137 {
                    o.stderr@ == stderr@
                        + "\n[Container killed: likely OOM or exceeded memory limit]"@
                } else if exit_code == 139 {
                    o.stderr@ == stderr@ + "\n[Container killed: segmentation fault]"@
                } else {
                    o.stderr == stderr
                }
            },
            RunOutcome::NoExit { stdout, stderr } => {
                &&& o.stdout == stdout
                &&& o.stderr == stderr
                &&& !o.runtime_error
                &&& !o.timed_out
            },
            RunOutcome::DeadlineExceeded { stdout, stderr } => {
                &&& o.stdout == stdout
                &&& o.stderr@ == stderr@ + "[Execution timed out]"@
                &&& o.timed_out
                &&& !o.runtime_error
            },
        },
{
    match outcome {
        RunOutcome::Exited { exit_code, stdout, stderr } => {
            let annotated = if exit_code == 137 {
                stderr.concat("\n[Container killed: likely OOM or exceeded memory limit]")
            } else if exit_code == 139 {
                stderr.concat("\n[Container killed: segmentation fault]")
            } else {
                stderr
            };
            TestExecutionOutput {
                test_id,
                stdout,
                stderr: annotated,
                execution_time_ms: elapsed_ms,
                timed_out: false,
                runtime_error: exit_code != 0,
                compilation_failed: false,
            }
        },
        RunOutcome::NoExit { stdout, stderr } => TestExecutionOutput {
            test_id,
            stdout,
            stderr,
            execution_time_ms: elapsed_ms,
            timed_out: false,
            runtime_error: false,
            compilation_failed: false,
        },
        RunOutcome::DeadlineExceeded { stdout, stderr } => TestExecutionOutput {
            test_id,
            stdout,
            stderr: stderr.concat("[Execution timed out]"),
            execution_time_ms: elapsed_ms,
            timed_out: true,
            runtime_error: false,
            compilation_failed: false,
        },
    }
}

/// One fabricated output per test case after a failed compile phase:
/// every test is marked as a compilation failure and carries the
/// compiler's diagnostics; execution is skipped entirely.
pub fn create_compilation_error_outputs(test_cases: &Vec<TestCase>, error_message: &str) -> (r:
    Vec<TestExecutionOutput>)
    ensures
        r@.len() == test_cases@.len(),
        forall|i: int|
            0 <= i < test_cases@.len() ==> {
                &&& (#[trigger] r@[i]).test_id == test_cases@[i].id
                &&& r@[i].stdout@.len() == 0
                &&& r@[i].stderr@ == error_message@
                &&& r@[i].execution_time_ms == 0
                &&& !r@[i].timed_out
                &&& !r@[i].runtime_error
                &&& r@[i].compilation_failed
            },
{
    let mut r: Vec<TestExecutionOutput> = Vec::new();
    let mut i: usize = 0;
    while i < test_cases.len()
        invariant
            0 <= i <= test_cases@.len(),
            r@.len() == i,
            forall|k: int|
                0 <= k < i ==> {
                    &&& (#[trigger] r@[k]).test_id == test_cases@[k].id
                    &&& r@[k].stdout@.len() == 0
                    &&& r@[k].stderr@ == error_message@
                    &&& r@[k].execution_time_ms == 0
                    &&& !r@[k].timed_out
                    &&& !r@[k].runtime_error
                    &&& r@[k].compilation_failed
                },
        decreases test_cases@.len() - i,
    {
        r.push(
            TestExecutionOutput {
                test_id: test_cases[i].id,
                stdout: String::new(),
                stderr: error_message.to_owned(),
                execution_time_ms: 0,
                timed_out: false,
                runtime_error: false,
                compilation_failed: true,
            },
        );
        i = i + 1;
    }
    r
}

/// What the per-test loop does next.
#[derive(Debug, Clone, Copy, PartialEq, Eq, Structural)]
pub enum EngineStep {
    /// Run the test case at this position.
    RunTest(usize),
    /// Stop: every test has run, or the cancellation flag was observed.
    Finish,
}

/// The next step of the per-test loop. The cancellation flag is polled
/// before each test: once observed the loop stops, keeping the outputs
/// produced so far; otherwise the tests run in submission order.
pub fn next_step(job: &JobRequest, completed: usize, cancelled: bool) -> (s: EngineStep)
    requires
        completed <= job.test_cases@.len(),
    ensures
        cancelled ==> s is Finish,
        (!cancelled && completed < job.test_cases@.len()) ==> s == EngineStep::RunTest(completed),
        (!cancelled && completed == job.test_cases@.len()) ==> s is Finish,
{
    if cancelled {
        EngineStep::Finish
    } else if completed < job.test_cases.len() {
        EngineStep::RunTest(completed)
    } else {
        EngineStep::Finish
    }
}

} // verus!
