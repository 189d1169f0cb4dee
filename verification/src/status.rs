//! Decisions behind the API's status, health, debug and cancel
//! operations: everything that can be said from plain values, with the
//! store lookups left to the surrounding binary.

use vstd::prelude::*;

verus! {

use vstd::string::{StrSliceExecFns, StringExecFns};

use crate::engine::is_uuid_chars;
use crate::types::{ExecutionResult, ExecutionStatus, JobMetadata};

/// The body of a health or readiness probe.
#[derive(Debug, Clone)]
pub struct HealthResponse {
    pub status: String,
    pub uptime_seconds: u64,
    pub redis_connected: bool,
    pub timestamp: String,
}

/// The liveness body: healthy whenever the process is up; the store is
/// assumed fine for liveness.
pub fn health_response(uptime_seconds: u64, timestamp: String) -> (r: HealthResponse)
    ensures
        r.status@ == "healthy"@,
        r.uptime_seconds == uptime_seconds,
        r.redis_connected,
        r.timestamp == timestamp,
{
    HealthResponse {
        status: String::from_str("healthy"),
        uptime_seconds,
        redis_connected: true,
        timestamp,
    }
}

/// The readiness body: ready exactly when the shared store answered
/// the ping.
pub fn readiness_response(uptime_seconds: u64, redis_ok: bool, timestamp: String) -> (r:
    HealthResponse)
    ensures
        r.status@ == (if redis_ok {
            "ready"@
        } else {
            "not_ready"@
        }),
        r.uptime_seconds == uptime_seconds,
        r.redis_connected == redis_ok,
        r.timestamp == timestamp,
{
    HealthResponse {
        status: if redis_ok {
            String::from_str("ready")
        } else {
            String::from_str("not_ready")
        },
        uptime_seconds,
        redis_connected: redis_ok,
        timestamp,
    }
}

/// Whether a string is a well-formed job id: the canonical lowercase
/// hyphenated UUID form.
pub fn validate_job_id(s: &str) -> (r: bool)
    ensures
        r == is_uuid_chars(s@),
{
    let len = s.unicode_len();
    if len != 36 {
        return false;
    }
    let mut i: usize = 0;
    while i < 36
        invariant
            0 <= i <= 36,
            s@.len() == 36,
            forall|k: int|
                0 <= k < i ==> if k == 8 || k == 13 || k == 18 || k == 23 {
                    s@[k] == '-'
                } else {
                    (48 <= #[trigger] s@[k] as u32 <= 57) || (97 <= s@[k] as u32 <= 102)
                },
        decreases 36 - i,
    {
        let c = s.get_char(i);
        if i == 8 || i == 13 || i == 18 || i == 23 {
            if c != '-' {
                return false;
            }
        } else {
            let v = c as u32;
            if !((48 <= v && v <= 57) || (97 <= v && v <= 102)) {
                return false;
            }
        }
        i = i + 1;
    }
    true
}

/// The label under which a terminal status is reported.
pub open spec fn spec_status_label(s: ExecutionStatus) -> Seq<char> {
    match s {
        ExecutionStatus::Completed => "completed"@,
        ExecutionStatus::Failed => "failed"@,
        ExecutionStatus::TimedOut => "timed_out"@,
        ExecutionStatus::Cancelled => "cancelled"@,
    }
}

/// The label under which a terminal status is reported.
pub fn status_label(s: &ExecutionStatus) -> (r: &'static str)
    ensures
        r@ == spec_status_label(*s),
{
    match s {
        ExecutionStatus::Completed => "completed",
        ExecutionStatus::Failed => "failed",
        ExecutionStatus::TimedOut => "timed_out",
        ExecutionStatus::Cancelled => "cancelled",
    }
}

/// Diagnostic view of one job: where it sits in the queue topology,
/// its retry bookkeeping, and its result if one exists. Operators
/// only; never on the hot path.
#[derive(Debug, Clone)]
pub struct JobDebugInfo {
    pub job_id: String,
    pub status: String,
    pub attempts: u32,
    pub max_attempts: u32,
    pub last_failure_reason: Option<String>,
    pub in_main_queue: bool,
    pub in_retry_queue: bool,
    pub in_dlq: bool,
    pub result: Option<ExecutionResult>,
}

/// The debug status label: a result wins, then the dead-letter queue,
/// the retry queue, the main queue, and finally `unknown`.
pub open spec fn spec_debug_status(
    has_result: bool,
    in_dlq: bool,
    in_retry: bool,
    in_main: bool,
) -> Seq<char> {
    if has_result {
        "completed"@
    } else if in_dlq {
        "dead_letter_queue"@
    } else if in_retry {
        "retrying"@
    } else if in_main {
        "queued"@
    } else {
        "unknown"@
    }
}

/// Assemble the debug view of a job from the store lookups: its result
/// if any, the metadata of the queued copy if one was found, and which
/// queues hold it.
pub fn job_debug_info(
    job_id: String,
    result: Option<ExecutionResult>,
    metadata: Option<JobMetadata>,
    in_main_queue: bool,
    in_retry_queue: bool,
    in_dlq: bool,
) -> (r: JobDebugInfo)
    ensures
        r.job_id == job_id,
        r.status@ == spec_debug_status(result is Some, in_dlq, in_retry_queue, in_main_queue),
        r.attempts == (match metadata {
            Some(m) => m.attempts,
            None => 0u32,
        }),
        r.max_attempts == (match metadata {
            Some(m) => m.max_attempts,
            None => 3u32,
        }),
        r.last_failure_reason == (match metadata {
            Some(m) => m.last_failure_reason,
            None => None::<String>,
        }),
        r.in_main_queue == in_main_queue,
        r.in_retry_queue == in_retry_queue,
        r.in_dlq == in_dlq,
        r.result == result,
{
    let status = if result.is_some() {
        String::from_str("completed")
    } else if in_dlq {
        String::from_str("dead_letter_queue")
    } else if in_retry_queue {
        String::from_str("retrying")
    } else if in_main_queue {
        String::from_str("queued")
    } else {
        String::from_str("unknown")
    };
    let attempts: u32 = match &metadata {
        Some(m) => m.attempts,
        None => 0,
    };
    let max_attempts: u32 = match &metadata {
        Some(m) => m.max_attempts,
        None => 3,
    };
    let last_failure_reason: Option<String> = match metadata {
        Some(m) => m.last_failure_reason,
        None => None,
    };
    JobDebugInfo {
        job_id,
        status,
        attempts,
        max_attempts,
        last_failure_reason,
        in_main_queue,
        in_retry_queue,
        in_dlq,
        result,
    }
}

/// The body of a cancel response.
#[derive(Debug, Clone)]
pub struct CancelResponse {
    pub job_id: String,
    pub status: String,
    pub message: String,
}

/// What a cancel request decides, given whether the job already has a
/// result.
#[derive(Debug, Clone)]
pub enum CancelOutcome {
    /// The job is already terminal: report a conflict with its status
    /// label; the flag is not set.
    AlreadyFinished(CancelResponse),
    /// No result yet: set the cancellation flag and report it.
    RequestCancellation,
}

/// Decide a cancel request. A job with a stored result can no longer
/// be cancelled; anything else gets the flag set. Repeated calls are
/// idempotent: they take the same branch and set the same flag.
pub fn cancel_decision(job_id: &str, existing: Option<&ExecutionResult>) -> (o: CancelOutcome)
    ensures
        match existing {
            Some(r) => o matches CancelOutcome::AlreadyFinished(resp) && {
                &&& resp.job_id@ == job_id@
                &&& resp.status@ == spec_status_label(r.overall_status)
                &&& resp.message@ == "Job has already finished with status: "@ + spec_status_label(
                    r.overall_status,
                )
            },
            None => o is RequestCancellation,
        },
{
    match existing {
        Some(r) => {
            let label = status_label(&r.overall_status);
            CancelOutcome::AlreadyFinished(
                CancelResponse {
                    job_id: job_id.to_owned(),
                    status: label.to_owned(),
                    message: String::from_str("Job has already finished with status: ").concat(
                        label,
                    ),
                },
            )
        },
        None => CancelOutcome::RequestCancellation,
    }
}

/// The body reported after the cancellation flag was set.
pub fn cancelling_response(job_id: &str) -> (r: CancelResponse)
    ensures
        r.job_id@ == job_id@,
        r.status@ == "cancelling"@,
        r.message@ == "Job cancellation requested. Worker will stop execution."@,
{
    CancelResponse {
        job_id: job_id.to_owned(),
        status: String::from_str("cancelling"),
        message: String::from_str("Job cancellation requested. Worker will stop execution."),
    }
}

} // verus!
