//! The shared store's keyspace: every key is deterministic from the
//! job id or the language, so operators can inspect and reason about
//! state, and the API and the workers never drift.

use vstd::prelude::*;

verus! {

use vstd::string::StringExecFns;

use crate::registry::lang_name;
use crate::types::Language;

/// Main queue for a language: `optimus:queue:{language}`.
pub fn queue_name(language: &Language) -> (r: String)
    ensures
        r@ == "optimus:queue:"@ + lang_name(*language),
{
    String::from_str("optimus:queue:").concat(language.as_str())
}

/// Retry queue for a language: `optimus:queue:{language}:retry`.
pub fn retry_queue_name(language: &Language) -> (r: String)
    ensures
        r@ == "optimus:queue:"@ + lang_name(*language) + ":retry"@,
{
    queue_name(language).concat(":retry")
}

/// Dead-letter queue for a language: `optimus:queue:{language}:dlq`.
pub fn dlq_queue_name(language: &Language) -> (r: String)
    ensures
        r@ == "optimus:queue:"@ + lang_name(*language) + ":dlq"@,
{
    queue_name(language).concat(":dlq")
}

/// Result key for a job: `optimus:result:{job_id}`.
pub fn result_key(job_id: &str) -> (r: String)
    ensures
        r@ == "optimus:result:"@ + job_id@,
{
    String::from_str("optimus:result:").concat(job_id)
}

/// Status key for a job: `optimus:status:{job_id}`.
pub fn status_key(job_id: &str) -> (r: String)
    ensures
        r@ == "optimus:status:"@ + job_id@,
{
    String::from_str("optimus:status:").concat(job_id)
}

/// Cancellation flag key for a job: `optimus:cancel:{job_id}`.
pub fn cancel_key(job_id: &str) -> (r: String)
    ensures
        r@ == "optimus:cancel:"@ + job_id@,
{
    String::from_str("optimus:cancel:").concat(job_id)
}

/// Idempotency record key for a client key: `optimus:idempotency:{key}`.
pub fn idempotency_key(key: &str) -> (r: String)
    ensures
        r@ == "optimus:idempotency:"@ + key@,
{
    String::from_str("optimus:idempotency:").concat(key)
}

} // verus!
