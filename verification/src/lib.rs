//! A sandboxed code-execution service library: job admission and
//! idempotency, per-language queue and retry bookkeeping, the execution
//! engine's decision logic, and a deterministic evaluator that scores
//! raw test outputs.

pub mod admission;
pub mod config;
pub mod engine;
pub mod evaluator;
pub mod fingerprint;
pub mod generator;
pub mod keys;
pub mod registry;
pub mod status;
pub mod text;
pub mod types;
pub mod worker;
