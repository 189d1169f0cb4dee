use optimus::keys::{
    cancel_key, dlq_queue_name, idempotency_key, queue_name, result_key, retry_queue_name,
    status_key,
};
use optimus::types::Language;
use uuid::Uuid;

#[test]
fn test_queue_naming() {
    assert_eq!(queue_name(&Language::Python), "optimus:queue:python");
    assert_eq!(queue_name(&Language::Java), "optimus:queue:java");
    assert_eq!(queue_name(&Language::Rust), "optimus:queue:rust");
}

#[test]
fn test_result_key_deterministic() {
    let id = Uuid::new_v4();
    let key1 = result_key(&id.to_string());
    let key2 = result_key(&id.to_string());
    assert_eq!(key1, key2);
    assert!(key1.starts_with("optimus:result:"));
}

#[test]
fn test_status_key_format() {
    let id = Uuid::new_v4();
    let key = status_key(&id.to_string());
    assert!(key.starts_with("optimus:status:"));
    assert!(key.contains(&id.to_string()));
}

#[test]
fn test_retry_and_dlq_queue_names() {
    assert_eq!(retry_queue_name(&Language::Python), "optimus:queue:python:retry");
    assert_eq!(dlq_queue_name(&Language::Java), "optimus:queue:java:dlq");
}

#[test]
fn test_cancel_and_idempotency_keys() {
    assert_eq!(cancel_key("abc"), "optimus:cancel:abc");
    assert_eq!(idempotency_key("K"), "optimus:idempotency:K");
}
