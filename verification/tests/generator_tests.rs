use optimus::config::Config;
use optimus::generator::{
    concurrency_for_memory, default_queue_name, docker_build_args, dockerfile_for, dockerfile_path,
    generate_java_dockerfile, generate_python_dockerfile, generate_rust_dockerfile,
    generate_worker_deployment, latest_image_tag, manifest_paths_for, manifest_template_data,
    memory_limit_string, memory_request_string, normalize_extension, render_manifest,
    versioned_image_tag,
};

#[test]
fn test_worker_deployment_yaml() {
    let yaml = generate_worker_deployment(
        "python",
        "optimus-python:latest",
        "optimus:queue:python",
    );
    assert!(yaml.starts_with("apiVersion: apps/v1\nkind: Deployment\n"));
    assert!(yaml.contains("name: optimus-worker-python"));
    assert!(yaml.contains("image: optimus-python:latest"));
    assert!(yaml.contains("value: \"optimus:queue:python\""));
    assert!(yaml.contains("value: \"redis://redis-master:6379\""));
    assert!(yaml.ends_with("restartPolicy: Always\n"));
    // The language labels the deployment, its selector, and its pods.
    assert_eq!(yaml.matches("language: python").count(), 3);
}

#[test]
fn test_python_dockerfile() {
    let df = generate_python_dockerfile("3.11");
    assert!(df.contains("FROM python:3.11\n"));
    assert!(df.contains("ENTRYPOINT [\"/runner.sh\"]"));
    assert!(df.contains("LANGUAGE=python"));
}

#[test]
fn test_java_dockerfile() {
    let df = generate_java_dockerfile("17");
    assert!(df.contains("FROM eclipse-temurin:17-jdk-alpine"));
    assert!(df.contains("LANGUAGE=java"));
}

#[test]
fn test_dockerfile_dispatch() {
    assert_eq!(dockerfile_for("python", "3.11", None), generate_python_dockerfile("3.11"));
    assert_eq!(dockerfile_for("rust", "1.75", None), generate_rust_dockerfile("1.75"));
    let generic = dockerfile_for("elixir", "1.16", None);
    assert!(generic.contains("FROM elixir:1.16\n"));
    assert!(generic.contains("CMD [\"elixir\"]"));
    let based = dockerfile_for("elixir", "1.16", Some("hexpm/elixir:1.16"));
    assert!(based.contains("FROM hexpm/elixir:1.16\n"));
}

#[test]
fn test_language_entry_defaults() {
    assert_eq!(default_queue_name("go"), "optimus:queue:go");
    assert_eq!(normalize_extension("py"), ".py");
    assert_eq!(normalize_extension(".py"), ".py");
    assert_eq!(versioned_image_tag("go", "1.21"), "optimus-go:1.21-v1");
    assert_eq!(latest_image_tag("go"), "optimus-go:latest");
    assert_eq!(dockerfile_path("go"), "dockerfiles/go/Dockerfile");
}

#[test]
fn test_manifest_paths() {
    let paths = manifest_paths_for("python");
    assert_eq!(
        paths,
        vec![
            "k8s/worker-deployment-python.yaml".to_string(),
            "k8s/keda/scaled-object-python.yaml".to_string(),
            "k8s/keda/scaled-object-python-retry.yaml".to_string(),
        ]
    );
}

#[test]
fn test_docker_build_args() {
    let args = docker_build_args(
        "optimus-go:1.21-v1",
        "optimus-go:latest",
        "dockerfiles/go/Dockerfile",
        false,
    );
    assert_eq!(
        args,
        vec![
            "build".to_string(),
            "-t".to_string(),
            "optimus-go:1.21-v1".to_string(),
            "-t".to_string(),
            "optimus-go:latest".to_string(),
            "-f".to_string(),
            "dockerfiles/go/Dockerfile".to_string(),
            ".".to_string(),
        ]
    );
    let args = docker_build_args("a", "b", "c", true);
    assert_eq!(args[7], "--no-cache");
    assert_eq!(args[8], ".");
}

#[test]
fn test_resource_strings() {
    assert_eq!(memory_request_string(256), "512Mi");
    assert_eq!(memory_limit_string(256), "1Gi");
    // 300 MiB * 4 = 1200 MiB rounds up to 2 Gi.
    assert_eq!(memory_limit_string(300), "2Gi");
}

#[test]
fn test_concurrency_thresholds() {
    let big = concurrency_for_memory(512);
    assert_eq!(big.max_parallel_jobs, 2);
    assert_eq!(big.max_parallel_tests, 3);
    let small = concurrency_for_memory(256);
    assert_eq!(small.max_parallel_jobs, 3);
    assert_eq!(small.max_parallel_tests, 5);
}

#[test]
fn test_render_manifest_substitutes_data() {
    let data = manifest_template_data(
        "python".to_string(),
        "optimus:queue:python".to_string(),
        "optimus-python:latest".to_string(),
        "512Mi".to_string(),
        "1Gi".to_string(),
        "250m".to_string(),
        "1000m".to_string(),
        "3".to_string(),
        "5".to_string(),
    );
    let rendered = render_manifest("lang={{language}} queue={{queue_name}}", &data).unwrap();
    assert_eq!(rendered, "lang=python queue=optimus:queue:python");
    // A key the data does not hold fails in strict mode.
    assert!(render_manifest("{{missing}}", &data).is_err());
}

#[test]
fn test_default_config() {
    let c = Config::new();
    assert_eq!(c.redis_host, "localhost:6379");
    assert_eq!(c.timeout_seconds, 30);
}
