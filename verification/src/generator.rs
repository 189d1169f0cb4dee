//! Deployment codegen: the worker deployment manifest, the per-language
//! container recipes, the resource and concurrency defaults for a new
//! language entry, and the template rendering used for the scaling
//! manifests. Pure string construction; writing files is left to the
//! surrounding binary.

use vstd::prelude::*;

verus! {

use vstd::string::{StrSliceExecFns, StringExecFns};

use crate::text::{dec_rep, str_eq, u64_to_dec};

/// How a language is executed: command, arguments, and the source-file
/// extension.
#[derive(Debug, Clone)]
pub struct LanguageExecution {
    pub command: String,
    pub args: Vec<String>,
    pub file_extension: String,
}

/// Requested resources of a worker pod.
#[derive(Debug, Clone)]
pub struct ResourceRequests {
    pub memory: String,
    pub cpu: String,
}

/// Resource limits of a worker pod.
#[derive(Debug, Clone)]
pub struct ResourceLimits {
    pub memory: String,
    pub cpu: String,
}

/// Requests and limits of a worker pod.
#[derive(Debug, Clone)]
pub struct Resources {
    pub requests: ResourceRequests,
    pub limits: ResourceLimits,
}

/// Concurrency settings of a worker.
#[derive(Debug, Clone, PartialEq, Eq, Structural)]
pub struct Concurrency {
    pub max_parallel_jobs: u32,
    pub max_parallel_tests: u32,
}

/// The worker deployment manifest for one language.
pub fn generate_worker_deployment(name: &str, image: &str, queue: &str) -> (r: String)
    ensures
        r@ == "apiVersion: apps/v1\nkind: Deployment\nmetadata:\n  name: optimus-worker-"@ + name@
            + "\n  namespace: optimus\n  labels:\n    app: optimus-worker\n    language: "@ + name@
            + "\nspec:\n  replicas: 1\n  selector:\n    matchLabels:\n      app: optimus-worker\n      language: "@
            + name@
            + "\n  template:\n    metadata:\n      labels:\n        app: optimus-worker\n        language: "@
            + name@ + "\n    spec:\n      containers:\n      - name: worker\n        image: "@
            + image@
            + "\n        env:\n        - name: REDIS_URL\n          value: \"redis://redis-master:6379\"\n        - name: QUEUE_NAME\n          value: \""@
            + queue@ + "\"\n        - name: LANGUAGE\n          value: \""@ + name@
            + "\"\n        resources:\n          requests:\n            memory: \"256Mi\"\n            cpu: \"250m\"\n          limits:\n            memory: \"512Mi\"\n            cpu: \"500m\"\n      restartPolicy: Always\n"@,
{
    String::from_str(
        "apiVersion: apps/v1\nkind: Deployment\nmetadata:\n  name: optimus-worker-",
    ).concat(name).concat(
        "\n  namespace: optimus\n  labels:\n    app: optimus-worker\n    language: ",
    ).concat(name).concat(
        "\nspec:\n  replicas: 1\n  selector:\n    matchLabels:\n      app: optimus-worker\n      language: ",
    ).concat(name).concat(
        "\n  template:\n    metadata:\n      labels:\n        app: optimus-worker\n        language: ",
    ).concat(name).concat(
        "\n    spec:\n      containers:\n      - name: worker\n        image: ",
    ).concat(image).concat(
        "\n        env:\n        - name: REDIS_URL\n          value: \"redis://redis-master:6379\"\n        - name: QUEUE_NAME\n          value: \"",
    ).concat(queue).concat("\"\n        - name: LANGUAGE\n          value: \"").concat(
        name,
    ).concat(
        "\"\n        resources:\n          requests:\n            memory: \"256Mi\"\n            cpu: \"250m\"\n          limits:\n            memory: \"512Mi\"\n            cpu: \"500m\"\n      restartPolicy: Always\n",
    )
}

/// The container recipe for a Python execution environment.
pub open spec fn spec_python_dockerfile(version: Seq<char>) -> Seq<char> {
    "# GENERATED BY optimus-cli — DO NOT EDIT\n# Python Execution Environment - Optimized for Cold Start\nFROM python:"@
        + version
        + "\n\n# Set environment variables for performance\nENV PYTHONUNBUFFERED=1 \\\n    PYTHONDONTWRITEBYTECODE=1 \\\n    PIP_NO_CACHE_DIR=1 \\\n    PIP_DISABLE_PIP_VERSION_CHECK=1 \\\n    LANGUAGE=python\n\nWORKDIR /code\n\n# Install common packages (pre-installed at build time, not runtime)\nRUN pip install --no-cache-dir \\\n    pytest==7.4.3 \\\n    numpy==1.26.2 \\\n    requests==2.31.0\n\n# Copy universal runner script (build context is repo root)\nCOPY dockerfiles/runner.sh /runner.sh\nRUN chmod +x /runner.sh\n\n# Create non-root user for security\nRUN useradd -m -u 1000 optimus && \\\n    chown -R optimus:optimus /code\n\nUSER optimus\n\n# Use universal runner\nENTRYPOINT [\"/runner.sh\"]\n"@
}

/// The Python container recipe for a version.
pub fn generate_python_dockerfile(version: &str) -> (r: String)
    ensures
        r@ == spec_python_dockerfile(version@),
{
    String::from_str(
        "# GENERATED BY optimus-cli — DO NOT EDIT\n# Python Execution Environment - Optimized for Cold Start\nFROM python:",
    ).concat(version).concat(
        "\n\n# Set environment variables for performance\nENV PYTHONUNBUFFERED=1 \\\n    PYTHONDONTWRITEBYTECODE=1 \\\n    PIP_NO_CACHE_DIR=1 \\\n    PIP_DISABLE_PIP_VERSION_CHECK=1 \\\n    LANGUAGE=python\n\nWORKDIR /code\n\n# Install common packages (pre-installed at build time, not runtime)\nRUN pip install --no-cache-dir \\\n    pytest==7.4.3 \\\n    numpy==1.26.2 \\\n    requests==2.31.0\n\n# Copy universal runner script (build context is repo root)\nCOPY dockerfiles/runner.sh /runner.sh\nRUN chmod +x /runner.sh\n\n# Create non-root user for security\nRUN useradd -m -u 1000 optimus && \\\n    chown -R optimus:optimus /code\n\nUSER optimus\n\n# Use universal runner\nENTRYPOINT [\"/runner.sh\"]\n",
    )
}

/// The container recipe for a Java execution environment.
pub open spec fn spec_java_dockerfile(version: Seq<char>) -> Seq<char> {
    "# GENERATED BY optimus-cli — DO NOT EDIT\n# Java Execution Environment - Optimized for Cold Start\nFROM eclipse-temurin:"@
        + version
        + "-jdk-alpine\n\n# Set environment variables for performance\nENV JAVA_TOOL_OPTIONS=\"-XX:+UseContainerSupport -XX:MaxRAMPercentage=75.0 -XX:+TieredCompilation -XX:TieredStopAtLevel=1\" \\\n    LANGUAGE=java\n\nWORKDIR /code\n\n# Install JUnit and bash at build time (bash needed for runner.sh)\nRUN apk add --no-cache wget bash && \\\n    wget -q https://repo1.maven.org/maven2/junit/junit/4.13.2/junit-4.13.2.jar -P /opt/ && \\\n    wget -q https://repo1.maven.org/maven2/org/hamcrest/hamcrest-core/1.3/hamcrest-core-1.3.jar -P /opt/ && \\\n    apk del wget && \\\n    rm -rf /var/cache/apk/*\n\nENV CLASSPATH=/opt/junit-4.13.2.jar:/opt/hamcrest-core-1.3.jar\n\n# Copy universal runner script (build context is repo root)\nCOPY dockerfiles/runner.sh /runner.sh\nRUN chmod +x /runner.sh\n\n# Create non-root user for security\nRUN adduser -D -u 1000 optimus && \\\n    chown -R optimus:optimus /code\n\nUSER optimus\n\n# Use universal runner\nENTRYPOINT [\"/runner.sh\"]\n"@
}

/// The Java container recipe for a version.
pub fn generate_java_dockerfile(version: &str) -> (r: String)
    ensures
        r@ == spec_java_dockerfile(version@),
{
    String::from_str(
        "# GENERATED BY optimus-cli — DO NOT EDIT\n# Java Execution Environment - Optimized for Cold Start\nFROM eclipse-temurin:",
    ).concat(version).concat(
        "-jdk-alpine\n\n# Set environment variables for performance\nENV JAVA_TOOL_OPTIONS=\"-XX:+UseContainerSupport -XX:MaxRAMPercentage=75.0 -XX:+TieredCompilation -XX:TieredStopAtLevel=1\" \\\n    LANGUAGE=java\n\nWORKDIR /code\n\n# Install JUnit and bash at build time (bash needed for runner.sh)\nRUN apk add --no-cache wget bash && \\\n    wget -q https://repo1.maven.org/maven2/junit/junit/4.13.2/junit-4.13.2.jar -P /opt/ && \\\n    wget -q https://repo1.maven.org/maven2/org/hamcrest/hamcrest-core/1.3/hamcrest-core-1.3.jar -P /opt/ && \\\n    apk del wget && \\\n    rm -rf /var/cache/apk/*\n\nENV CLASSPATH=/opt/junit-4.13.2.jar:/opt/hamcrest-core-1.3.jar\n\n# Copy universal runner script (build context is repo root)\nCOPY dockerfiles/runner.sh /runner.sh\nRUN chmod +x /runner.sh\n\n# Create non-root user for security\nRUN adduser -D -u 1000 optimus && \\\n    chown -R optimus:optimus /code\n\nUSER optimus\n\n# Use universal runner\nENTRYPOINT [\"/runner.sh\"]\n",
    )
}

/// The container recipe for a C++ execution environment.
pub open spec fn spec_cpp_dockerfile(version: Seq<char>) -> Seq<char> {
    "# GENERATED BY optimus-cli — DO NOT EDIT\n# C++ Execution Environment\nFROM gcc:"@ + version
        + "\n\n# Set environment variables\nENV LANGUAGE=cpp\n\nWORKDIR /code\n\n# Install necessary build tools\nRUN apt-get update && apt-get install -y --no-install-recommends \\\n    build-essential \\\n    && rm -rf /var/lib/apt/lists/*\n\n# Copy universal runner script (build context is repo root)\nCOPY dockerfiles/runner.sh /runner.sh\nRUN chmod +x /runner.sh\n\n# Create non-root user for security\nRUN useradd -m -u 1000 optimus && \\\n    chown -R optimus:optimus /code\n\nUSER optimus\n\n# Use universal runner\nENTRYPOINT [\"/runner.sh\"]\n"@
}

/// The C++ container recipe for a version.
pub fn generate_cpp_dockerfile(version: &str) -> (r: String)
    ensures
        r@ == spec_cpp_dockerfile(version@),
{
    String::from_str(
        "# GENERATED BY optimus-cli — DO NOT EDIT\n# C++ Execution Environment\nFROM gcc:",
    ).concat(version).concat(
        "\n\n# Set environment variables\nENV LANGUAGE=cpp\n\nWORKDIR /code\n\n# Install necessary build tools\nRUN apt-get update && apt-get install -y --no-install-recommends \\\n    build-essential \\\n    && rm -rf /var/lib/apt/lists/*\n\n# Copy universal runner script (build context is repo root)\nCOPY dockerfiles/runner.sh /runner.sh\nRUN chmod +x /runner.sh\n\n# Create non-root user for security\nRUN useradd -m -u 1000 optimus && \\\n    chown -R optimus:optimus /code\n\nUSER optimus\n\n# Use universal runner\nENTRYPOINT [\"/runner.sh\"]\n",
    )
}

/// The container recipe for a Go execution environment.
pub open spec fn spec_go_dockerfile(version: Seq<char>) -> Seq<char> {
    "# GENERATED BY optimus-cli — DO NOT EDIT\n# Go Execution Environment\nFROM golang:"@ + version
        + "\n\n# Set environment variables\nENV GO111MODULE=on \\\n    CGO_ENABLED=0 \\\n    LANGUAGE=go\n\nWORKDIR /code\n\n# Copy universal runner script (build context is repo root)\nCOPY dockerfiles/runner.sh /runner.sh\nRUN chmod +x /runner.sh\n\n# Create non-root user for security\nRUN useradd -m -u 1000 optimus && \\\n    chown -R optimus:optimus /code\n\nUSER optimus\n\n# Use universal runner\nENTRYPOINT [\"/runner.sh\"]\n"@
}

/// The Go container recipe for a version.
pub fn generate_go_dockerfile(version: &str) -> (r: String)
    ensures
        r@ == spec_go_dockerfile(version@),
{
    String::from_str(
        "# GENERATED BY optimus-cli — DO NOT EDIT\n# Go Execution Environment\nFROM golang:",
    ).concat(version).concat(
        "\n\n# Set environment variables\nENV GO111MODULE=on \\\n    CGO_ENABLED=0 \\\n    LANGUAGE=go\n\nWORKDIR /code\n\n# Copy universal runner script (build context is repo root)\nCOPY dockerfiles/runner.sh /runner.sh\nRUN chmod +x /runner.sh\n\n# Create non-root user for security\nRUN useradd -m -u 1000 optimus && \\\n    chown -R optimus:optimus /code\n\nUSER optimus\n\n# Use universal runner\nENTRYPOINT [\"/runner.sh\"]\n",
    )
}

/// The container recipe for a Node.js execution environment.
pub open spec fn spec_node_dockerfile(version: Seq<char>) -> Seq<char> {
    "# GENERATED BY optimus-cli — DO NOT EDIT\n# Node.js Execution Environment\nFROM node:"@
        + version
        + "\n\n# Set environment variables\nENV LANGUAGE=javascript\n\nWORKDIR /code\n\n# Install necessary tools\nRUN npm install -g typescript ts-node\n\n# Copy universal runner script (build context is repo root)\nCOPY dockerfiles/runner.sh /runner.sh\nRUN chmod +x /runner.sh\n\n# Create non-root user for security\nRUN useradd -m -u 1000 optimus && \\\n    chown -R optimus:optimus /code\n\nUSER optimus\n\n# Use universal runner\nENTRYPOINT [\"/runner.sh\"]\n"@
}

/// The Node.js container recipe for a version.
pub fn generate_node_dockerfile(version: &str) -> (r: String)
    ensures
        r@ == spec_node_dockerfile(version@),
{
    String::from_str(
        "# GENERATED BY optimus-cli — DO NOT EDIT\n# Node.js Execution Environment\nFROM node:",
    ).concat(version).concat(
        "\n\n# Set environment variables\nENV LANGUAGE=javascript\n\nWORKDIR /code\n\n# Install necessary tools\nRUN npm install -g typescript ts-node\n\n# Copy universal runner script (build context is repo root)\nCOPY dockerfiles/runner.sh /runner.sh\nRUN chmod +x /runner.sh\n\n# Create non-root user for security\nRUN useradd -m -u 1000 optimus && \\\n    chown -R optimus:optimus /code\n\nUSER optimus\n\n# Use universal runner\nENTRYPOINT [\"/runner.sh\"]\n",
    )
}

/// The container recipe for a Rust execution environment.
pub open spec fn spec_rust_dockerfile(version: Seq<char>) -> Seq<char> {
    "# GENERATED BY optimus-cli — DO NOT EDIT\n# Rust Execution Environment - Optimized for Code Execution\nFROM rust:"@
        + version
        + "\n\n# Set environment variables for performance\nENV CARGO_HOME=/usr/local/cargo \\\n    RUSTUP_HOME=/usr/local/rustup \\\n    PATH=/usr/local/cargo/bin:$PATH \\\n    RUSTFLAGS=\"-C opt-level=2 -C debuginfo=0\" \\\n    LANGUAGE=rust\n\nWORKDIR /code\n\n# Install required packages\nRUN apt-get update && apt-get install -y --no-install-recommends \\\n    ca-certificates \\\n    && rm -rf /var/lib/apt/lists/*\n\n# Copy universal runner script (build context is repo root)\nCOPY dockerfiles/runner.sh /runner.sh\nRUN chmod +x /runner.sh\n\n# Create non-root user for security\nRUN useradd -m -u 1000 optimus && \\\n    chown -R optimus:optimus /code\n\nUSER optimus\n\n# Use universal runner\nENTRYPOINT [\"/runner.sh\"]\n"@
}

/// The Rust container recipe for a version.
pub fn generate_rust_dockerfile(version: &str) -> (r: String)
    ensures
        r@ == spec_rust_dockerfile(version@),
{
    String::from_str(
        "# GENERATED BY optimus-cli — DO NOT EDIT\n# Rust Execution Environment - Optimized for Code Execution\nFROM rust:",
    ).concat(version).concat(
        "\n\n# Set environment variables for performance\nENV CARGO_HOME=/usr/local/cargo \\\n    RUSTUP_HOME=/usr/local/rustup \\\n    PATH=/usr/local/cargo/bin:$PATH \\\n    RUSTFLAGS=\"-C opt-level=2 -C debuginfo=0\" \\\n    LANGUAGE=rust\n\nWORKDIR /code\n\n# Install required packages\nRUN apt-get update && apt-get install -y --no-install-recommends \\\n    ca-certificates \\\n    && rm -rf /var/lib/apt/lists/*\n\n# Copy universal runner script (build context is repo root)\nCOPY dockerfiles/runner.sh /runner.sh\nRUN chmod +x /runner.sh\n\n# Create non-root user for security\nRUN useradd -m -u 1000 optimus && \\\n    chown -R optimus:optimus /code\n\nUSER optimus\n\n# Use universal runner\nENTRYPOINT [\"/runner.sh\"]\n",
    )
}

/// The generic container recipe used for a language without a recipe of
/// its own; the base image defaults to `{name}:{version}`.
pub open spec fn spec_generic_dockerfile(name: Seq<char>, base: Seq<char>) -> Seq<char> {
    "# GENERATED BY optimus-cli — DO NOT EDIT\nFROM "@ + base
        + "\n\nWORKDIR /app\n\n# Copy runner script (if exists) from dockerfiles/"@ + name
        + "/ (build context is repo root)\nCOPY dockerfiles/"@ + name
        + "/runner.* /app/\n\n# Set execution command\nCMD [\""@ + name + "\"]\n"@
}

/// The generic container recipe for a language.
pub fn generate_generic_dockerfile(name: &str, version: &str, base_image: Option<&str>) -> (r:
    String)
    ensures
        base_image matches Some(b) ==> r@ == spec_generic_dockerfile(name@, b@),
        base_image is None ==> r@ == spec_generic_dockerfile(name@, name@ + ":"@ + version@),
{
    let base: String = match base_image {
        Some(b) => b.to_owned(),
        None => name.to_owned().concat(":").concat(version),
    };
    String::from_str("# GENERATED BY optimus-cli — DO NOT EDIT\nFROM ").concat(
        base.as_str(),
    ).concat("\n\nWORKDIR /app\n\n# Copy runner script (if exists) from dockerfiles/").concat(
        name,
    ).concat("/ (build context is repo root)\nCOPY dockerfiles/").concat(name).concat(
        "/runner.* /app/\n\n# Set execution command\nCMD [\"",
    ).concat(name).concat("\"]\n")
}

/// The recipe chosen for a language name: the dedicated recipe where
/// one exists, the generic recipe otherwise, with the base image
/// defaulting to `{name}:{version}`.
pub open spec fn spec_dockerfile_for(
    name: Seq<char>,
    version: Seq<char>,
    base: Option<Seq<char>>,
) -> Seq<char> {
    if name == "python"@ {
        spec_python_dockerfile(version)
    } else if name == "java"@ {
        spec_java_dockerfile(version)
    } else if name == "rust"@ {
        spec_rust_dockerfile(version)
    } else if name == "cpp"@ {
        spec_cpp_dockerfile(version)
    } else if name == "go"@ {
        spec_go_dockerfile(version)
    } else if name == "javascript"@ || name == "node"@ {
        spec_node_dockerfile(version)
    } else {
        match base {
            Some(b) => spec_generic_dockerfile(name, b),
            None => spec_generic_dockerfile(name, name + ":"@ + version),
        }
    }
}

/// The container recipe for a language name: the dedicated recipe where
/// one exists, the generic recipe otherwise.
pub fn dockerfile_for(name: &str, version: &str, base_image: Option<&str>) -> (r: String)
    ensures
        r@ == spec_dockerfile_for(
            name@,
            version@,
            match base_image {
                Some(b) => Some(b@),
                None => None,
            },
        ),
{
    if str_eq(name, "python") {
        generate_python_dockerfile(version)
    } else if str_eq(name, "java") {
        generate_java_dockerfile(version)
    } else if str_eq(name, "rust") {
        generate_rust_dockerfile(version)
    } else if str_eq(name, "cpp") {
        generate_cpp_dockerfile(version)
    } else if str_eq(name, "go") {
        generate_go_dockerfile(version)
    } else if str_eq(name, "javascript") || str_eq(name, "node") {
        generate_node_dockerfile(version)
    } else {
        generate_generic_dockerfile(name, version, base_image)
    }
}

/// The default queue name for a new language entry.
pub fn default_queue_name(name: &str) -> (r: String)
    ensures
        r@ == "optimus:queue:"@ + name@,
{
    String::from_str("optimus:queue:").concat(name)
}

/// A file extension with its leading dot made explicit.
pub fn normalize_extension(ext: &str) -> (r: String)
    ensures
        ext@.len() > 0 && ext@[0] == '.' ==> r@ == ext@,
        (ext@.len() == 0 || ext@[0] != '.') ==> r@ == "."@ + ext@,
{
    if ext.unicode_len() > 0 && ext.get_char(0) == '.' {
        ext.to_owned()
    } else {
        String::from_str(".").concat(ext)
    }
}

/// The versioned image tag for a language entry:
/// `optimus-{name}:{version}-v1`.
pub fn versioned_image_tag(name: &str, version: &str) -> (r: String)
    ensures
        r@ == "optimus-"@ + name@ + ":"@ + version@ + "-v1"@,
{
    String::from_str("optimus-").concat(name).concat(":").concat(version).concat("-v1")
}

/// The floating image tag for a language: `optimus-{name}:latest`.
pub fn latest_image_tag(name: &str) -> (r: String)
    ensures
        r@ == "optimus-"@ + name@ + ":latest"@,
{
    String::from_str("optimus-").concat(name).concat(":latest")
}

/// The conventional path of a language's container recipe.
pub fn dockerfile_path(name: &str) -> (r: String)
    ensures
        r@ == "dockerfiles/"@ + name@ + "/Dockerfile"@,
{
    String::from_str("dockerfiles/").concat(name).concat("/Dockerfile")
}

/// The manifests that belong to a language, removed with it.
pub fn manifest_paths_for(name: &str) -> (r: Vec<String>)
    ensures
        r@.len() == 3,
        r@[0]@ == "k8s/worker-deployment-"@ + name@ + ".yaml"@,
        r@[1]@ == "k8s/keda/scaled-object-"@ + name@ + ".yaml"@,
        r@[2]@ == "k8s/keda/scaled-object-"@ + name@ + "-retry.yaml"@,
{
    let mut r: Vec<String> = Vec::new();
    r.push(String::from_str("k8s/worker-deployment-").concat(name).concat(".yaml"));
    r.push(String::from_str("k8s/keda/scaled-object-").concat(name).concat(".yaml"));
    r.push(String::from_str("k8s/keda/scaled-object-").concat(name).concat("-retry.yaml"));
    r
}

/// The arguments of the image build command: both tags, the recipe
/// path, optionally the flag that skips the cache, and the build
/// context.
pub fn docker_build_args(
    versioned_tag: &str,
    latest_tag: &str,
    dockerfile: &str,
    no_cache: bool,
) -> (r: Vec<String>)
    ensures
        r@.len() == (if no_cache {
            9int
        } else {
            8int
        }),
        r@[0]@ == "build"@,
        r@[1]@ == "-t"@,
        r@[2]@ == versioned_tag@,
        r@[3]@ == "-t"@,
        r@[4]@ == latest_tag@,
        r@[5]@ == "-f"@,
        r@[6]@ == dockerfile@,
        no_cache ==> r@[7]@ == "--no-cache"@ && r@[8]@ == "."@,
        !no_cache ==> r@[7]@ == "."@,
{
    let mut r: Vec<String> = Vec::new();
    r.push(String::from_str("build"));
    r.push(String::from_str("-t"));
    r.push(versioned_tag.to_owned());
    r.push(String::from_str("-t"));
    r.push(latest_tag.to_owned());
    r.push(String::from_str("-f"));
    r.push(dockerfile.to_owned());
    if no_cache {
        r.push(String::from_str("--no-cache"));
    }
    r.push(String::from_str("."));
    r
}

/// The memory a worker pod requests: twice the language's cap, in Mi.
pub fn memory_request_string(memory_mb: u32) -> (r: String)
    ensures
        r@ == dec_rep(2 * memory_mb) + "Mi"@,
{
    u64_to_dec((memory_mb as u64) * 2).concat("Mi")
}

/// The memory limit of a worker pod: four times the language's cap,
/// rounded up to whole Gi.
pub fn memory_limit_string(memory_mb: u32) -> (r: String)
    ensures
        r@ == dec_rep((4 * memory_mb + 1023) / 1024) + "Gi"@,
{
    u64_to_dec(((memory_mb as u64) * 4 + 1023) / 1024).concat("Gi")
}

/// The concurrency defaults for a language entry: memory-rich workers
/// take fewer parallel jobs.
pub fn concurrency_for_memory(memory_mb: u32) -> (r: Concurrency)
    ensures
        memory_mb >= 512 ==> r == (Concurrency { max_parallel_jobs: 2u32, max_parallel_tests: 3u32 }),
        memory_mb < 512 ==> r == (Concurrency { max_parallel_jobs: 3u32, max_parallel_tests: 5u32 }),
{
    if memory_mb >= 512 {
        Concurrency { max_parallel_jobs: 2, max_parallel_tests: 3 }
    } else {
        Concurrency { max_parallel_jobs: 3, max_parallel_tests: 5 }
    }
}

/// What rendering a template with the given keys and values yields; a
/// function of the template and the data alone.
pub uninterp spec fn render_of(tmpl: Seq<char>, keys: Seq<Seq<char>>, vals: Seq<Seq<char>>) -> Seq<
    char,
>;

/// Whether rendering a template with the given keys and values
/// succeeds; like the rendering itself, a function of the template and
/// the data alone.
pub uninterp spec fn render_ok_of(
    tmpl: Seq<char>,
    keys: Seq<Seq<char>>,
    vals: Seq<Seq<char>>,
) -> bool;

/// Relies on handlebars' `Handlebars::render_template` in strict mode
/// on a fresh registry: both whether the rendering succeeds and what it
/// yields are functions of the template string and the data handed to
/// it.
#[verifier::external_body]
fn render_template_with(tmpl: &str, data: &Vec<(String, String)>) -> (r: Result<String, String>)
    ensures
        r is Ok <==> render_ok_of(
            tmpl@,
            data@.map_values(|p: (String, String)| p.0@),
            data@.map_values(|p: (String, String)| p.1@),
        ),
        r matches Ok(s) ==> s@ == render_of(
            tmpl@,
            data@.map_values(|p: (String, String)| p.0@),
            data@.map_values(|p: (String, String)| p.1@),
        ),
{
    let mut hb = handlebars::Handlebars::new();
    hb.set_strict_mode(true);
    let mut map = std::collections::BTreeMap::new();
    for (k, v) in data.iter() {
        map.insert(k.clone(), v.clone());
    }
    hb.render_template(tmpl, &map).map_err(|e| e.to_string())
}

/// The data a manifest template is rendered with, keyed as the
/// templates expect.
pub fn manifest_template_data(
    language: String,
    queue_name: String,
    image: String,
    memory_request: String,
    memory_limit: String,
    cpu_request: String,
    cpu_limit: String,
    max_parallel_jobs: String,
    max_parallel_tests: String,
) -> (r: Vec<(String, String)>)
    ensures
        r@.map_values(|p: (String, String)| p.0@) == seq![
            "language"@,
            "queue_name"@,
            "image"@,
            "memory_request"@,
            "memory_limit"@,
            "cpu_request"@,
            "cpu_limit"@,
            "max_parallel_jobs"@,
            "max_parallel_tests"@,
        ],
        r@.map_values(|p: (String, String)| p.1) == seq![
            language,
            queue_name,
            image,
            memory_request,
            memory_limit,
            cpu_request,
            cpu_limit,
            max_parallel_jobs,
            max_parallel_tests,
        ],
{
    let mut r: Vec<(String, String)> = Vec::new();
    r.push((String::from_str("language"), language));
    r.push((String::from_str("queue_name"), queue_name));
    r.push((String::from_str("image"), image));
    r.push((String::from_str("memory_request"), memory_request));
    r.push((String::from_str("memory_limit"), memory_limit));
    r.push((String::from_str("cpu_request"), cpu_request));
    r.push((String::from_str("cpu_limit"), cpu_limit));
    r.push((String::from_str("max_parallel_jobs"), max_parallel_jobs));
    r.push((String::from_str("max_parallel_tests"), max_parallel_tests));
    proof {
        assert(r@.map_values(|p: (String, String)| p.0@) =~= seq![
            "language"@,
            "queue_name"@,
            "image"@,
            "memory_request"@,
            "memory_limit"@,
            "cpu_request"@,
            "cpu_limit"@,
            "max_parallel_jobs"@,
            "max_parallel_tests"@,
        ]);
        assert(r@.map_values(|p: (String, String)| p.1) =~= seq![
            language,
            queue_name,
            image,
            memory_request,
            memory_limit,
            cpu_request,
            cpu_limit,
            max_parallel_jobs,
            max_parallel_tests,
        ]);
    }
    r
}

/// Render a manifest template with its data. The rendering is the
/// template engine's; whether it succeeds and what it yields for this
/// template and data are pinned by `render_ok_of` and `render_of`.
pub fn render_manifest(tmpl: &str, data: &Vec<(String, String)>) -> (r: Result<String, String>)
    ensures
        r is Ok <==> render_ok_of(
            tmpl@,
            data@.map_values(|p: (String, String)| p.0@),
            data@.map_values(|p: (String, String)| p.1@),
        ),
        r matches Ok(s) ==> s@ == render_of(
            tmpl@,
            data@.map_values(|p: (String, String)| p.0@),
            data@.map_values(|p: (String, String)| p.1@),
        ),
{
    render_template_with(tmpl, data)
}

} // verus!
