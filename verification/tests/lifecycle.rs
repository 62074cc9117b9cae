use container_orchestrator::engine::{EngineOutput, ScriptedEngine};
use container_orchestrator::entity::{Container, Image};
use container_orchestrator::error::EngineError;
use container_orchestrator::wrapper::{run_toolchain, ContainerCliWrapper, DockerCliWrapper};

fn ok_with(stdout: &str) -> EngineOutput {
    EngineOutput { success: true, stdout: stdout.to_string(), stderr: String::new() }
}

fn fail_with(stderr: &str) -> EngineOutput {
    EngineOutput { success: false, stdout: String::new(), stderr: stderr.to_string() }
}

fn scripted(outputs: Vec<EngineOutput>) -> DockerCliWrapper<ScriptedEngine> {
    let mut engine = ScriptedEngine::new();
    engine.outputs = outputs;
    DockerCliWrapper::new(engine)
}

fn bare_image(name: &str, tag: &str) -> Image {
    Image {
        name: name.to_string(),
        tag: tag.to_string(),
        containerfile_path: "./isolated/containerfiles/tool.containerfile".to_string(),
        build_logs: String::new(),
        build_args: Vec::new(),
        build_secrets: Vec::new(),
    }
}

#[test]
fn scenario_responsive_empty_engine_init() {
    // Probe, canary run, and the two toolchain builds all succeed.
    let mut docker = scripted(vec![
        ok_with("engine help text"),
        ok_with("Hello from Docker!"),
        ok_with("built c_cpp"),
        ok_with("built cs_dotnet"),
    ]);
    assert!(docker.init().is_ok());
    assert_eq!(docker.images.len(), 3);
    assert_eq!(docker.containers.len(), 1);
    assert_eq!(docker.containers[0].name, "hello-world");
    assert_eq!(docker.containers[0].run_logs, "Hello from Docker!");
    let canary_key = "hello-world:latest".to_string();
    let canary = docker.lookup_image(&canary_key).expect("canary registered");
    assert_eq!(canary.build_logs, "");
    let cpp_key = "c_cpp_container:latest".to_string();
    let cpp = docker.lookup_image(&cpp_key).expect("c_cpp built");
    assert_eq!(cpp.build_logs, "built c_cpp");
    assert_eq!(cpp.containerfile_path, "./isolated/containerfiles/c_cpp.containerfile");
    let cs_key = "cs_dotnet_container:latest".to_string();
    let cs = docker.lookup_image(&cs_key).expect("cs_dotnet built");
    assert_eq!(cs.build_logs, "built cs_dotnet");
    // The directory, the entrypoint script and both build definitions were
    // materialized at their fixed paths.
    assert_eq!(
        docker.engine.fs_log,
        vec![
            "./isolated/containerfiles".to_string(),
            "./isolated/entrypoint.sh".to_string(),
            "./isolated/containerfiles/c_cpp.containerfile".to_string(),
            "./isolated/containerfiles/cs_dotnet.containerfile".to_string(),
        ]
    );
}

#[test]
fn scenario_build_failure_carries_exact_stderr() {
    let mut docker = scripted(vec![fail_with("no such file: Containerfile")]);
    let mut img = bare_image("tool", "v1");
    match docker.build_image(&mut img) {
        Err(EngineError::BuildFailure(m)) => assert_eq!(m, "no such file: Containerfile"),
        other => panic!("expected a build failure, got {:?}", other),
    }
    // No registry mutation and no image mutation on failure.
    assert!(docker.images.is_empty());
    assert_eq!(img.build_logs, "");
}

#[test]
fn scenario_run_for_unbuilt_image_registers_nothing() {
    let mut docker = scripted(vec![fail_with(
        "Unable to find image 'tool:v1' locally: pull access denied",
    )]);
    let mut c = Container::from_image(bare_image("tool", "v1"));
    match docker.run_container(&mut c) {
        Err(EngineError::RunFailure(m)) => {
            assert_eq!(m, "Unable to find image 'tool:v1' locally: pull access denied")
        },
        other => panic!("expected a run failure, got {:?}", other),
    }
    assert!(docker.containers.is_empty());
    assert_eq!(c.run_logs, "");
}

#[test]
fn scenario_cleanup_stops_at_first_stop_failure() {
    let mut docker = scripted(vec![fail_with("cannot stop container: one")]);
    docker.containers.push(Container::from_image(bare_image("one", "latest")));
    docker.containers.push(Container::from_image(bare_image("two", "latest")));
    docker.images.push(("one:latest".to_string(), bare_image("one", "latest")));
    docker.images.push(("two:latest".to_string(), bare_image("two", "latest")));
    match docker.cleanup() {
        Err(EngineError::CleanupFailure(m)) => assert_eq!(m, "cannot stop container: one"),
        other => panic!("expected a cleanup failure, got {:?}", other),
    }
    // The second container was never attempted, no image removal was issued,
    // no file deletion happened, and both registries are untouched.
    assert_eq!(docker.engine.exec_log.len(), 1);
    assert_eq!(
        docker.engine.exec_log[0],
        vec!["stop".to_string(), "--force".to_string(), "one".to_string()]
    );
    assert!(docker.engine.fs_log.is_empty());
    assert_eq!(docker.containers.len(), 2);
    assert_eq!(docker.images.len(), 2);
}

#[test]
fn cleanup_with_empty_registries_succeeds_trivially() {
    let mut docker = scripted(Vec::new());
    assert!(docker.cleanup().is_ok());
    // No engine invocation at all; only the two fixed file deletions.
    assert!(docker.engine.exec_log.is_empty());
    assert_eq!(
        docker.engine.fs_log,
        vec![
            "./isolated/containerfiles/c_cpp.containerfile".to_string(),
            "./isolated/containerfiles/cs_dotnet.containerfile".to_string(),
        ]
    );
}

#[test]
fn cleanup_missing_file_is_a_cleanup_failure() {
    let mut engine = ScriptedEngine::new();
    engine.fs_results = vec![Some("no such file or directory".to_string())];
    let mut docker = DockerCliWrapper::new(engine);
    match docker.cleanup() {
        Err(EngineError::CleanupFailure(m)) => assert_eq!(m, "no such file or directory"),
        other => panic!("expected a cleanup failure, got {:?}", other),
    }
}

#[test]
fn cleanup_removes_images_under_latest_tag() {
    let mut docker = scripted(vec![ok_with(""), ok_with("")]);
    docker.containers.push(Container::from_image(bare_image("tool", "v1")));
    docker.images.push(("tool:v1".to_string(), bare_image("tool", "v1")));
    assert!(docker.cleanup().is_ok());
    assert!(docker.containers.is_empty());
    assert!(docker.images.is_empty());
    assert_eq!(docker.engine.exec_log.len(), 2);
    assert_eq!(
        docker.engine.exec_log[0],
        vec!["stop".to_string(), "--force".to_string(), "tool".to_string()]
    );
    // Removal targets the latest tag, not the recorded tag v1.
    assert_eq!(
        docker.engine.exec_log[1],
        vec!["rmi".to_string(), "--force".to_string(), "tool:latest".to_string()]
    );
}

#[test]
fn build_success_upserts_and_returns_captured_stdout() {
    let mut docker = scripted(vec![ok_with("step 1/3 done\nstep 2/3 done\n")]);
    let mut img = bare_image("tool", "v1");
    let log = docker.build_image(&mut img).expect("build succeeds");
    assert_eq!(log, "step 1/3 done\nstep 2/3 done\n");
    assert_eq!(img.build_logs, log);
    // Round trip: looking the image up by its exact composite tag returns
    // what the build last produced.
    let key = "tool:v1".to_string();
    let found = docker.lookup_image(&key).expect("registered under tool:v1");
    assert_eq!(found.build_logs, log);
    assert_eq!(found.name, "tool");
    assert_eq!(found.tag, "v1");
}

#[test]
fn rebuild_overwrites_the_same_registry_entry() {
    let mut docker = scripted(vec![ok_with("first build"), ok_with("second build")]);
    let mut img = bare_image("tool", "v1");
    docker.build_image(&mut img).expect("first build succeeds");
    docker.build_image(&mut img).expect("second build succeeds");
    assert_eq!(docker.images.len(), 1);
    let key = "tool:v1".to_string();
    assert_eq!(docker.lookup_image(&key).expect("still registered").build_logs, "second build");
}

#[test]
fn failed_probe_is_engine_unavailable() {
    let mut docker = scripted(vec![fail_with("docker: command not found")]);
    match docker.init() {
        Err(e) => {
            assert!(matches!(e, EngineError::EngineUnavailable(_)));
            assert_eq!(e.message(), "docker: command not found");
        },
        other => panic!("expected engine unavailable, got {:?}", other),
    }
    assert!(docker.images.is_empty());
    assert!(docker.containers.is_empty());
}

#[test]
fn failed_canary_run_aborts_init() {
    let mut docker = scripted(vec![ok_with("help"), fail_with("cannot connect to daemon")]);
    match docker.init() {
        Err(EngineError::RunFailure(m)) => assert_eq!(m, "cannot connect to daemon"),
        other => panic!("expected a run failure, got {:?}", other),
    }
    // Fail-fast keeps completed side effects: the canary image stays
    // registered, but the container was never registered.
    assert_eq!(docker.images.len(), 1);
    assert!(docker.containers.is_empty());
}

#[test]
fn failed_file_write_aborts_init() {
    let mut engine = ScriptedEngine::new();
    engine.outputs = vec![ok_with("help"), ok_with("canary ran")];
    engine.fs_results = vec![None, Some("disk full".to_string())];
    let mut docker = DockerCliWrapper::new(engine);
    match docker.init() {
        Err(EngineError::FsFailure(m)) => assert_eq!(m, "disk full"),
        other => panic!("expected a filesystem failure, got {:?}", other),
    }
}

#[test]
fn failed_toolchain_build_aborts_init() {
    let mut docker = scripted(vec![
        ok_with("help"),
        ok_with("canary ran"),
        fail_with("base image pull failed"),
    ]);
    match docker.init() {
        Err(EngineError::BuildFailure(m)) => assert_eq!(m, "base image pull failed"),
        other => panic!("expected a build failure, got {:?}", other),
    }
    // The canary survived; the failed toolchain image was never registered.
    assert_eq!(docker.images.len(), 1);
}

#[test]
fn lookup_of_missing_tag_is_a_lookup_failure() {
    let mut docker = scripted(vec![
        ok_with("help"),
        ok_with("canary ran"),
        ok_with("built c_cpp"),
        ok_with("built cs_dotnet"),
    ]);
    let key = "rust_container:latest".to_string();
    match run_toolchain(&mut docker, &key) {
        Err(EngineError::LookupFailure(m)) => {
            assert_eq!(m, "image not found in registry: rust_container:latest")
        },
        other => panic!("expected a lookup failure, got {:?}", other),
    }
}

#[test]
fn full_lifecycle_ends_with_empty_registries() {
    let mut docker = scripted(vec![
        ok_with("help"),
        ok_with("canary ran"),
        ok_with("built c_cpp"),
        ok_with("built cs_dotnet"),
        ok_with("compiled and ran"),
        ok_with(""),
        ok_with(""),
        ok_with(""),
        ok_with(""),
    ]);
    let key = "c_cpp_container:latest".to_string();
    assert!(run_toolchain(&mut docker, &key).is_ok());
    assert!(docker.images.is_empty());
    assert!(docker.containers.is_empty());
    // init issued four invocations (probe, canary run, two builds), the
    // toolchain run one more, and cleanup one stop plus three removals.
    assert_eq!(docker.engine.exec_log.len(), 9);
    assert_eq!(
        docker.engine.exec_log[4],
        vec![
            "run".to_string(),
            "--rm".to_string(),
            "--name=c_cpp_container".to_string(),
            "c_cpp_container:latest".to_string(),
        ]
    );
    assert_eq!(
        docker.engine.exec_log[5],
        vec!["stop".to_string(), "--force".to_string(), "hello-world".to_string()]
    );
}
