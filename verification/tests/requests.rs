use container_orchestrator::engine::{
    build_request, probe_request, remove_image_request, run_request, stop_request,
};
use container_orchestrator::entity::{Container, Image};

fn tool_image() -> Image {
    Image {
        name: "tool".to_string(),
        tag: "v1".to_string(),
        containerfile_path: "./isolated/containerfiles/tool.containerfile".to_string(),
        build_logs: String::new(),
        build_args: vec!["--network=host".to_string(), "--label=x".to_string()],
        build_secrets: Vec::new(),
    }
}

#[test]
fn probe_request_is_help() {
    assert_eq!(probe_request().args, vec!["help".to_string()]);
}

#[test]
fn build_request_has_exact_flag_set() {
    let req = build_request(&tool_image());
    assert_eq!(
        req.args,
        vec![
            "build".to_string(),
            "--no-cache".to_string(),
            "--progress=plain".to_string(),
            "--pull".to_string(),
            "--compress".to_string(),
            "--file".to_string(),
            "./isolated/containerfiles/tool.containerfile".to_string(),
            "--tag".to_string(),
            "tool:v1".to_string(),
            "--hostname=tool".to_string(),
            "--network=host".to_string(),
            "--label=x".to_string(),
            ".".to_string(),
        ]
    );
}

#[test]
fn run_request_ends_with_composite_tag() {
    let mut c = Container::from_image(tool_image());
    c.run_args = vec!["--detach".to_string()];
    let req = run_request(&c);
    assert_eq!(
        req.args,
        vec![
            "run".to_string(),
            "--rm".to_string(),
            "--name=tool".to_string(),
            "--detach".to_string(),
            "tool:v1".to_string(),
        ]
    );
}

#[test]
fn stop_request_is_forced_by_name() {
    let name = "tool".to_string();
    assert_eq!(
        stop_request(&name).args,
        vec!["stop".to_string(), "--force".to_string(), "tool".to_string()]
    );
}

#[test]
fn generated_assets_sit_at_the_fixed_paths() {
    let assets = container_orchestrator::wrapper::generated_assets();
    assert_eq!(assets.len(), 3);
    assert_eq!(assets[0].path, "./isolated/entrypoint.sh");
    assert_eq!(assets[1].path, "./isolated/containerfiles/c_cpp.containerfile");
    assert_eq!(assets[2].path, "./isolated/containerfiles/cs_dotnet.containerfile");
    assert!(!assets[0].content.is_empty());
    assert!(!assets[1].content.is_empty());
    assert!(!assets[2].content.is_empty());
    let (cpp, cs) = container_orchestrator::wrapper::generated_containerfile_paths();
    assert_eq!(cpp, assets[1].path);
    assert_eq!(cs, assets[2].path);
    assert_eq!(container_orchestrator::wrapper::containerfiles_dir(), "./isolated/containerfiles");
}

#[test]
fn remove_image_request_always_targets_latest() {
    let name = "tool".to_string();
    assert_eq!(
        remove_image_request(&name).args,
        vec!["rmi".to_string(), "--force".to_string(), "tool:latest".to_string()]
    );
}
