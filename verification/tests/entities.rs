use container_orchestrator::entity::{composite_tag, Container, Image};

fn sample_image() -> Image {
    Image {
        name: "tool".to_string(),
        tag: "v1".to_string(),
        containerfile_path: "./isolated/containerfiles/tool.containerfile".to_string(),
        build_logs: "old logs".to_string(),
        build_args: vec!["--network=host".to_string()],
        build_secrets: vec![("id".to_string(), "SECRET-REDACTED".to_string())],
    }
}

#[test]
fn composite_tag_joins_name_and_tag() {
    let name = "tool".to_string();
    let tag = "v1".to_string();
    assert_eq!(composite_tag(&name, &tag), "tool:v1");
}

#[test]
fn image_key_is_composite_tag() {
    assert_eq!(sample_image().key(), "tool:v1");
}

#[test]
fn from_image_snapshots_the_image() {
    let img = sample_image();
    let c = Container::from_image(img.clone());
    assert_eq!(c.name, img.name);
    assert_eq!(c.image.name, img.name);
    assert_eq!(c.image.tag, img.tag);
    assert_eq!(c.image.containerfile_path, img.containerfile_path);
    assert_eq!(c.image.build_logs, img.build_logs);
    assert_eq!(c.image.build_args, img.build_args);
    assert_eq!(c.image.build_secrets, img.build_secrets);
    assert!(c.run_args.is_empty());
    assert!(c.start_commands.is_empty());
    assert!(c.environment_variables.is_empty());
    assert!(c.volumes.is_empty());
    assert!(c.run_logs.is_empty());
}

#[test]
fn from_image_snapshot_is_independent_of_later_mutation() {
    let mut img = sample_image();
    let c = Container::from_image(img.clone());
    img.build_logs = "changed afterwards".to_string();
    assert_eq!(c.image.build_logs, "old logs");
}

#[test]
fn duplicate_preserves_every_field() {
    let img = sample_image();
    let copy = img.duplicate();
    assert_eq!(copy.name, img.name);
    assert_eq!(copy.tag, img.tag);
    assert_eq!(copy.containerfile_path, img.containerfile_path);
    assert_eq!(copy.build_logs, img.build_logs);
    assert_eq!(copy.build_args, img.build_args);
    assert_eq!(copy.build_secrets, img.build_secrets);
}
