use anytree::container::{container_copy_args, container_run_args, platform_allows};
use anytree::sbom::{Component, ComponentType, Property};

#[test]
fn test_container_run_arguments() {
    let args = container_run_args("/work/src", "/work/cargo", true, true, "builder-1");
    let expected: Vec<String> = [
        "run",
        "-t",
        "--network",
        "none",
        "--name",
        "builder-1",
        "--mount",
        "type=bind,source=/work/src,target=/tmp/proj/",
        "--mount",
        "type=bind,source=/work/cargo/git,target=/usr/local/cargo/git",
        "--mount",
        "type=bind,source=/work/cargo/registry,target=/usr/local/cargo/registry",
        "--workdir",
        "/tmp/proj/",
        "rust:1.71",
        "sh",
        "-c",
        "cargo build --offline --release",
    ]
    .iter()
    .map(|s| s.to_string())
    .collect();
    assert_eq!(args, expected);
}

#[test]
fn test_container_run_arguments_without_caches() {
    let args = container_run_args("/work/src", "/work/cargo", false, false, "builder-2");
    assert!(!args.iter().any(|a| a.contains("/usr/local/cargo")));
    assert_eq!(args.iter().filter(|a| a.as_str() == "--mount").count(), 1);
}

#[test]
fn test_container_copy_arguments() {
    let args = container_copy_args("builder-1", "demo-artifact", "/work/target");
    let expected: Vec<String> = [
        "cp",
        "builder-1:/tmp/proj//target/release/demo-artifact",
        "/work/target",
    ]
    .iter()
    .map(|s| s.to_string())
    .collect();
    assert_eq!(args, expected);
}

#[test]
fn test_platform_check() {
    assert!(platform_allows(&None, "linux"));
    assert!(platform_allows(&Some("linux".to_string()), "linux"));
    assert!(!platform_allows(&Some("macos".to_string()), "linux"));
}

#[test]
fn test_artifact_name_from_root_component() {
    let root = Component {
        bom_ref: None,
        component_type: ComponentType::Application,
        name: "proj".to_string(),
        version: Some("0.1.0".to_string()),
        purl: None,
        description: None,
        external_references: None,
        properties: Some(vec![
            Property { name: "platform".to_string(), value: "linux".to_string() },
            Property { name: "result".to_string(), value: "proj-bin".to_string() },
        ]),
        hashes: None,
        mime_type: None,
    };
    assert_eq!(anytree::container::artifact_name(&root).unwrap(), "proj-bin");

    let bare = Component { properties: None, ..root };
    assert!(anytree::container::artifact_name(&bare).is_err());
}
