use std::collections::{BTreeMap, BTreeSet};

use anytree::actions::{StepAction, StepEvent};
use anytree::errors::Error;
use anytree::orchestrator::{DependencyLoader, LoaderStep};
use anytree::sbom::{Component, ComponentType, ExternalReference, Property};
use md5::Digest;

/// An in-memory stand-in for the filesystem and the external tools, so a
/// whole materialization run can be driven without touching the real world.
#[derive(Clone, PartialEq, Eq, Debug, Default)]
struct SimWorld {
    files: BTreeMap<String, Vec<u8>>,
    dirs: BTreeSet<String>,
    downloads: BTreeMap<String, Vec<u8>>,
    fetches: BTreeMap<String, Vec<u8>>,
    archives: BTreeMap<String, Vec<u8>>,
    curl_runs: usize,
    tar_runs: usize,
    git_runs: usize,
}

impl SimWorld {
    fn perform(&mut self, action: &StepAction) -> StepEvent {
        match action {
            StepAction::CreateDirAll { path } => {
                self.dirs.insert(path.clone());
                StepEvent::Done
            }
            StepAction::WriteFile { path, contents } => {
                self.files.insert(path.clone(), contents.clone());
                StepEvent::Done
            }
            StepAction::WriteFileIfAbsent { path, contents } => {
                self.files.entry(path.clone()).or_insert_with(|| contents.clone());
                StepEvent::Done
            }
            StepAction::CheckExists { path } => {
                StepEvent::Exists(self.files.contains_key(path) || self.dirs.contains(path))
            }
            StepAction::ReadFile { path } => match self.files.get(path) {
                Some(bytes) => StepEvent::Bytes(bytes.clone()),
                None => StepEvent::IoFailed,
            },
            StepAction::CurlDownload { url, output } => {
                self.curl_runs += 1;
                match self.downloads.get(url) {
                    Some(bytes) => {
                        self.files.insert(output.clone(), bytes.clone());
                        StepEvent::Done
                    }
                    None => StepEvent::ToolFailed(22),
                }
            }
            StepAction::CurlFetch { url } => {
                self.curl_runs += 1;
                match self.fetches.get(url) {
                    Some(bytes) => StepEvent::Bytes(bytes.clone()),
                    None => StepEvent::ToolFailed(22),
                }
            }
            StepAction::TarExtract { archive: _, dest_dir, name } => {
                self.tar_runs += 1;
                self.dirs.insert(format!("{}/{}", dest_dir, name));
                StepEvent::Done
            }
            StepAction::GitBareClone { url: _, dest } => {
                self.git_runs += 1;
                self.dirs.insert(dest.clone());
                StepEvent::Done
            }
            StepAction::GitArchive { repo: _, commit } => {
                self.git_runs += 1;
                match self.archives.get(commit) {
                    Some(bytes) => StepEvent::Bytes(bytes.clone()),
                    None => StepEvent::ToolFailed(128),
                }
            }
            StepAction::GitCloneRecurse { src: _, dest } => {
                self.git_runs += 1;
                self.dirs.insert(dest.clone());
                StepEvent::Done
            }
            StepAction::GitCheckout { .. } => {
                self.git_runs += 1;
                StepEvent::Done
            }
        }
    }

    fn run(&mut self, components: Vec<Component>, root: &str) -> Result<(), Error> {
        let mut loader = DependencyLoader::new(components, root.to_string());
        let (l, mut next) = loader.poll();
        loader = l;
        loop {
            match next {
                LoaderStep::Action(action) => {
                    let event = self.perform(&action);
                    let (l, n) = loader.step(event);
                    loader = l;
                    next = n;
                }
                LoaderStep::Continue => {
                    let (l, n) = loader.poll();
                    loader = l;
                    next = n;
                }
                LoaderStep::Finished(outcome) => return outcome,
            }
        }
    }
}

fn registry_component(name: &str, version: &str, url: &str, hashes: Option<Vec<anytree::sbom::Hash>>) -> Component {
    Component {
        bom_ref: None,
        component_type: ComponentType::Library,
        name: name.to_string(),
        version: Some(version.to_string()),
        purl: None,
        description: None,
        external_references: Some(vec![ExternalReference {
            url: url.to_string(),
            ref_type: "distribution".to_string(),
        }]),
        properties: None,
        hashes,
        mime_type: Some("cargo/registry".to_string()),
    }
}

fn git_component(name: &str, url: &str, commit: &str, hashes: Option<Vec<anytree::sbom::Hash>>) -> Component {
    Component {
        bom_ref: None,
        component_type: ComponentType::Library,
        name: name.to_string(),
        version: None,
        purl: None,
        description: None,
        external_references: Some(vec![ExternalReference {
            url: url.to_string(),
            ref_type: "vcs".to_string(),
        }]),
        properties: Some(vec![Property {
            name: "commit".to_string(),
            value: commit.to_string(),
        }]),
        hashes,
        mime_type: Some("cargo/git".to_string()),
    }
}

const SERDE_URL: &str = "https://crates.io/api/v1/crates/serde/1.0.0/download";
const SERDE_INDEX_URL: &str =
    "https://github.com/rust-lang/crates.io-index/raw/master/se/rd/serde";

fn serde_world(archive: &[u8]) -> SimWorld {
    let mut world = SimWorld::default();
    world.downloads.insert(SERDE_URL.to_string(), archive.to_vec());
    world
        .fetches
        .insert(SERDE_INDEX_URL.to_string(), b"{\"name\":\"serde\",\"vers\":\"1.0.0\"}\n".to_vec());
    world
}

fn sha256_hex(data: &[u8]) -> String {
    hex::encode(sha2::Sha256::digest(data))
}

#[test]
fn test_registry_materialization() {
    // One registry dependency with a matching SHA-256.
    let archive = b"pretend crate archive".to_vec();
    let mut world = serde_world(&archive);
    let sbom_hash = sha256_hex(&archive);
    let components = vec![registry_component(
        "serde",
        "1.0.0",
        SERDE_URL,
        Some(vec![anytree::sbom::Hash { alg: "SHA-256".to_string(), content: sbom_hash.clone() }]),
    )];
    let outcome = world.run(components, "R");
    assert!(outcome.is_ok());

    let cached =
        &world.files["R/registry/cache/index.crates.io-6f17d22bba15001f/serde-1.0.0.crate"];
    assert_eq!(sha256_hex(cached), sbom_hash);

    let ok_marker =
        &world.files["R/registry/src/index.crates.io-6f17d22bba15001f/serde-1.0.0/.cargo-ok"];
    assert_eq!(ok_marker.as_slice(), b"ok");

    let index =
        &world.files["R/registry/index/index.crates.io-6f17d22bba15001f/.cache/se/rd/serde"];
    assert_eq!(&index[..5], &[3u8, 2, 0, 0, 0]);

    assert!(world
        .files
        .contains_key("R/registry/index/index.crates.io-6f17d22bba15001f/config.json"));
}

#[test]
fn test_git_materialization() {
    let commit = "abcdef0123456789abcdef0123456789abcdef01";
    let mut world = SimWorld::default();
    let components = vec![git_component(
        "simple_lib",
        "https://github.com/silkovalexander/simple_lib",
        commit,
        None,
    )];
    let outcome = world.run(components, "R");
    assert!(outcome.is_ok());

    assert!(world.dirs.contains("R/git/db/simple_lib-f9cb9f02e39b3874"));
    let head = &world.files["R/git/db/simple_lib-f9cb9f02e39b3874/refs/remotes/origin/HEAD"];
    assert_eq!(head.as_slice(), commit.as_bytes());
    assert!(world
        .files
        .contains_key("R/git/checkouts/simple_lib-f9cb9f02e39b3874/abcdef0/.cargo-ok"));
    assert!(world.files.contains_key("R/git/CACHEDIR.TAG"));
}

#[test]
fn test_git_archive_hash_verification() {
    let commit = "abcdef0123456789abcdef0123456789abcdef01";
    let tree = b"pretend tar stream of the pinned commit".to_vec();
    let mut world = SimWorld::default();
    world.archives.insert(commit.to_string(), tree.clone());
    let components = vec![git_component(
        "simple_lib",
        "https://github.com/silkovalexander/simple_lib",
        commit,
        Some(vec![anytree::sbom::Hash { alg: "SHA-256".to_string(), content: sha256_hex(&tree) }]),
    )];
    assert!(world.run(components, "R").is_ok());
}

#[test]
fn test_hash_mismatch_aborts_run() {
    // The first dependency's archive digest disagrees; the second must not
    // be touched at all.
    let archive = b"pretend crate archive".to_vec();
    let mut world = serde_world(&archive);
    let other_url = "https://crates.io/api/v1/crates/itoa/1.0.0/download";
    world.downloads.insert(other_url.to_string(), b"other".to_vec());
    let components = vec![
        registry_component(
            "serde",
            "1.0.0",
            SERDE_URL,
            Some(vec![anytree::sbom::Hash {
                alg: "SHA-256".to_string(),
                content: sha256_hex(b"different bytes"),
            }]),
        ),
        registry_component("itoa", "1.0.0", other_url, None),
    ];
    let outcome = world.run(components, "R");
    match outcome {
        Err(Error::HashMismatch { alg, .. }) => assert_eq!(alg, "SHA-256"),
        other => panic!("expected a hash mismatch, got {:?}", other),
    }
    // Only the first archive was downloaded; the second dependency was
    // never processed.
    assert_eq!(world.curl_runs, 1);
    assert!(!world
        .files
        .contains_key("R/registry/cache/index.crates.io-6f17d22bba15001f/itoa-1.0.0.crate"));
}

#[test]
fn test_unknown_library_kind_fails() {
    let mut component = registry_component("serde", "1.0.0", SERDE_URL, None);
    component.mime_type = Some("cargo/bazaar".to_string());
    let mut world = serde_world(b"bytes");
    match world.run(vec![component], "R") {
        Err(Error::UnsupportedLibraryKind { tag }) => assert_eq!(tag, "cargo/bazaar"),
        other => panic!("expected an unsupported library kind, got {:?}", other),
    }
}

#[test]
fn test_missing_kind_tag_fails() {
    let mut component = registry_component("serde", "1.0.0", SERDE_URL, None);
    component.mime_type = None;
    let mut world = serde_world(b"bytes");
    assert!(matches!(
        world.run(vec![component], "R"),
        Err(Error::InputMalformed { .. })
    ));
}

#[test]
fn test_missing_version_fails() {
    let mut component = registry_component("serde", "1.0.0", SERDE_URL, None);
    component.version = None;
    let mut world = serde_world(b"bytes");
    assert!(matches!(
        world.run(vec![component], "R"),
        Err(Error::InputMalformed { .. })
    ));
}

#[test]
fn test_missing_commit_fails() {
    let mut component =
        git_component("simple_lib", "https://github.com/silkovalexander/simple_lib", "x", None);
    component.properties = None;
    let mut world = SimWorld::default();
    assert!(matches!(
        world.run(vec![component], "R"),
        Err(Error::InputMalformed { .. })
    ));
}

#[test]
fn test_non_library_components_are_skipped() {
    let mut application = registry_component("app", "0.1.0", "https://nowhere.invalid/x", None);
    application.component_type = ComponentType::Application;
    let mut world = SimWorld::default();
    let outcome = world.run(vec![application], "R");
    assert!(outcome.is_ok());
    assert_eq!(world.curl_runs, 0);
    assert!(world.files.is_empty());
    assert!(world.dirs.is_empty());
}

#[test]
fn test_rerun_is_idempotent_and_offline() {
    // First run materializes; the second must invoke no tool and leave
    // every byte in place.
    let archive = b"pretend crate archive".to_vec();
    let mut world = serde_world(&archive);
    let components = || {
        vec![registry_component(
            "serde",
            "1.0.0",
            SERDE_URL,
            Some(vec![anytree::sbom::Hash { alg: "SHA-256".to_string(), content: sha256_hex(&archive) }]),
        )]
    };
    assert!(world.run(components(), "R").is_ok());
    let snapshot = world.clone();

    assert!(world.run(components(), "R").is_ok());
    assert_eq!(world.curl_runs, snapshot.curl_runs);
    assert_eq!(world.tar_runs, snapshot.tar_runs);
    assert_eq!(world.git_runs, snapshot.git_runs);
    assert_eq!(world.files, snapshot.files);
    assert_eq!(world.dirs, snapshot.dirs);
}

#[test]
fn test_git_rerun_skips_clone() {
    let commit = "abcdef0123456789abcdef0123456789abcdef01";
    let components = || {
        vec![git_component(
            "simple_lib",
            "https://github.com/silkovalexander/simple_lib",
            commit,
            None,
        )]
    };
    let mut world = SimWorld::default();
    assert!(world.run(components(), "R").is_ok());
    let snapshot = world.clone();
    assert!(world.run(components(), "R").is_ok());
    assert_eq!(world.git_runs, snapshot.git_runs);
    assert_eq!(world.files, snapshot.files);
    assert_eq!(world.dirs, snapshot.dirs);
}

#[test]
fn test_failed_download_is_subprocess_failure() {
    // No download is registered for the URL, so curl fails.
    let mut world = SimWorld::default();
    let components = vec![registry_component("serde", "1.0.0", SERDE_URL, None)];
    match world.run(components, "R") {
        Err(Error::SubprocessFailure { tool, status }) => {
            assert_eq!(tool, "curl");
            assert_eq!(status, 22);
        }
        other => panic!("expected a subprocess failure, got {:?}", other),
    }
}

#[test]
fn test_filesystem_failure_halts_machine() {
    let dep = anytree::registry::RegistryDep {
        name: "serde".to_string(),
        version: "1.0.0".to_string(),
        download_url: SERDE_URL.to_string(),
        hashes: None,
    };
    let (machine, action) = anytree::registry::CargoRegistryComponent::start(dep, "R".to_string(), false);
    assert!(matches!(action, StepAction::CreateDirAll { .. }));
    let (_machine, outcome) = machine.step(StepEvent::IoFailed);
    match outcome {
        anytree::actions::StepResult::Finished(Err(Error::IoFailure { path })) => {
            assert_eq!(path, "R/registry/cache/index.crates.io-6f17d22bba15001f");
        }
        other => panic!("expected a filesystem failure, got {:?}", other),
    }
}

#[test]
fn test_two_external_references_are_rejected() {
    let mut component = registry_component("serde", "1.0.0", SERDE_URL, None);
    if let Some(refs) = &mut component.external_references {
        refs.push(ExternalReference {
            url: "https://example.invalid/second".to_string(),
            ref_type: "distribution".to_string(),
        });
    }
    let mut world = serde_world(b"bytes");
    assert!(matches!(
        world.run(vec![component], "R"),
        Err(Error::InputMalformed { .. })
    ));
}
