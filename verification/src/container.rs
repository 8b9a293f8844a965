//! The container invocation contract.
//!
//! The materialized tree is consumed by a toolchain that runs inside a
//! network-isolated container: the project is mounted at `/tmp/proj/`, the
//! cache's `git/` and `registry/` trees (when they exist) under
//! `/usr/local/cargo/`, the working directory is the project mount, and the
//! build command runs offline.  The exact argument lists are fixed here;
//! spawning the runtime is the driver's business.

use vstd::prelude::*;
use vstd::string::*;

use crate::errors::{Error, ErrorModel};
use crate::sbom::{component_props, prop_lookup_first, Component, ComponentModel};

verus! {

/// The container path the project is mounted at.
pub open spec fn container_project_dir() -> Seq<char> {
    "/tmp/proj/"@
}

/// One `--mount` argument: a bind mount from a host path to a container
/// path.
pub open spec fn mount_arg(source: Seq<char>, target: Seq<char>) -> Seq<char> {
    "type=bind,source="@ + source + ",target="@ + target
}

/// The argument list of the build invocation: networking disabled, a fixed
/// name, the project mounted at the project dir, the `git/` and `registry/`
/// trees mounted under the toolchain's cache when present, the working
/// directory on the project mount, a fixed base image, and the offline
/// build command.
pub open spec fn container_run_args_spec(
    src_dir: Seq<char>,
    deps_dir: Seq<char>,
    git_exists: bool,
    registry_exists: bool,
    container_name: Seq<char>,
) -> Seq<Seq<char>> {
    seq!["run"@, "-t"@, "--network"@, "none"@, "--name"@, container_name] + seq![
        "--mount"@,
        mount_arg(src_dir, container_project_dir()),
    ] + (if git_exists {
        seq!["--mount"@, mount_arg(deps_dir + "/git"@, "/usr/local/cargo/git"@)]
    } else {
        Seq::empty()
    }) + (if registry_exists {
        seq!["--mount"@, mount_arg(deps_dir + "/registry"@, "/usr/local/cargo/registry"@)]
    } else {
        Seq::empty()
    }) + seq![
        "--workdir"@,
        container_project_dir(),
        "rust:1.71"@,
        "sh"@,
        "-c"@,
        "cargo build --offline --release"@,
    ]
}

fn push_str_arg(args: &mut Vec<String>, arg: &str)
    ensures
        final(args).deep_view() == old(args).deep_view() + seq![arg@],
{
    args.push(String::from_str(arg));
    proof {
        assert(args.deep_view() =~= old(args).deep_view() + seq![arg@]);
    }
}

fn push_string_arg(args: &mut Vec<String>, arg: String)
    ensures
        final(args).deep_view() == old(args).deep_view() + seq![arg@],
{
    let ghost v = arg@;
    args.push(arg);
    proof {
        assert(args.deep_view() =~= old(args).deep_view() + seq![v]);
    }
}

fn build_mount_arg(source: &str, target: &str) -> (r: String)
    ensures
        r@ == mount_arg(source@, target@),
{
    let mut r = String::from_str("type=bind,source=");
    r.append(source);
    r.append(",target=");
    r.append(target);
    r
}

/// Builds the argument list handed to the container runtime for the build,
/// exactly as [`container_run_args_spec`] fixes it.
pub fn container_run_args(
    src_dir: &str,
    deps_dir: &str,
    git_exists: bool,
    registry_exists: bool,
    container_name: &str,
) -> (r: Vec<String>)
    ensures
        r.deep_view() == container_run_args_spec(
            src_dir@,
            deps_dir@,
            git_exists,
            registry_exists,
            container_name@,
        ),
{
    let mut args: Vec<String> = Vec::new();
    push_str_arg(&mut args, "run");
    push_str_arg(&mut args, "-t");
    push_str_arg(&mut args, "--network");
    push_str_arg(&mut args, "none");
    push_str_arg(&mut args, "--name");
    push_str_arg(&mut args, container_name);
    push_str_arg(&mut args, "--mount");
    push_string_arg(&mut args, build_mount_arg(src_dir, "/tmp/proj/"));
    if git_exists {
        let mut host = String::from_str(deps_dir);
        host.append("/git");
        push_str_arg(&mut args, "--mount");
        push_string_arg(&mut args, build_mount_arg(host.as_str(), "/usr/local/cargo/git"));
    }
    if registry_exists {
        let mut host = String::from_str(deps_dir);
        host.append("/registry");
        push_str_arg(&mut args, "--mount");
        push_string_arg(&mut args, build_mount_arg(host.as_str(), "/usr/local/cargo/registry"));
    }
    push_str_arg(&mut args, "--workdir");
    push_str_arg(&mut args, "/tmp/proj/");
    push_str_arg(&mut args, "rust:1.71");
    push_str_arg(&mut args, "sh");
    push_str_arg(&mut args, "-c");
    push_str_arg(&mut args, "cargo build --offline --release");
    proof {
        assert(args.deep_view() =~= container_run_args_spec(
            src_dir@,
            deps_dir@,
            git_exists,
            registry_exists,
            container_name@,
        ));
    }
    args
}

/// The path, inside the container, of the artifact the build produces.
pub open spec fn container_artifact_path(container_name: Seq<char>, artifact: Seq<char>) -> Seq<
    char,
> {
    container_name + ":"@ + container_project_dir() + "/target/release/"@ + artifact
}

/// The argument list of the copy that brings the artifact out of the
/// container into the target directory.
pub open spec fn container_copy_args_spec(
    container_name: Seq<char>,
    artifact: Seq<char>,
    target_dir: Seq<char>,
) -> Seq<Seq<char>> {
    seq!["cp"@, container_artifact_path(container_name, artifact), target_dir]
}

/// Builds the argument list of the artifact copy.
pub fn container_copy_args(container_name: &str, artifact: &str, target_dir: &str) -> (r: Vec<
    String,
>)
    ensures
        r.deep_view() == container_copy_args_spec(container_name@, artifact@, target_dir@),
{
    let mut args: Vec<String> = Vec::new();
    push_str_arg(&mut args, "cp");
    let mut path = String::from_str(container_name);
    path.append(":");
    path.append("/tmp/proj/");
    path.append("/target/release/");
    path.append(artifact);
    proof {
        assert(path@ =~= container_artifact_path(container_name@, artifact@));
    }
    push_string_arg(&mut args, path);
    push_str_arg(&mut args, target_dir);
    proof {
        assert(args.deep_view() =~= container_copy_args_spec(
            container_name@,
            artifact@,
            target_dir@,
        ));
    }
    args
}

/// The artifact the build must produce: the root component's `result`
/// property.  Missing, the input is malformed.
pub fn artifact_name(project: &Component) -> (r: Result<String, Error>)
    ensures
        match r {
            Ok(name) => prop_lookup_first(component_props(project@), "result"@) == Some(name@),
            Err(e) => prop_lookup_first(component_props(project@), "result"@) is None && e@
                is InputMalformed,
        },
{
    match crate::sbom::component_property_first(project, "result") {
        Some(name) => Ok(name),
        None => Err(
            Error::InputMalformed {
                detail: String::from_str("root component without a result property"),
            },
        ),
    }
}

/// Whether a build may proceed on this host: the document either names no
/// platform, or names exactly the host's.
pub open spec fn platform_allows_spec(platform: Option<Seq<char>>, host: Seq<char>) -> bool {
    match platform {
        None => true,
        Some(p) => p == host,
    }
}

/// Decides the advisory platform check: a document without a platform
/// property always passes; one with it passes only on that platform.
pub fn platform_allows(platform: &Option<String>, host: &str) -> (r: bool)
    ensures
        r == platform_allows_spec(platform.deep_view(), host@),
{
    match platform {
        None => true,
        Some(p) => *p == String::from_str(host),
    }
}

} // verus!
