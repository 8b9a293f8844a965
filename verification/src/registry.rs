//! Materialization of one registry-backed dependency.
//!
//! The materializer is a step machine: it hands the driver one action at a
//! time — create the cache directories, probe for the archive, download,
//! verify, extract, fetch and encode the index, write the marker — and
//! every transition, with the exact action it emits, is fixed by
//! [`reg_step_spec`].  When the archive is already cached the machine
//! finishes at once and no network or subprocess action is ever emitted.

use vstd::prelude::*;
use vstd::string::*;
use vstd::utf8::*;

use crate::actions::{ActionModel, EventModel, StepAction, StepEvent, StepResult, StepResultModel};
use crate::crypto::{check_hashes, check_hashes_spec};
use crate::errors::{Error, ErrorModel};
use crate::index_cache::{convert_index_spec, convert_index_to_cache};
use crate::layout::{
    build_crate_index_url, build_cargo_ok_bytes, build_default_index_config,
    build_reg_archive_path, build_reg_cache_dir, build_reg_cargo_ok_path,
    build_reg_config_path, build_reg_index_cache_dir, build_reg_index_file_path,
    build_reg_index_parent_dir, build_reg_src_dir, cargo_ok_bytes,
    crate_index_url, default_index_config, pkg_full_name, reg_archive_path, reg_cache_dir,
    reg_cargo_ok_path, reg_config_path, reg_index_cache_dir, reg_index_file_path,
    reg_index_parent_dir, reg_src_dir,
};
use crate::sbom::{Component, ComponentModel, HashModel};

verus! {

/// One registry dependency, derived from a library component.
pub struct RegistryDep {
    pub name: String,
    pub version: String,
    pub download_url: String,
    pub hashes: Option<Vec<crate::sbom::Hash>>,
}

/// Ghost model of [`RegistryDep`].
pub struct RegistryDepModel {
    pub name: Seq<char>,
    pub version: Seq<char>,
    pub download_url: Seq<char>,
    pub hashes: Option<Seq<HashModel>>,
}

impl View for RegistryDep {
    type V = RegistryDepModel;

    open spec fn view(&self) -> RegistryDepModel {
        RegistryDepModel {
            name: self.name@,
            version: self.version@,
            download_url: self.download_url@,
            hashes: self.hashes.deep_view(),
        }
    }
}

impl RegistryDepModel {
    /// The record can drive a materialization: the package name is ASCII
    /// and not empty, as the index layout prescribes.
    pub open spec fn wf(self) -> bool {
        is_ascii_chars(self.name) && self.name.len() >= 1
    }
}

/// A component yields a registry dependency: it has a version, exactly one
/// external reference, and a usable name.
pub open spec fn registry_dep_ok(c: ComponentModel) -> bool {
    &&& c.version is Some
    &&& (c.external_references matches Some(rs) && rs.len() == 1)
    &&& is_ascii_chars(c.name)
    &&& c.name.len() >= 1
}

/// The registry dependency a well-formed component yields.
pub open spec fn registry_dep_of(c: ComponentModel) -> RegistryDepModel {
    RegistryDepModel {
        name: c.name,
        version: c.version->0,
        download_url: c.external_references->0[0].url,
        hashes: c.hashes,
    }
}

/// Derives the registry dependency record of a component: its name, its
/// version, the URL of its single external reference and its declared
/// hashes.  Fails when the version or the reference is missing, when more
/// than one reference is declared, or when the name cannot name an index
/// entry.
pub fn derive_registry_dep(component: &Component) -> (r: Result<RegistryDep, Error>)
    ensures
        match r {
            Ok(dep) => registry_dep_ok(component@) && dep@ == registry_dep_of(component@)
                && dep@.wf(),
            Err(e) => !registry_dep_ok(component@) && e@ is InputMalformed,
        },
{
    let version = match &component.version {
        Some(v) => v.clone(),
        None => {
            return Err(
                Error::InputMalformed {
                    detail: String::from_str("registry component without a version"),
                },
            );
        },
    };
    let url = match &component.external_references {
        Some(refs) => {
            if refs.len() != 1 {
                return Err(
                    Error::InputMalformed {
                        detail: String::from_str(
                            "registry component without exactly one external reference",
                        ),
                    },
                );
            }
            refs[0].url.clone()
        },
        None => {
            return Err(
                Error::InputMalformed {
                    detail: String::from_str("registry component without an external reference"),
                },
            );
        },
    };
    if !(component.name.as_str().is_ascii() && component.name.as_str().unicode_len() >= 1) {
        return Err(
            Error::InputMalformed {
                detail: String::from_str("registry component with an unusable name"),
            },
        );
    }
    let hashes = match &component.hashes {
        Some(hs) => {
            let out = hs.clone();
            proof {
                assert forall|i: int| 0 <= i < out@.len() implies out@[i] == hs@[i] by {
                    assert(cloned::<crate::sbom::Hash>(hs[i], out[i]));
                }
                assert(out.deep_view() =~= hs.deep_view());
            }
            Some(out)
        },
        None => None,
    };
    Ok(RegistryDep { name: component.name.clone(), version, download_url: url, hashes })
}

/// Where the registry materializer stands: each state names the action it
/// awaits an answer for.
#[derive(Clone, Copy, PartialEq, Eq, Structural, Debug)]
pub enum RegState {
    /// Creating the index `.cache` directory (one-time initialization).
    InitCacheDir,
    /// Writing the default index configuration (one-time initialization).
    InitConfig,
    /// Creating the archive cache directory.
    CacheDir,
    /// Probing whether the archive is already cached.
    Probe,
    /// Downloading the archive.
    Fetch,
    /// Reading the archive back for hash verification.
    Verify,
    /// Creating the source directory.
    SrcDir,
    /// Extracting the archive.
    Untar,
    /// Creating the index cache file's directory.
    IndexDir,
    /// Fetching the upstream index listing.
    FetchIndex,
    /// Writing the encoded index cache file.
    WriteIndex,
    /// Writing the `.cargo-ok` marker.
    MarkOk,
    /// Finished; no further step is taken.
    Halted,
}

/// Which events may answer the action a state awaits.
pub open spec fn reg_event_ok(s: RegState, ev: EventModel) -> bool {
    match s {
        RegState::InitCacheDir => ev is Done || ev is IoFailed,
        RegState::InitConfig => ev is Done || ev is IoFailed,
        RegState::CacheDir => ev is Done || ev is IoFailed,
        RegState::Probe => ev is Exists,
        RegState::Fetch => ev is Done || (ev matches EventModel::ToolFailed(st) && st != 0),
        RegState::Verify => ev is Bytes || ev is IoFailed,
        RegState::SrcDir => ev is Done || ev is IoFailed,
        RegState::Untar => ev is Done || (ev matches EventModel::ToolFailed(st) && st != 0),
        RegState::IndexDir => ev is Done || ev is IoFailed,
        RegState::FetchIndex => ev is Bytes || (ev matches EventModel::ToolFailed(st) && st != 0),
        RegState::WriteIndex => ev is Done || ev is IoFailed,
        RegState::MarkOk => ev is Done || ev is IoFailed,
        RegState::Halted => false,
    }
}

/// The state and first action of a fresh registry materializer: the
/// one-time initialization when asked for it, else straight to the cache
/// directory.
pub open spec fn reg_start_spec(root: Seq<char>, do_init: bool) -> (RegState, ActionModel) {
    if do_init {
        (RegState::InitCacheDir, ActionModel::CreateDirAll { path: reg_index_cache_dir(root) })
    } else {
        (RegState::CacheDir, ActionModel::CreateDirAll { path: reg_cache_dir(root) })
    }
}

/// The transition table of the registry materializer: for the state the
/// machine stands in and the event the driver answered, the state it moves
/// to and the action it emits next — or the outcome it finishes with.
pub open spec fn reg_step_spec(
    s: RegState,
    dep: RegistryDepModel,
    root: Seq<char>,
    ev: EventModel,
) -> (RegState, StepResultModel) {
    match (s, ev) {
        (RegState::InitCacheDir, EventModel::Done) => (
            RegState::InitConfig,
            StepResultModel::Next(
                ActionModel::WriteFile {
                    path: reg_config_path(root),
                    contents: default_index_config(),
                },
            ),
        ),
        (RegState::InitCacheDir, EventModel::IoFailed) => (
            RegState::Halted,
            StepResultModel::Finished(
                Err(ErrorModel::IoFailure { path: reg_index_cache_dir(root) }),
            ),
        ),
        (RegState::InitConfig, EventModel::Done) => (
            RegState::CacheDir,
            StepResultModel::Next(ActionModel::CreateDirAll { path: reg_cache_dir(root) }),
        ),
        (RegState::InitConfig, EventModel::IoFailed) => (
            RegState::Halted,
            StepResultModel::Finished(Err(ErrorModel::IoFailure { path: reg_config_path(root) })),
        ),
        (RegState::CacheDir, EventModel::Done) => (
            RegState::Probe,
            StepResultModel::Next(
                ActionModel::CheckExists {
                    path: reg_archive_path(root, dep.name, dep.version),
                },
            ),
        ),
        (RegState::CacheDir, EventModel::IoFailed) => (
            RegState::Halted,
            StepResultModel::Finished(Err(ErrorModel::IoFailure { path: reg_cache_dir(root) })),
        ),
        (RegState::Probe, EventModel::Exists(true)) => (
            RegState::Halted,
            StepResultModel::Finished(Ok(())),
        ),
        (RegState::Probe, EventModel::Exists(false)) => (
            RegState::Fetch,
            StepResultModel::Next(
                ActionModel::CurlDownload {
                    url: dep.download_url,
                    output: reg_archive_path(root, dep.name, dep.version),
                },
            ),
        ),
        (RegState::Fetch, EventModel::Done) => if dep.hashes is Some {
            (
                RegState::Verify,
                StepResultModel::Next(
                    ActionModel::ReadFile { path: reg_archive_path(root, dep.name, dep.version) },
                ),
            )
        } else {
            (
                RegState::SrcDir,
                StepResultModel::Next(ActionModel::CreateDirAll { path: reg_src_dir(root) }),
            )
        },
        (RegState::Fetch, EventModel::ToolFailed(st)) => (
            RegState::Halted,
            StepResultModel::Finished(
                Err(ErrorModel::SubprocessFailure { tool: "curl"@, status: st }),
            ),
        ),
        (RegState::Verify, EventModel::Bytes(b)) => match check_hashes_spec(dep.hashes->0, b) {
            Ok(()) => (
                RegState::SrcDir,
                StepResultModel::Next(ActionModel::CreateDirAll { path: reg_src_dir(root) }),
            ),
            Err(e) => (RegState::Halted, StepResultModel::Finished(Err(e))),
        },
        (RegState::Verify, EventModel::IoFailed) => (
            RegState::Halted,
            StepResultModel::Finished(
                Err(ErrorModel::IoFailure { path: reg_archive_path(root, dep.name, dep.version) }),
            ),
        ),
        (RegState::SrcDir, EventModel::Done) => (
            RegState::Untar,
            StepResultModel::Next(
                ActionModel::TarExtract {
                    archive: reg_archive_path(root, dep.name, dep.version),
                    dest_dir: reg_src_dir(root),
                    name: pkg_full_name(dep.name, dep.version),
                },
            ),
        ),
        (RegState::SrcDir, EventModel::IoFailed) => (
            RegState::Halted,
            StepResultModel::Finished(Err(ErrorModel::IoFailure { path: reg_src_dir(root) })),
        ),
        (RegState::Untar, EventModel::Done) => (
            RegState::IndexDir,
            StepResultModel::Next(
                ActionModel::CreateDirAll { path: reg_index_parent_dir(root, dep.name) },
            ),
        ),
        (RegState::Untar, EventModel::ToolFailed(st)) => (
            RegState::Halted,
            StepResultModel::Finished(
                Err(ErrorModel::SubprocessFailure { tool: "tar"@, status: st }),
            ),
        ),
        (RegState::IndexDir, EventModel::Done) => (
            RegState::FetchIndex,
            StepResultModel::Next(ActionModel::CurlFetch { url: crate_index_url(dep.name) }),
        ),
        (RegState::IndexDir, EventModel::IoFailed) => (
            RegState::Halted,
            StepResultModel::Finished(
                Err(ErrorModel::IoFailure { path: reg_index_parent_dir(root, dep.name) }),
            ),
        ),
        (RegState::FetchIndex, EventModel::Bytes(b)) => match convert_index_spec(b) {
            Ok(enc) => (
                RegState::WriteIndex,
                StepResultModel::Next(
                    ActionModel::WriteFile {
                        path: reg_index_file_path(root, dep.name),
                        contents: enc,
                    },
                ),
            ),
            Err(e) => (RegState::Halted, StepResultModel::Finished(Err(e))),
        },
        (RegState::FetchIndex, EventModel::ToolFailed(st)) => (
            RegState::Halted,
            StepResultModel::Finished(
                Err(ErrorModel::SubprocessFailure { tool: "curl"@, status: st }),
            ),
        ),
        (RegState::WriteIndex, EventModel::Done) => (
            RegState::MarkOk,
            StepResultModel::Next(
                ActionModel::WriteFileIfAbsent {
                    path: reg_cargo_ok_path(root, dep.name, dep.version),
                    contents: cargo_ok_bytes(),
                },
            ),
        ),
        (RegState::WriteIndex, EventModel::IoFailed) => (
            RegState::Halted,
            StepResultModel::Finished(
                Err(ErrorModel::IoFailure { path: reg_index_file_path(root, dep.name) }),
            ),
        ),
        (RegState::MarkOk, EventModel::Done) => (RegState::Halted, StepResultModel::Finished(Ok(()))),
        (RegState::MarkOk, EventModel::IoFailed) => (
            RegState::Halted,
            StepResultModel::Finished(
                Err(ErrorModel::IoFailure { path: reg_cargo_ok_path(root, dep.name, dep.version) }),
            ),
        ),
        _ => (RegState::Halted, StepResultModel::Finished(Ok(()))),
    }
}

/// Materializes one registry dependency, one action at a time.
pub struct CargoRegistryComponent {
    pub dep: RegistryDep,
    pub root: String,
    pub state: RegState,
}

impl CargoRegistryComponent {
    /// The machine can take a step: its record is usable and hash
    /// verification is only awaited when hashes were declared.
    pub open spec fn inv(self) -> bool {
        self.dep@.wf() && (self.state is Verify ==> self.dep@.hashes is Some)
    }

    /// Starts materializing a registry dependency and returns the first
    /// action; `do_init` asks for the one-time per-root initialization
    /// first.
    pub fn start(dep: RegistryDep, root: String, do_init: bool) -> (r: (Self, StepAction))
        requires
            dep@.wf(),
        ensures
            r.0.inv(),
            r.0.dep@ == dep@,
            r.0.root@ == root@,
            (r.0.state, r.1@) == reg_start_spec(root@, do_init),
    {
        if do_init {
            let path = build_reg_index_cache_dir(root.as_str());
            (
                CargoRegistryComponent { dep, root, state: RegState::InitCacheDir },
                StepAction::CreateDirAll { path },
            )
        } else {
            let path = build_reg_cache_dir(root.as_str());
            (
                CargoRegistryComponent { dep, root, state: RegState::CacheDir },
                StepAction::CreateDirAll { path },
            )
        }
    }

    /// Takes one step: consumes the event that answered the awaited action
    /// and returns the machine with the next action or the outcome, exactly
    /// as [`reg_step_spec`] prescribes.
    pub fn step(self, event: StepEvent) -> (r: (Self, StepResult))
        requires
            self.inv(),
            self.state != RegState::Halted,
            reg_event_ok(self.state, event@),
        ensures
            r.0.inv(),
            r.0.dep@ == self.dep@,
            r.0.root@ == self.root@,
            (r.0.state, r.1@) == reg_step_spec(self.state, self.dep@, self.root@, event@),
    {
        let CargoRegistryComponent { dep, root, state } = self;
        match (state, event) {
            (RegState::InitCacheDir, StepEvent::Done) => {
                let path = build_reg_config_path(root.as_str());
                let contents = build_default_index_config();
                (
                    CargoRegistryComponent { dep, root, state: RegState::InitConfig },
                    StepResult::Next(StepAction::WriteFile { path, contents }),
                )
            },
            (RegState::InitCacheDir, _) => {
                let path = build_reg_index_cache_dir(root.as_str());
                (
                    CargoRegistryComponent { dep, root, state: RegState::Halted },
                    StepResult::Finished(Err(Error::IoFailure { path })),
                )
            },
            (RegState::InitConfig, StepEvent::Done) => {
                let path = build_reg_cache_dir(root.as_str());
                (
                    CargoRegistryComponent { dep, root, state: RegState::CacheDir },
                    StepResult::Next(StepAction::CreateDirAll { path }),
                )
            },
            (RegState::InitConfig, _) => {
                let path = build_reg_config_path(root.as_str());
                (
                    CargoRegistryComponent { dep, root, state: RegState::Halted },
                    StepResult::Finished(Err(Error::IoFailure { path })),
                )
            },
            (RegState::CacheDir, StepEvent::Done) => {
                let path = build_reg_archive_path(
                    root.as_str(),
                    dep.name.as_str(),
                    dep.version.as_str(),
                );
                (
                    CargoRegistryComponent { dep, root, state: RegState::Probe },
                    StepResult::Next(StepAction::CheckExists { path }),
                )
            },
            (RegState::CacheDir, _) => {
                let path = build_reg_cache_dir(root.as_str());
                (
                    CargoRegistryComponent { dep, root, state: RegState::Halted },
                    StepResult::Finished(Err(Error::IoFailure { path })),
                )
            },
            (RegState::Probe, StepEvent::Exists(true)) => (
                CargoRegistryComponent { dep, root, state: RegState::Halted },
                StepResult::Finished(Ok(())),
            ),
            (RegState::Probe, _) => {
                let output = build_reg_archive_path(
                    root.as_str(),
                    dep.name.as_str(),
                    dep.version.as_str(),
                );
                let url = dep.download_url.clone();
                (
                    CargoRegistryComponent { dep, root, state: RegState::Fetch },
                    StepResult::Next(StepAction::CurlDownload { url, output }),
                )
            },
            (RegState::Fetch, StepEvent::Done) => {
                if dep.hashes.is_some() {
                    let path = build_reg_archive_path(
                        root.as_str(),
                        dep.name.as_str(),
                        dep.version.as_str(),
                    );
                    (
                        CargoRegistryComponent { dep, root, state: RegState::Verify },
                        StepResult::Next(StepAction::ReadFile { path }),
                    )
                } else {
                    let path = build_reg_src_dir(root.as_str());
                    (
                        CargoRegistryComponent { dep, root, state: RegState::SrcDir },
                        StepResult::Next(StepAction::CreateDirAll { path }),
                    )
                }
            },
            (RegState::Fetch, StepEvent::ToolFailed(st)) => (
                CargoRegistryComponent { dep, root, state: RegState::Halted },
                StepResult::Finished(
                    Err(Error::SubprocessFailure { tool: String::from_str("curl"), status: st }),
                ),
            ),
            (RegState::Fetch, _) => {
                // The step precondition admits no other event here.
                proof {
                    assert(false);
                }
                (
                    CargoRegistryComponent { dep, root, state: RegState::Halted },
                    StepResult::Finished(Ok(())),
                )
            },
            (RegState::Verify, StepEvent::Bytes(b)) => {
                let outcome = match &dep.hashes {
                    Some(hs) => check_hashes(hs, b.as_slice()),
                    None => Ok(()),
                };
                match outcome {
                    Ok(()) => {
                        let path = build_reg_src_dir(root.as_str());
                        (
                            CargoRegistryComponent { dep, root, state: RegState::SrcDir },
                            StepResult::Next(StepAction::CreateDirAll { path }),
                        )
                    },
                    Err(e) => (
                        CargoRegistryComponent { dep, root, state: RegState::Halted },
                        StepResult::Finished(Err(e)),
                    ),
                }
            },
            (RegState::Verify, _) => {
                let path = build_reg_archive_path(
                    root.as_str(),
                    dep.name.as_str(),
                    dep.version.as_str(),
                );
                (
                    CargoRegistryComponent { dep, root, state: RegState::Halted },
                    StepResult::Finished(Err(Error::IoFailure { path })),
                )
            },
            (RegState::SrcDir, StepEvent::Done) => {
                let archive = build_reg_archive_path(
                    root.as_str(),
                    dep.name.as_str(),
                    dep.version.as_str(),
                );
                let dest_dir = build_reg_src_dir(root.as_str());
                let mut name = String::from_str(dep.name.as_str());
                name.append("-");
                name.append(dep.version.as_str());
                proof {
                    assert(name@ =~= pkg_full_name(dep@.name, dep@.version));
                }
                (
                    CargoRegistryComponent { dep, root, state: RegState::Untar },
                    StepResult::Next(StepAction::TarExtract { archive, dest_dir, name }),
                )
            },
            (RegState::SrcDir, _) => {
                let path = build_reg_src_dir(root.as_str());
                (
                    CargoRegistryComponent { dep, root, state: RegState::Halted },
                    StepResult::Finished(Err(Error::IoFailure { path })),
                )
            },
            (RegState::Untar, StepEvent::Done) => {
                let path = build_reg_index_parent_dir(root.as_str(), dep.name.as_str());
                (
                    CargoRegistryComponent { dep, root, state: RegState::IndexDir },
                    StepResult::Next(StepAction::CreateDirAll { path }),
                )
            },
            (RegState::Untar, StepEvent::ToolFailed(st)) => (
                CargoRegistryComponent { dep, root, state: RegState::Halted },
                StepResult::Finished(
                    Err(Error::SubprocessFailure { tool: String::from_str("tar"), status: st }),
                ),
            ),
            (RegState::Untar, _) => {
                // The step precondition admits no other event here.
                proof {
                    assert(false);
                }
                (
                    CargoRegistryComponent { dep, root, state: RegState::Halted },
                    StepResult::Finished(Ok(())),
                )
            },
            (RegState::IndexDir, StepEvent::Done) => {
                let url = build_crate_index_url(dep.name.as_str());
                (
                    CargoRegistryComponent { dep, root, state: RegState::FetchIndex },
                    StepResult::Next(StepAction::CurlFetch { url }),
                )
            },
            (RegState::IndexDir, _) => {
                let path = build_reg_index_parent_dir(root.as_str(), dep.name.as_str());
                (
                    CargoRegistryComponent { dep, root, state: RegState::Halted },
                    StepResult::Finished(Err(Error::IoFailure { path })),
                )
            },
            (RegState::FetchIndex, StepEvent::Bytes(b)) => {
                match convert_index_to_cache(b.as_slice()) {
                    Ok(contents) => {
                        let path = build_reg_index_file_path(root.as_str(), dep.name.as_str());
                        (
                            CargoRegistryComponent { dep, root, state: RegState::WriteIndex },
                            StepResult::Next(StepAction::WriteFile { path, contents }),
                        )
                    },
                    Err(e) => (
                        CargoRegistryComponent { dep, root, state: RegState::Halted },
                        StepResult::Finished(Err(e)),
                    ),
                }
            },
            (RegState::FetchIndex, StepEvent::ToolFailed(st)) => (
                CargoRegistryComponent { dep, root, state: RegState::Halted },
                StepResult::Finished(
                    Err(Error::SubprocessFailure { tool: String::from_str("curl"), status: st }),
                ),
            ),
            (RegState::FetchIndex, _) => {
                // The step precondition admits no other event here.
                proof {
                    assert(false);
                }
                (
                    CargoRegistryComponent { dep, root, state: RegState::Halted },
                    StepResult::Finished(Ok(())),
                )
            },
            (RegState::WriteIndex, StepEvent::Done) => {
                let path = build_reg_cargo_ok_path(
                    root.as_str(),
                    dep.name.as_str(),
                    dep.version.as_str(),
                );
                let contents = build_cargo_ok_bytes();
                (
                    CargoRegistryComponent { dep, root, state: RegState::MarkOk },
                    StepResult::Next(StepAction::WriteFileIfAbsent { path, contents }),
                )
            },
            (RegState::WriteIndex, _) => {
                let path = build_reg_index_file_path(root.as_str(), dep.name.as_str());
                (
                    CargoRegistryComponent { dep, root, state: RegState::Halted },
                    StepResult::Finished(Err(Error::IoFailure { path })),
                )
            },
            (RegState::MarkOk, StepEvent::Done) => (
                CargoRegistryComponent { dep, root, state: RegState::Halted },
                StepResult::Finished(Ok(())),
            ),
            (RegState::MarkOk, _) => {
                let path = build_reg_cargo_ok_path(
                    root.as_str(),
                    dep.name.as_str(),
                    dep.version.as_str(),
                );
                (
                    CargoRegistryComponent { dep, root, state: RegState::Halted },
                    StepResult::Finished(Err(Error::IoFailure { path })),
                )
            },
            (RegState::Halted, _) => {
                // The step precondition admits no other event here.
                proof {
                    assert(false);
                }
                (
                    CargoRegistryComponent { dep, root, state: RegState::Halted },
                    StepResult::Finished(Ok(())),
                )
            },
        }
    }
}

/// When the archive is already cached, the probe answer alone finishes the
/// materialization successfully: no download, no extraction, no further
/// action at all.
pub proof fn lemma_registry_skips_when_cached(
    dep: RegistryDepModel,
    root: Seq<char>,
)
    ensures
        reg_step_spec(RegState::Probe, dep, root, EventModel::Exists(true)) == (
            RegState::Halted,
            StepResultModel::Finished(Ok::<(), ErrorModel>(())),
        ),
{
}

/// The states before the probe has answered.
pub open spec fn reg_pre_probe(s: RegState) -> bool {
    s == RegState::InitCacheDir || s == RegState::InitConfig || s == RegState::CacheDir || s
        == RegState::Probe
}

/// Until the probe reports the archive missing, the registry materializer
/// stays offline: starting the machine and every step taken from a
/// pre-probe state emit no subprocess action, and the only way out of the
/// pre-probe states — other than halting — is the probe answering that the
/// archive is not cached.
pub proof fn lemma_registry_offline_until_miss(
    s: RegState,
    dep: RegistryDepModel,
    root: Seq<char>,
    ev: EventModel,
    do_init: bool,
)
    requires
        reg_pre_probe(s),
        reg_event_ok(s, ev),
    ensures
        reg_pre_probe(reg_start_spec(root, do_init).0),
        !crate::actions::action_is_subprocess(reg_start_spec(root, do_init).1),
        ({
            let (s2, out) = reg_step_spec(s, dep, root, ev);
            &&& (out matches StepResultModel::Next(a)
                ==> (crate::actions::action_is_subprocess(a) ==> s == RegState::Probe && ev
                == EventModel::Exists(false)))
            &&& (reg_pre_probe(s2) || s2 == RegState::Halted || (s == RegState::Probe && ev
                == EventModel::Exists(false)))
        }),
{
}

/// A failing action halts the materialization with the matching error: a
/// subprocess failure carries the tool's name and status, a filesystem
/// failure carries the touched path, and no action follows.
pub proof fn lemma_registry_failure_halts(
    s: RegState,
    dep: RegistryDepModel,
    root: Seq<char>,
    ev: EventModel,
)
    requires
        s != RegState::Halted,
        reg_event_ok(s, ev),
        ev is ToolFailed || ev is IoFailed,
    ensures
        reg_step_spec(s, dep, root, ev).0 == RegState::Halted,
        reg_step_spec(s, dep, root, ev).1 matches StepResultModel::Finished(o) && o is Err,
{
}

} // verus!
