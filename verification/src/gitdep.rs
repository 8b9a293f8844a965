//! Materialization of one git-backed dependency.
//!
//! The materializer performs, one action at a time: a bare clone under
//! `git/db/`, hash verification of the pinned commit's archive, synthetic
//! refs that point the toolchain at the pinned commit, a working checkout
//! under `git/checkouts/`, and the `.cargo-ok` marker.  Every transition is
//! fixed by [`git_step_spec`]; when the bare clone already exists the
//! machine finishes at once and nothing is cloned again.

use vstd::prelude::*;
use vstd::string::*;
use vstd::utf8::*;

use crate::actions::{ActionModel, EventModel, StepAction, StepEvent, StepResult, StepResultModel};
use crate::crypto::{check_hashes, check_hashes_spec};
use crate::errors::{Error, ErrorModel};
use crate::layout::{
    build_cachedir_tag_bytes, build_cachedir_tag_path, build_git_checkout_dir,
    build_git_checkout_ok_path, build_git_db_dir, build_git_head_path, build_git_ref_dir,
    build_git_root_dir, build_git_tag_path, build_git_tags_dir, cachedir_tag_bytes,
    cachedir_tag_path, git_checkout_dir, git_checkout_ok_path, git_db_dir, git_head_path,
    git_ref_dir, git_root_dir, git_tag_path, git_tags_dir,
};
use crate::sbom::{component_props, prop_lookup, Component, ComponentModel, HashModel};

verus! {

/// One git dependency, derived from a library component.
pub struct GitDep {
    pub name: String,
    pub url: String,
    pub commit: String,
    pub tag: Option<String>,
    pub hashes: Option<Vec<crate::sbom::Hash>>,
}

/// Ghost model of [`GitDep`].
pub struct GitDepModel {
    pub name: Seq<char>,
    pub url: Seq<char>,
    pub commit: Seq<char>,
    pub tag: Option<Seq<char>>,
    pub hashes: Option<Seq<HashModel>>,
}

impl View for GitDep {
    type V = GitDepModel;

    open spec fn view(&self) -> GitDepModel {
        GitDepModel {
            name: self.name@,
            url: self.url@,
            commit: self.commit@,
            tag: self.tag.deep_view(),
            hashes: self.hashes.deep_view(),
        }
    }
}

/// A component yields a git dependency: it has exactly one external
/// reference and a `commit` property.
pub open spec fn git_dep_ok(c: ComponentModel) -> bool {
    &&& (c.external_references matches Some(rs) && rs.len() == 1)
    &&& prop_lookup(component_props(c), "commit"@) is Some
}

/// The git dependency a well-formed component yields.
pub open spec fn git_dep_of(c: ComponentModel) -> GitDepModel {
    GitDepModel {
        name: c.name,
        url: c.external_references->0[0].url,
        commit: prop_lookup(component_props(c), "commit"@)->0,
        tag: prop_lookup(component_props(c), "tag"@),
        hashes: c.hashes,
    }
}

/// Derives the git dependency record of a component: its name, the URL of
/// its single external reference, the pinned commit and optional tag from
/// its properties, and its declared hashes.  Fails when the reference or
/// the commit is missing, or when more than one reference is declared.
pub fn derive_git_dep(component: &Component) -> (r: Result<GitDep, Error>)
    ensures
        match r {
            Ok(dep) => git_dep_ok(component@) && dep@ == git_dep_of(component@),
            Err(e) => !git_dep_ok(component@) && e@ is InputMalformed,
        },
{
    let url = match &component.external_references {
        Some(refs) => {
            if refs.len() != 1 {
                return Err(
                    Error::InputMalformed {
                        detail: String::from_str(
                            "git component without exactly one external reference",
                        ),
                    },
                );
            }
            refs[0].url.clone()
        },
        None => {
            return Err(
                Error::InputMalformed {
                    detail: String::from_str("git component without an external reference"),
                },
            );
        },
    };
    let props = crate::sbom::get_component_properties(component);
    let commit = match crate::sbom::property_value(&props, "commit") {
        Some(c) => c,
        None => {
            return Err(
                Error::InputMalformed {
                    detail: String::from_str("git component without a commit property"),
                },
            );
        },
    };
    let tag = crate::sbom::property_value(&props, "tag");
    let hashes = match &component.hashes {
        Some(hs) => {
            let out = hs.clone();
            proof {
                assert forall|i: int| 0 <= i < out@.len() implies out@[i] == hs@[i] by {
                    assert(cloned::<crate::sbom::Hash>(hs[i], out[i]));
                }
                assert(out.deep_view() =~= hs.deep_view());
            }
            Some(out)
        },
        None => None,
    };
    Ok(GitDep { name: component.name.clone(), url, commit, tag, hashes })
}

/// Where the git materializer stands: each state names the action it
/// awaits an answer for.
#[derive(Clone, Copy, PartialEq, Eq, Structural, Debug)]
pub enum GitState {
    /// Creating the `git/` directory (one-time initialization).
    InitGitDir,
    /// Writing `CACHEDIR.TAG` (one-time initialization).
    InitTag,
    /// Probing whether the bare clone already exists.
    ProbeBare,
    /// Cloning the bare repository.
    Clone,
    /// Capturing the pinned commit's archive for hash verification.
    Archive,
    /// Creating `refs/remotes/origin/` in the bare clone.
    RefDir,
    /// Writing the synthetic `HEAD` ref.
    WriteHead,
    /// Creating the `tags` directory.
    TagDir,
    /// Writing the synthetic tag ref.
    WriteTag,
    /// Creating the working checkout directory.
    CheckoutDir,
    /// Cloning from the bare repository into the checkout.
    CloneCheckout,
    /// Checking out the pinned commit.
    Checkout,
    /// Writing the empty `.cargo-ok` marker.
    MarkOk,
    /// Finished; no further step is taken.
    Halted,
}

/// Which events may answer the action a state awaits.
pub open spec fn git_event_ok(s: GitState, ev: EventModel) -> bool {
    match s {
        GitState::InitGitDir => ev is Done || ev is IoFailed,
        GitState::InitTag => ev is Done || ev is IoFailed,
        GitState::ProbeBare => ev is Exists,
        GitState::Clone => ev is Done || (ev matches EventModel::ToolFailed(st) && st != 0),
        GitState::Archive => ev is Bytes || (ev matches EventModel::ToolFailed(st) && st != 0),
        GitState::RefDir => ev is Done || ev is IoFailed,
        GitState::WriteHead => ev is Done || ev is IoFailed,
        GitState::TagDir => ev is Done || ev is IoFailed,
        GitState::WriteTag => ev is Done || ev is IoFailed,
        GitState::CheckoutDir => ev is Done || ev is IoFailed,
        GitState::CloneCheckout => ev is Done || (ev matches EventModel::ToolFailed(st) && st
            != 0),
        GitState::Checkout => ev is Done || (ev matches EventModel::ToolFailed(st) && st != 0),
        GitState::MarkOk => ev is Done || ev is IoFailed,
        GitState::Halted => false,
    }
}

/// The state and first action of a fresh git materializer: the one-time
/// initialization when asked for it, else straight to the probe.
pub open spec fn git_start_spec(dep: GitDepModel, root: Seq<char>, do_init: bool) -> (
    GitState,
    ActionModel,
) {
    if do_init {
        (GitState::InitGitDir, ActionModel::CreateDirAll { path: git_root_dir(root) })
    } else {
        (
            GitState::ProbeBare,
            ActionModel::CheckExists { path: git_db_dir(root, dep.name, dep.url) },
        )
    }
}

/// The transition table of the git materializer.
pub open spec fn git_step_spec(
    s: GitState,
    dep: GitDepModel,
    root: Seq<char>,
    ev: EventModel,
) -> (GitState, StepResultModel) {
    match (s, ev) {
        (GitState::InitGitDir, EventModel::Done) => (
            GitState::InitTag,
            StepResultModel::Next(
                ActionModel::WriteFile {
                    path: cachedir_tag_path(root),
                    contents: cachedir_tag_bytes(),
                },
            ),
        ),
        (GitState::InitGitDir, EventModel::IoFailed) => (
            GitState::Halted,
            StepResultModel::Finished(Err(ErrorModel::IoFailure { path: git_root_dir(root) })),
        ),
        (GitState::InitTag, EventModel::Done) => (
            GitState::ProbeBare,
            StepResultModel::Next(
                ActionModel::CheckExists { path: git_db_dir(root, dep.name, dep.url) },
            ),
        ),
        (GitState::InitTag, EventModel::IoFailed) => (
            GitState::Halted,
            StepResultModel::Finished(Err(ErrorModel::IoFailure { path: cachedir_tag_path(root) })),
        ),
        (GitState::ProbeBare, EventModel::Exists(true)) => (
            GitState::Halted,
            StepResultModel::Finished(Ok(())),
        ),
        (GitState::ProbeBare, EventModel::Exists(false)) => (
            GitState::Clone,
            StepResultModel::Next(
                ActionModel::GitBareClone {
                    url: dep.url,
                    dest: git_db_dir(root, dep.name, dep.url),
                },
            ),
        ),
        (GitState::Clone, EventModel::Done) => if dep.hashes is Some {
            (
                GitState::Archive,
                StepResultModel::Next(
                    ActionModel::GitArchive {
                        repo: git_db_dir(root, dep.name, dep.url),
                        commit: dep.commit,
                    },
                ),
            )
        } else {
            (
                GitState::RefDir,
                StepResultModel::Next(
                    ActionModel::CreateDirAll { path: git_ref_dir(root, dep.name, dep.url) },
                ),
            )
        },
        (GitState::Clone, EventModel::ToolFailed(st)) => (
            GitState::Halted,
            StepResultModel::Finished(
                Err(ErrorModel::SubprocessFailure { tool: "git"@, status: st }),
            ),
        ),
        (GitState::Archive, EventModel::Bytes(b)) => match check_hashes_spec(dep.hashes->0, b) {
            Ok(()) => (
                GitState::RefDir,
                StepResultModel::Next(
                    ActionModel::CreateDirAll { path: git_ref_dir(root, dep.name, dep.url) },
                ),
            ),
            Err(e) => (GitState::Halted, StepResultModel::Finished(Err(e))),
        },
        (GitState::Archive, EventModel::ToolFailed(st)) => (
            GitState::Halted,
            StepResultModel::Finished(
                Err(ErrorModel::SubprocessFailure { tool: "git"@, status: st }),
            ),
        ),
        (GitState::RefDir, EventModel::Done) => (
            GitState::WriteHead,
            StepResultModel::Next(
                ActionModel::WriteFileIfAbsent {
                    path: git_head_path(root, dep.name, dep.url),
                    contents: encode_utf8(dep.commit),
                },
            ),
        ),
        (GitState::RefDir, EventModel::IoFailed) => (
            GitState::Halted,
            StepResultModel::Finished(
                Err(ErrorModel::IoFailure { path: git_ref_dir(root, dep.name, dep.url) }),
            ),
        ),
        (GitState::WriteHead, EventModel::Done) => if dep.tag is Some {
            (
                GitState::TagDir,
                StepResultModel::Next(
                    ActionModel::CreateDirAll { path: git_tags_dir(root, dep.name, dep.url) },
                ),
            )
        } else {
            (
                GitState::CheckoutDir,
                StepResultModel::Next(
                    ActionModel::CreateDirAll {
                        path: git_checkout_dir(root, dep.name, dep.url, dep.commit),
                    },
                ),
            )
        },
        (GitState::WriteHead, EventModel::IoFailed) => (
            GitState::Halted,
            StepResultModel::Finished(
                Err(ErrorModel::IoFailure { path: git_head_path(root, dep.name, dep.url) }),
            ),
        ),
        (GitState::TagDir, EventModel::Done) => (
            GitState::WriteTag,
            StepResultModel::Next(
                ActionModel::WriteFile {
                    path: git_tag_path(root, dep.name, dep.url, dep.tag->0),
                    contents: encode_utf8(dep.commit),
                },
            ),
        ),
        (GitState::TagDir, EventModel::IoFailed) => (
            GitState::Halted,
            StepResultModel::Finished(
                Err(ErrorModel::IoFailure { path: git_tags_dir(root, dep.name, dep.url) }),
            ),
        ),
        (GitState::WriteTag, EventModel::Done) => (
            GitState::CheckoutDir,
            StepResultModel::Next(
                ActionModel::CreateDirAll {
                    path: git_checkout_dir(root, dep.name, dep.url, dep.commit),
                },
            ),
        ),
        (GitState::WriteTag, EventModel::IoFailed) => (
            GitState::Halted,
            StepResultModel::Finished(
                Err(
                    ErrorModel::IoFailure {
                        path: git_tag_path(root, dep.name, dep.url, dep.tag->0),
                    },
                ),
            ),
        ),
        (GitState::CheckoutDir, EventModel::Done) => (
            GitState::CloneCheckout,
            StepResultModel::Next(
                ActionModel::GitCloneRecurse {
                    src: git_db_dir(root, dep.name, dep.url),
                    dest: git_checkout_dir(root, dep.name, dep.url, dep.commit),
                },
            ),
        ),
        (GitState::CheckoutDir, EventModel::IoFailed) => (
            GitState::Halted,
            StepResultModel::Finished(
                Err(
                    ErrorModel::IoFailure {
                        path: git_checkout_dir(root, dep.name, dep.url, dep.commit),
                    },
                ),
            ),
        ),
        (GitState::CloneCheckout, EventModel::Done) => (
            GitState::Checkout,
            StepResultModel::Next(
                ActionModel::GitCheckout {
                    dir: git_checkout_dir(root, dep.name, dep.url, dep.commit),
                    commit: dep.commit,
                },
            ),
        ),
        (GitState::CloneCheckout, EventModel::ToolFailed(st)) => (
            GitState::Halted,
            StepResultModel::Finished(
                Err(ErrorModel::SubprocessFailure { tool: "git"@, status: st }),
            ),
        ),
        (GitState::Checkout, EventModel::Done) => (
            GitState::MarkOk,
            StepResultModel::Next(
                ActionModel::WriteFileIfAbsent {
                    path: git_checkout_ok_path(root, dep.name, dep.url, dep.commit),
                    contents: Seq::empty(),
                },
            ),
        ),
        (GitState::Checkout, EventModel::ToolFailed(st)) => (
            GitState::Halted,
            StepResultModel::Finished(
                Err(ErrorModel::SubprocessFailure { tool: "git"@, status: st }),
            ),
        ),
        (GitState::MarkOk, EventModel::Done) => (GitState::Halted, StepResultModel::Finished(Ok(()))),
        (GitState::MarkOk, EventModel::IoFailed) => (
            GitState::Halted,
            StepResultModel::Finished(
                Err(
                    ErrorModel::IoFailure {
                        path: git_checkout_ok_path(root, dep.name, dep.url, dep.commit),
                    },
                ),
            ),
        ),
        _ => (GitState::Halted, StepResultModel::Finished(Ok(()))),
    }
}

/// Materializes one git dependency, one action at a time.
pub struct CargoGitComponent {
    pub dep: GitDep,
    pub root: String,
    pub state: GitState,
}

impl CargoGitComponent {
    /// The machine can take a step: archive verification is only awaited
    /// when hashes were declared, and the tag states only when a tag was.
    pub open spec fn inv(self) -> bool {
        &&& (self.state is Archive ==> self.dep@.hashes is Some)
        &&& (self.state is TagDir ==> self.dep@.tag is Some)
        &&& (self.state is WriteTag ==> self.dep@.tag is Some)
    }

    /// Starts materializing a git dependency and returns the first action;
    /// `do_init` asks for the one-time per-root initialization first.
    pub fn start(dep: GitDep, root: String, do_init: bool) -> (r: (Self, StepAction))
        ensures
            r.0.inv(),
            r.0.dep@ == dep@,
            r.0.root@ == root@,
            (r.0.state, r.1@) == git_start_spec(dep@, root@, do_init),
    {
        if do_init {
            let path = build_git_root_dir(root.as_str());
            (
                CargoGitComponent { dep, root, state: GitState::InitGitDir },
                StepAction::CreateDirAll { path },
            )
        } else {
            let path = build_git_db_dir(root.as_str(), dep.name.as_str(), dep.url.as_str());
            (
                CargoGitComponent { dep, root, state: GitState::ProbeBare },
                StepAction::CheckExists { path },
            )
        }
    }

    /// Takes one step: consumes the event that answered the awaited action
    /// and returns the machine with the next action or the outcome, exactly
    /// as [`git_step_spec`] prescribes.
    pub fn step(self, event: StepEvent) -> (r: (Self, StepResult))
        requires
            self.inv(),
            self.state != GitState::Halted,
            git_event_ok(self.state, event@),
        ensures
            r.0.inv(),
            r.0.dep@ == self.dep@,
            r.0.root@ == self.root@,
            (r.0.state, r.1@) == git_step_spec(self.state, self.dep@, self.root@, event@),
    {
        let CargoGitComponent { dep, root, state } = self;
        match (state, event) {
            (GitState::InitGitDir, StepEvent::Done) => {
                let path = build_cachedir_tag_path(root.as_str());
                let contents = build_cachedir_tag_bytes();
                (
                    CargoGitComponent { dep, root, state: GitState::InitTag },
                    StepResult::Next(StepAction::WriteFile { path, contents }),
                )
            },
            (GitState::InitGitDir, _) => {
                let path = build_git_root_dir(root.as_str());
                (
                    CargoGitComponent { dep, root, state: GitState::Halted },
                    StepResult::Finished(Err(Error::IoFailure { path })),
                )
            },
            (GitState::InitTag, StepEvent::Done) => {
                let path = build_git_db_dir(root.as_str(), dep.name.as_str(), dep.url.as_str());
                (
                    CargoGitComponent { dep, root, state: GitState::ProbeBare },
                    StepResult::Next(StepAction::CheckExists { path }),
                )
            },
            (GitState::InitTag, _) => {
                let path = build_cachedir_tag_path(root.as_str());
                (
                    CargoGitComponent { dep, root, state: GitState::Halted },
                    StepResult::Finished(Err(Error::IoFailure { path })),
                )
            },
            (GitState::ProbeBare, StepEvent::Exists(true)) => (
                CargoGitComponent { dep, root, state: GitState::Halted },
                StepResult::Finished(Ok(())),
            ),
            (GitState::ProbeBare, _) => {
                let dest = build_git_db_dir(root.as_str(), dep.name.as_str(), dep.url.as_str());
                let url = dep.url.clone();
                (
                    CargoGitComponent { dep, root, state: GitState::Clone },
                    StepResult::Next(StepAction::GitBareClone { url, dest }),
                )
            },
            (GitState::Clone, StepEvent::Done) => {
                if dep.hashes.is_some() {
                    let repo = build_git_db_dir(
                        root.as_str(),
                        dep.name.as_str(),
                        dep.url.as_str(),
                    );
                    let commit = dep.commit.clone();
                    (
                        CargoGitComponent { dep, root, state: GitState::Archive },
                        StepResult::Next(StepAction::GitArchive { repo, commit }),
                    )
                } else {
                    let path = build_git_ref_dir(
                        root.as_str(),
                        dep.name.as_str(),
                        dep.url.as_str(),
                    );
                    (
                        CargoGitComponent { dep, root, state: GitState::RefDir },
                        StepResult::Next(StepAction::CreateDirAll { path }),
                    )
                }
            },
            (GitState::Clone, StepEvent::ToolFailed(st)) => (
                CargoGitComponent { dep, root, state: GitState::Halted },
                StepResult::Finished(
                    Err(Error::SubprocessFailure { tool: String::from_str("git"), status: st }),
                ),
            ),
            (GitState::Clone, _) => {
                // The step precondition admits no other event here.
                proof {
                    assert(false);
                }
                (
                    CargoGitComponent { dep, root, state: GitState::Halted },
                    StepResult::Finished(Ok(())),
                )
            },
            (GitState::Archive, StepEvent::Bytes(b)) => {
                let outcome = match &dep.hashes {
                    Some(hs) => check_hashes(hs, b.as_slice()),
                    None => Ok(()),
                };
                match outcome {
                    Ok(()) => {
                        let path = build_git_ref_dir(
                            root.as_str(),
                            dep.name.as_str(),
                            dep.url.as_str(),
                        );
                        (
                            CargoGitComponent { dep, root, state: GitState::RefDir },
                            StepResult::Next(StepAction::CreateDirAll { path }),
                        )
                    },
                    Err(e) => (
                        CargoGitComponent { dep, root, state: GitState::Halted },
                        StepResult::Finished(Err(e)),
                    ),
                }
            },
            (GitState::Archive, StepEvent::ToolFailed(st)) => (
                CargoGitComponent { dep, root, state: GitState::Halted },
                StepResult::Finished(
                    Err(Error::SubprocessFailure { tool: String::from_str("git"), status: st }),
                ),
            ),
            (GitState::Archive, _) => {
                // The step precondition admits no other event here.
                proof {
                    assert(false);
                }
                (
                    CargoGitComponent { dep, root, state: GitState::Halted },
                    StepResult::Finished(Ok(())),
                )
            },
            (GitState::RefDir, StepEvent::Done) => {
                let path = build_git_head_path(root.as_str(), dep.name.as_str(), dep.url.as_str());
                let contents = dep.commit.as_str().as_bytes_vec();
                (
                    CargoGitComponent { dep, root, state: GitState::WriteHead },
                    StepResult::Next(StepAction::WriteFileIfAbsent { path, contents }),
                )
            },
            (GitState::RefDir, _) => {
                let path = build_git_ref_dir(root.as_str(), dep.name.as_str(), dep.url.as_str());
                (
                    CargoGitComponent { dep, root, state: GitState::Halted },
                    StepResult::Finished(Err(Error::IoFailure { path })),
                )
            },
            (GitState::WriteHead, StepEvent::Done) => {
                if dep.tag.is_some() {
                    let path = build_git_tags_dir(
                        root.as_str(),
                        dep.name.as_str(),
                        dep.url.as_str(),
                    );
                    (
                        CargoGitComponent { dep, root, state: GitState::TagDir },
                        StepResult::Next(StepAction::CreateDirAll { path }),
                    )
                } else {
                    let path = build_git_checkout_dir(
                        root.as_str(),
                        dep.name.as_str(),
                        dep.url.as_str(),
                        dep.commit.as_str(),
                    );
                    (
                        CargoGitComponent { dep, root, state: GitState::CheckoutDir },
                        StepResult::Next(StepAction::CreateDirAll { path }),
                    )
                }
            },
            (GitState::WriteHead, _) => {
                let path = build_git_head_path(root.as_str(), dep.name.as_str(), dep.url.as_str());
                (
                    CargoGitComponent { dep, root, state: GitState::Halted },
                    StepResult::Finished(Err(Error::IoFailure { path })),
                )
            },
            (GitState::TagDir, StepEvent::Done) => {
                let tag = match &dep.tag {
                    Some(t) => t.clone(),
                    None => String::new(),
                };
                let path = build_git_tag_path(
                    root.as_str(),
                    dep.name.as_str(),
                    dep.url.as_str(),
                    tag.as_str(),
                );
                let contents = dep.commit.as_str().as_bytes_vec();
                (
                    CargoGitComponent { dep, root, state: GitState::WriteTag },
                    StepResult::Next(StepAction::WriteFile { path, contents }),
                )
            },
            (GitState::TagDir, _) => {
                let path = build_git_tags_dir(root.as_str(), dep.name.as_str(), dep.url.as_str());
                (
                    CargoGitComponent { dep, root, state: GitState::Halted },
                    StepResult::Finished(Err(Error::IoFailure { path })),
                )
            },
            (GitState::WriteTag, StepEvent::Done) => {
                let path = build_git_checkout_dir(
                    root.as_str(),
                    dep.name.as_str(),
                    dep.url.as_str(),
                    dep.commit.as_str(),
                );
                (
                    CargoGitComponent { dep, root, state: GitState::CheckoutDir },
                    StepResult::Next(StepAction::CreateDirAll { path }),
                )
            },
            (GitState::WriteTag, _) => {
                let tag = match &dep.tag {
                    Some(t) => t.clone(),
                    None => String::new(),
                };
                let path = build_git_tag_path(
                    root.as_str(),
                    dep.name.as_str(),
                    dep.url.as_str(),
                    tag.as_str(),
                );
                (
                    CargoGitComponent { dep, root, state: GitState::Halted },
                    StepResult::Finished(Err(Error::IoFailure { path })),
                )
            },
            (GitState::CheckoutDir, StepEvent::Done) => {
                let src = build_git_db_dir(root.as_str(), dep.name.as_str(), dep.url.as_str());
                let dest = build_git_checkout_dir(
                    root.as_str(),
                    dep.name.as_str(),
                    dep.url.as_str(),
                    dep.commit.as_str(),
                );
                (
                    CargoGitComponent { dep, root, state: GitState::CloneCheckout },
                    StepResult::Next(StepAction::GitCloneRecurse { src, dest }),
                )
            },
            (GitState::CheckoutDir, _) => {
                let path = build_git_checkout_dir(
                    root.as_str(),
                    dep.name.as_str(),
                    dep.url.as_str(),
                    dep.commit.as_str(),
                );
                (
                    CargoGitComponent { dep, root, state: GitState::Halted },
                    StepResult::Finished(Err(Error::IoFailure { path })),
                )
            },
            (GitState::CloneCheckout, StepEvent::Done) => {
                let dir = build_git_checkout_dir(
                    root.as_str(),
                    dep.name.as_str(),
                    dep.url.as_str(),
                    dep.commit.as_str(),
                );
                let commit = dep.commit.clone();
                (
                    CargoGitComponent { dep, root, state: GitState::Checkout },
                    StepResult::Next(StepAction::GitCheckout { dir, commit }),
                )
            },
            (GitState::CloneCheckout, StepEvent::ToolFailed(st)) => (
                CargoGitComponent { dep, root, state: GitState::Halted },
                StepResult::Finished(
                    Err(Error::SubprocessFailure { tool: String::from_str("git"), status: st }),
                ),
            ),
            (GitState::CloneCheckout, _) => {
                // The step precondition admits no other event here.
                proof {
                    assert(false);
                }
                (
                    CargoGitComponent { dep, root, state: GitState::Halted },
                    StepResult::Finished(Ok(())),
                )
            },
            (GitState::Checkout, StepEvent::Done) => {
                let path = build_git_checkout_ok_path(
                    root.as_str(),
                    dep.name.as_str(),
                    dep.url.as_str(),
                    dep.commit.as_str(),
                );
                let contents: Vec<u8> = Vec::new();
                (
                    CargoGitComponent { dep, root, state: GitState::MarkOk },
                    StepResult::Next(StepAction::WriteFileIfAbsent { path, contents }),
                )
            },
            (GitState::Checkout, StepEvent::ToolFailed(st)) => (
                CargoGitComponent { dep, root, state: GitState::Halted },
                StepResult::Finished(
                    Err(Error::SubprocessFailure { tool: String::from_str("git"), status: st }),
                ),
            ),
            (GitState::Checkout, _) => {
                // The step precondition admits no other event here.
                proof {
                    assert(false);
                }
                (
                    CargoGitComponent { dep, root, state: GitState::Halted },
                    StepResult::Finished(Ok(())),
                )
            },
            (GitState::MarkOk, StepEvent::Done) => (
                CargoGitComponent { dep, root, state: GitState::Halted },
                StepResult::Finished(Ok(())),
            ),
            (GitState::MarkOk, _) => {
                let path = build_git_checkout_ok_path(
                    root.as_str(),
                    dep.name.as_str(),
                    dep.url.as_str(),
                    dep.commit.as_str(),
                );
                (
                    CargoGitComponent { dep, root, state: GitState::Halted },
                    StepResult::Finished(Err(Error::IoFailure { path })),
                )
            },
            (GitState::Halted, _) => {
                // The step precondition admits no other event here.
                proof {
                    assert(false);
                }
                (
                    CargoGitComponent { dep, root, state: GitState::Halted },
                    StepResult::Finished(Ok(())),
                )
            },
        }
    }
}

/// When the bare clone already exists, the probe answer alone finishes the
/// materialization successfully: nothing is cloned, verified or checked out
/// again.
pub proof fn lemma_git_skips_when_cached(dep: GitDepModel, root: Seq<char>)
    ensures
        git_step_spec(GitState::ProbeBare, dep, root, EventModel::Exists(true)) == (
            GitState::Halted,
            StepResultModel::Finished(Ok::<(), ErrorModel>(())),
        ),
{
}

/// The states before the probe has answered.
pub open spec fn git_pre_probe(s: GitState) -> bool {
    s == GitState::InitGitDir || s == GitState::InitTag || s == GitState::ProbeBare
}

/// Until the probe reports the bare clone missing, the git materializer
/// stays offline: starting the machine and every step taken from a
/// pre-probe state emit no subprocess action, and the only way out of the
/// pre-probe states — other than halting — is the probe answering that the
/// clone is not there.
pub proof fn lemma_git_offline_until_miss(
    s: GitState,
    dep: GitDepModel,
    root: Seq<char>,
    ev: EventModel,
    do_init: bool,
)
    requires
        git_pre_probe(s),
        git_event_ok(s, ev),
    ensures
        git_pre_probe(git_start_spec(dep, root, do_init).0),
        !crate::actions::action_is_subprocess(git_start_spec(dep, root, do_init).1),
        ({
            let (s2, out) = git_step_spec(s, dep, root, ev);
            &&& (out matches StepResultModel::Next(a)
                ==> (crate::actions::action_is_subprocess(a) ==> s == GitState::ProbeBare && ev
                == EventModel::Exists(false)))
            &&& (git_pre_probe(s2) || s2 == GitState::Halted || (s == GitState::ProbeBare && ev
                == EventModel::Exists(false)))
        }),
{
}

/// A failing action halts the materialization with the matching error.
pub proof fn lemma_git_failure_halts(
    s: GitState,
    dep: GitDepModel,
    root: Seq<char>,
    ev: EventModel,
)
    requires
        s != GitState::Halted,
        git_event_ok(s, ev),
        ev is ToolFailed || ev is IoFailed,
    ensures
        git_step_spec(s, dep, root, ev).0 == GitState::Halted,
        git_step_spec(s, dep, root, ev).1 matches StepResultModel::Finished(o) && o is Err,
{
}

} // verus!
