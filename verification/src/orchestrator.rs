//! The dependency orchestrator.
//!
//! Iterates the document's components in order, dispatches each library
//! component to exactly one materializer by its kind tag, threads the
//! one-time per-root initialization through the first materializer of each
//! family, counts completed dependencies, and stops at the first failure.

use vstd::prelude::*;
use vstd::string::*;

use crate::actions::{StepAction, StepEvent, StepResult};
use crate::errors::{Error, ErrorModel};
use crate::gitdep::{
    derive_git_dep, git_dep_of, git_dep_ok, git_event_ok, git_start_spec, git_step_spec,
    CargoGitComponent, GitState,
};
use crate::registry::{
    derive_registry_dep, reg_event_ok, reg_start_spec, reg_step_spec, registry_dep_of,
    registry_dep_ok, CargoRegistryComponent, RegState,
};
use crate::sbom::{Component, ComponentModel, ComponentType};

verus! {

/// Which materializer a library component belongs to.
#[derive(Clone, Copy, PartialEq, Eq, Structural, Debug)]
pub enum LibraryKind {
    Registry,
    Git,
}

/// How a library component is classified: by its kind tag, `cargo/registry`
/// or `cargo/git`; a missing tag is malformed input, any other tag is an
/// unsupported library kind.
pub open spec fn classify_spec(c: ComponentModel) -> Result<LibraryKind, ErrorModel> {
    match c.mime_type {
        None => Err(
            ErrorModel::InputMalformed { detail: "library component without a kind tag"@ },
        ),
        Some(tag) => if tag == "cargo/registry"@ {
            Ok(LibraryKind::Registry)
        } else if tag == "cargo/git"@ {
            Ok(LibraryKind::Git)
        } else {
            Err(ErrorModel::UnsupportedLibraryKind { tag })
        },
    }
}

/// Classifies a library component by its kind tag.
pub fn parse_component(component: &Component) -> (r: Result<LibraryKind, Error>)
    ensures
        match r {
            Ok(k) => classify_spec(component@) == Ok::<LibraryKind, ErrorModel>(k),
            Err(e) => classify_spec(component@) == Err::<LibraryKind, ErrorModel>(e@),
        },
{
    match &component.mime_type {
        None => Err(
            Error::InputMalformed {
                detail: String::from_str("library component without a kind tag"),
            },
        ),
        Some(tag) => {
            if *tag == String::from_str("cargo/registry") {
                Ok(LibraryKind::Registry)
            } else if *tag == String::from_str("cargo/git") {
                Ok(LibraryKind::Git)
            } else {
                Err(Error::UnsupportedLibraryKind { tag: tag.clone() })
            }
        },
    }
}

/// A classified library component goes to exactly one materializer: it is
/// registry-backed exactly when its tag is `cargo/registry`, git-backed
/// exactly when its tag is `cargo/git`, and never both.
pub proof fn lemma_dispatch_unique(c: ComponentModel)
    ensures
        classify_spec(c) matches Ok(k) ==> {
            &&& (k is Registry <==> c.mime_type == Some("cargo/registry"@))
            &&& (k is Git <==> c.mime_type == Some("cargo/git"@))
            &&& !(k is Registry && k is Git)
        },
{
    reveal_strlit("cargo/registry");
    reveal_strlit("cargo/git");
    assert("cargo/registry"@.len() == 14);
    assert("cargo/git"@.len() == 9);
}

/// The first component at or after `i` that is a library, or the length
/// when none remains.
pub open spec fn next_library_index(comps: Seq<ComponentModel>, i: int) -> int
    decreases comps.len() - i,
{
    if i >= comps.len() {
        comps.len() as int
    } else if comps[i].component_type is Library {
        i
    } else {
        next_library_index(comps, i + 1)
    }
}

/// A position with no library component between `i` and it, holding a
/// library component (or the end), is the next library index.
pub proof fn lemma_next_library_at(comps: Seq<ComponentModel>, i: int, j: int)
    requires
        0 <= i <= j <= comps.len(),
        forall|k: int| i <= k < j ==> !(#[trigger] comps[k].component_type is Library),
        j == comps.len() || comps[j].component_type is Library,
    ensures
        next_library_index(comps, i) == j,
    decreases j - i,
{
    if i < j {
        lemma_next_library_at(comps, i + 1, j);
    }
}

/// What the loader is doing between steps.
pub enum LoaderInner {
    /// Scanning for the next library component.
    Idle,
    /// Driving a registry materializer.
    Registry(CargoRegistryComponent),
    /// Driving a git materializer.
    Git(CargoGitComponent),
    /// The run is over.
    Finished,
}

/// What the loader hands back: the next action to perform, a request to be
/// polled again, or the outcome of the whole run.
#[derive(Debug)]
pub enum LoaderStep {
    Action(StepAction),
    Continue,
    Finished(Result<(), Error>),
}

/// Materializes every library component of a document under one cache
/// root, in document order, stopping at the first failure.
pub struct DependencyLoader {
    pub components: Vec<Component>,
    pub root: String,
    pub idx: usize,
    pub progress: u64,
    pub registry_init_done: bool,
    pub git_init_done: bool,
    pub inner: LoaderInner,
}

impl DependencyLoader {
    /// The loader is consistent: the scan position is in range, a running
    /// materializer works under this root, and the progress counter never
    /// exceeds the scan position.
    pub open spec fn wf(self) -> bool {
        &&& self.idx <= self.components@.len()
        &&& self.progress <= self.idx
        &&& match self.inner {
            LoaderInner::Registry(m) => m.inv() && m.root@ == self.root@ && m.state
                != RegState::Halted && self.idx < self.components@.len(),
            LoaderInner::Git(m) => m.inv() && m.root@ == self.root@ && m.state != GitState::Halted
                && self.idx < self.components@.len(),
            _ => true,
        }
    }

    /// A fresh loader over a document's components and a cache root.
    pub fn new(components: Vec<Component>, root: String) -> (r: Self)
        ensures
            r.wf(),
            r.inner is Idle,
            r.components@ == components@,
            r.root@ == root@,
            r.idx == 0,
            r.progress == 0,
            !r.registry_init_done,
            !r.git_init_done,
    {
        DependencyLoader {
            components,
            root,
            idx: 0,
            progress: 0,
            registry_init_done: false,
            git_init_done: false,
            inner: LoaderInner::Idle,
        }
    }

    /// Scans forward to the next library component and starts its
    /// materializer, or finishes the run when none remains.  Exactly the
    /// first registry and the first git materializer of a run are asked to
    /// perform the one-time initialization.
    pub fn poll(self) -> (r: (Self, LoaderStep))
        requires
            self.wf(),
            self.inner is Idle,
        ensures
            r.0.wf(),
            r.0.components@ == self.components@,
            r.0.root@ == self.root@,
            r.0.progress == self.progress,
            ({
                let comps = self.components.deep_view();
                let j = next_library_index(comps, self.idx as int);
                if j == comps.len() {
                    &&& r.1 matches LoaderStep::Finished(Ok(()))
                    &&& r.0.inner is Finished
                } else {
                    let c = comps[j];
                    &&& r.0.idx == j
                    &&& match classify_spec(c) {
                        Ok(LibraryKind::Registry) => if registry_dep_ok(c) {
                            let start = reg_start_spec(self.root@, !self.registry_init_done);
                            &&& r.1 matches LoaderStep::Action(a) && a@ == start.1
                            &&& r.0.inner matches LoaderInner::Registry(m) && m.dep@
                                == registry_dep_of(c) && m.state == start.0
                            &&& r.0.registry_init_done
                            &&& r.0.git_init_done == self.git_init_done
                        } else {
                            &&& r.1 matches LoaderStep::Finished(Err(e)) && e@ is InputMalformed
                            &&& r.0.inner is Finished
                        },
                        Ok(LibraryKind::Git) => if git_dep_ok(c) {
                            let start = git_start_spec(
                                git_dep_of(c),
                                self.root@,
                                !self.git_init_done,
                            );
                            &&& r.1 matches LoaderStep::Action(a) && a@ == start.1
                            &&& r.0.inner matches LoaderInner::Git(m) && m.dep@ == git_dep_of(c)
                                && m.state == start.0
                            &&& r.0.git_init_done
                            &&& r.0.registry_init_done == self.registry_init_done
                        } else {
                            &&& r.1 matches LoaderStep::Finished(Err(e)) && e@ is InputMalformed
                            &&& r.0.inner is Finished
                        },
                        Err(e) => {
                            &&& r.1 matches LoaderStep::Finished(Err(e2)) && e2@ == e
                            &&& r.0.inner is Finished
                        },
                    }
                }
            }),
    {
        let DependencyLoader {
            components,
            root,
            mut idx,
            progress,
            mut registry_init_done,
            mut git_init_done,
            inner: _,
        } = self;
        let ghost comps = components.deep_view();
        let ghost idx0 = self.idx as int;
        let n = components.len();
        while idx < n && !matches!(components[idx].component_type, ComponentType::Library)
            invariant
                idx0 <= idx <= n,
                n == components@.len(),
                comps == components.deep_view(),
                forall|k: int|
                    idx0 <= k < idx ==> !(#[trigger] comps[k].component_type is Library),
            decreases n - idx,
        {
            idx = idx + 1;
        }
        proof {
            if idx < n {
                assert(comps[idx as int].component_type == components@[idx as int].component_type);
            }
            lemma_next_library_at(comps, idx0, idx as int);
        }
        if idx == n {
            return (
                DependencyLoader {
                    components,
                    root,
                    idx,
                    progress,
                    registry_init_done,
                    git_init_done,
                    inner: LoaderInner::Finished,
                },
                LoaderStep::Finished(Ok(())),
            );
        }
        let classified = parse_component(&components[idx]);
        match classified {
            Err(e) => (
                DependencyLoader {
                    components,
                    root,
                    idx,
                    progress,
                    registry_init_done,
                    git_init_done,
                    inner: LoaderInner::Finished,
                },
                LoaderStep::Finished(Err(e)),
            ),
            Ok(LibraryKind::Registry) => {
                match derive_registry_dep(&components[idx]) {
                    Err(e) => (
                        DependencyLoader {
                            components,
                            root,
                            idx,
                            progress,
                            registry_init_done,
                            git_init_done,
                            inner: LoaderInner::Finished,
                        },
                        LoaderStep::Finished(Err(e)),
                    ),
                    Ok(dep) => {
                        let do_init = !registry_init_done;
                        registry_init_done = true;
                        let (m, action) = CargoRegistryComponent::start(dep, root.clone(), do_init);
                        (
                            DependencyLoader {
                                components,
                                root,
                                idx,
                                progress,
                                registry_init_done,
                                git_init_done,
                                inner: LoaderInner::Registry(m),
                            },
                            LoaderStep::Action(action),
                        )
                    },
                }
            },
            Ok(LibraryKind::Git) => {
                match derive_git_dep(&components[idx]) {
                    Err(e) => (
                        DependencyLoader {
                            components,
                            root,
                            idx,
                            progress,
                            registry_init_done,
                            git_init_done,
                            inner: LoaderInner::Finished,
                        },
                        LoaderStep::Finished(Err(e)),
                    ),
                    Ok(dep) => {
                        let do_init = !git_init_done;
                        git_init_done = true;
                        let (m, action) = CargoGitComponent::start(dep, root.clone(), do_init);
                        (
                            DependencyLoader {
                                components,
                                root,
                                idx,
                                progress,
                                registry_init_done,
                                git_init_done,
                                inner: LoaderInner::Git(m),
                            },
                            LoaderStep::Action(action),
                        )
                    },
                }
            },
        }
    }

    /// Hands the event that answered the pending action to the running
    /// materializer.  Its next action is passed through; when it finishes a
    /// dependency the progress counter advances and the loader asks to be
    /// polled again; its failure ends the whole run.
    pub fn step(self, event: StepEvent) -> (r: (Self, LoaderStep))
        requires
            self.wf(),
            match self.inner {
                LoaderInner::Registry(m) => reg_event_ok(m.state, event@),
                LoaderInner::Git(m) => git_event_ok(m.state, event@),
                _ => false,
            },
        ensures
            r.0.wf(),
            r.0.components@ == self.components@,
            r.0.root@ == self.root@,
            r.0.progress >= self.progress,
            r.0.registry_init_done == self.registry_init_done,
            r.0.git_init_done == self.git_init_done,
            match self.inner {
                LoaderInner::Registry(m) => {
                    let stepped = reg_step_spec(m.state, m.dep@, self.root@, event@);
                    match stepped.1 {
                        crate::actions::StepResultModel::Next(a) => {
                            &&& r.1 matches LoaderStep::Action(act) && act@ == a
                            &&& r.0.inner matches LoaderInner::Registry(m2) && m2.state
                                == stepped.0 && m2.dep@ == m.dep@
                            &&& r.0.idx == self.idx
                            &&& r.0.progress == self.progress
                        },
                        crate::actions::StepResultModel::Finished(outcome) => match outcome {
                            Ok(()) => {
                                &&& r.1 is Continue
                                &&& r.0.inner is Idle
                                &&& r.0.idx == self.idx + 1
                                &&& r.0.progress == self.progress + 1
                            },
                            Err(e) => {
                                &&& r.1 matches LoaderStep::Finished(Err(e2)) && e2@ == e
                                &&& r.0.inner is Finished
                            },
                        },
                    }
                },
                LoaderInner::Git(m) => {
                    let stepped = git_step_spec(m.state, m.dep@, self.root@, event@);
                    match stepped.1 {
                        crate::actions::StepResultModel::Next(a) => {
                            &&& r.1 matches LoaderStep::Action(act) && act@ == a
                            &&& r.0.inner matches LoaderInner::Git(m2) && m2.state == stepped.0
                                && m2.dep@ == m.dep@
                            &&& r.0.idx == self.idx
                            &&& r.0.progress == self.progress
                        },
                        crate::actions::StepResultModel::Finished(outcome) => match outcome {
                            Ok(()) => {
                                &&& r.1 is Continue
                                &&& r.0.inner is Idle
                                &&& r.0.idx == self.idx + 1
                                &&& r.0.progress == self.progress + 1
                            },
                            Err(e) => {
                                &&& r.1 matches LoaderStep::Finished(Err(e2)) && e2@ == e
                                &&& r.0.inner is Finished
                            },
                        },
                    }
                },
                _ => false,
            },
    {
        let DependencyLoader {
            components,
            root,
            idx,
            progress,
            registry_init_done,
            git_init_done,
            inner,
        } = self;
        let n = components.len();
        proof {
            assert(idx < n);
        }
        match inner {
            LoaderInner::Registry(m) => {
                let (m2, res) = m.step(event);
                match res {
                    StepResult::Next(action) => (
                        DependencyLoader {
                            components,
                            root,
                            idx,
                            progress,
                            registry_init_done,
                            git_init_done,
                            inner: LoaderInner::Registry(m2),
                        },
                        LoaderStep::Action(action),
                    ),
                    StepResult::Finished(Ok(())) => (
                        DependencyLoader {
                            components,
                            root,
                            idx: idx + 1,
                            progress: progress + 1,
                            registry_init_done,
                            git_init_done,
                            inner: LoaderInner::Idle,
                        },
                        LoaderStep::Continue,
                    ),
                    StepResult::Finished(Err(e)) => (
                        DependencyLoader {
                            components,
                            root,
                            idx,
                            progress,
                            registry_init_done,
                            git_init_done,
                            inner: LoaderInner::Finished,
                        },
                        LoaderStep::Finished(Err(e)),
                    ),
                }
            },
            LoaderInner::Git(m) => {
                let (m2, res) = m.step(event);
                match res {
                    StepResult::Next(action) => (
                        DependencyLoader {
                            components,
                            root,
                            idx,
                            progress,
                            registry_init_done,
                            git_init_done,
                            inner: LoaderInner::Git(m2),
                        },
                        LoaderStep::Action(action),
                    ),
                    StepResult::Finished(Ok(())) => (
                        DependencyLoader {
                            components,
                            root,
                            idx: idx + 1,
                            progress: progress + 1,
                            registry_init_done,
                            git_init_done,
                            inner: LoaderInner::Idle,
                        },
                        LoaderStep::Continue,
                    ),
                    StepResult::Finished(Err(e)) => (
                        DependencyLoader {
                            components,
                            root,
                            idx,
                            progress,
                            registry_init_done,
                            git_init_done,
                            inner: LoaderInner::Finished,
                        },
                        LoaderStep::Finished(Err(e)),
                    ),
                }
            },
            LoaderInner::Idle => {
                // The step precondition admits no other event here.
                proof {
                    assert(false);
                }
                (
                    DependencyLoader {
                        components,
                        root,
                        idx,
                        progress,
                        registry_init_done,
                        git_init_done,
                        inner: LoaderInner::Finished,
                    },
                    LoaderStep::Finished(Ok(())),
                )
            },
            LoaderInner::Finished => {
                // The step precondition admits no other event here.
                proof {
                    assert(false);
                }
                (
                    DependencyLoader {
                        components,
                        root,
                        idx,
                        progress,
                        registry_init_done,
                        git_init_done,
                        inner: LoaderInner::Finished,
                    },
                    LoaderStep::Finished(Ok(())),
                )
            },
        }
    }
}

} // verus!
