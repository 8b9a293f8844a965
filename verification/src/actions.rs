//! The vocabulary between the verified decision logic and the unverified
//! driver.
//!
//! A materializer never touches the filesystem or spawns a process itself:
//! it hands the driver one [`StepAction`] at a time and is stepped with the
//! [`StepEvent`] that performing the action produced.  Every decision —
//! which action comes next, when to skip, which error a failure becomes —
//! is made here and verified.

use vstd::prelude::*;

use crate::errors::{Error, ErrorModel};

verus! {

/// An effect the driver must perform next.
#[derive(Debug)]
pub enum StepAction {
    /// Create a directory and all its parents.
    CreateDirAll { path: String },
    /// Write a file with the given bytes, replacing an existing one.
    WriteFile { path: String, contents: Vec<u8> },
    /// Create a file with the given bytes only when the path does not exist.
    WriteFileIfAbsent { path: String, contents: Vec<u8> },
    /// Report whether the path exists.
    CheckExists { path: String },
    /// Read a file's bytes.
    ReadFile { path: String },
    /// Run `curl -L <url> --output <output>`.
    CurlDownload { url: String, output: String },
    /// Run `curl -L <url>` and capture its standard output.
    CurlFetch { url: String },
    /// Run `tar -xzf <archive> -o <name>` with `<dest_dir>` as working
    /// directory.
    TarExtract { archive: String, dest_dir: String, name: String },
    /// Run `git clone --bare <url> <dest>`.
    GitBareClone { url: String, dest: String },
    /// Run `git archive --format=tar <commit>` inside `<repo>` and capture
    /// its standard output.
    GitArchive { repo: String, commit: String },
    /// Run `git clone --recurse-submodules <src> <dest>`.
    GitCloneRecurse { src: String, dest: String },
    /// Run `git checkout -f <commit>` inside `<dir>`.
    GitCheckout { dir: String, commit: String },
}

/// Ghost model of [`StepAction`].
pub enum ActionModel {
    CreateDirAll { path: Seq<char> },
    WriteFile { path: Seq<char>, contents: Seq<u8> },
    WriteFileIfAbsent { path: Seq<char>, contents: Seq<u8> },
    CheckExists { path: Seq<char> },
    ReadFile { path: Seq<char> },
    CurlDownload { url: Seq<char>, output: Seq<char> },
    CurlFetch { url: Seq<char> },
    TarExtract { archive: Seq<char>, dest_dir: Seq<char>, name: Seq<char> },
    GitBareClone { url: Seq<char>, dest: Seq<char> },
    GitArchive { repo: Seq<char>, commit: Seq<char> },
    GitCloneRecurse { src: Seq<char>, dest: Seq<char> },
    GitCheckout { dir: Seq<char>, commit: Seq<char> },
}

impl View for StepAction {
    type V = ActionModel;

    open spec fn view(&self) -> ActionModel {
        match self {
            StepAction::CreateDirAll { path } => ActionModel::CreateDirAll { path: path@ },
            StepAction::WriteFile { path, contents } => ActionModel::WriteFile {
                path: path@,
                contents: contents@,
            },
            StepAction::WriteFileIfAbsent { path, contents } => ActionModel::WriteFileIfAbsent {
                path: path@,
                contents: contents@,
            },
            StepAction::CheckExists { path } => ActionModel::CheckExists { path: path@ },
            StepAction::ReadFile { path } => ActionModel::ReadFile { path: path@ },
            StepAction::CurlDownload { url, output } => ActionModel::CurlDownload {
                url: url@,
                output: output@,
            },
            StepAction::CurlFetch { url } => ActionModel::CurlFetch { url: url@ },
            StepAction::TarExtract { archive, dest_dir, name } => ActionModel::TarExtract {
                archive: archive@,
                dest_dir: dest_dir@,
                name: name@,
            },
            StepAction::GitBareClone { url, dest } => ActionModel::GitBareClone {
                url: url@,
                dest: dest@,
            },
            StepAction::GitArchive { repo, commit } => ActionModel::GitArchive {
                repo: repo@,
                commit: commit@,
            },
            StepAction::GitCloneRecurse { src, dest } => ActionModel::GitCloneRecurse {
                src: src@,
                dest: dest@,
            },
            StepAction::GitCheckout { dir, commit } => ActionModel::GitCheckout {
                dir: dir@,
                commit: commit@,
            },
        }
    }
}

impl DeepView for StepAction {
    type V = ActionModel;

    open spec fn deep_view(&self) -> ActionModel {
        self.view()
    }
}

/// What performing an action yielded.
#[derive(Debug)]
pub enum StepEvent {
    /// The action succeeded and has no payload.
    Done,
    /// The action succeeded and produced these bytes.
    Bytes(Vec<u8>),
    /// The checked path exists, or does not.
    Exists(bool),
    /// The tool exited with this nonzero status.
    ToolFailed(i32),
    /// The filesystem operation failed.
    IoFailed,
}

/// Ghost model of [`StepEvent`].
pub enum EventModel {
    Done,
    Bytes(Seq<u8>),
    Exists(bool),
    ToolFailed(i32),
    IoFailed,
}

impl View for StepEvent {
    type V = EventModel;

    open spec fn view(&self) -> EventModel {
        match self {
            StepEvent::Done => EventModel::Done,
            StepEvent::Bytes(b) => EventModel::Bytes(b@),
            StepEvent::Exists(e) => EventModel::Exists(*e),
            StepEvent::ToolFailed(s) => EventModel::ToolFailed(*s),
            StepEvent::IoFailed => EventModel::IoFailed,
        }
    }
}

impl DeepView for StepEvent {
    type V = EventModel;

    open spec fn deep_view(&self) -> EventModel {
        self.view()
    }
}

/// Whether an action is performed by spawning an external tool.
pub open spec fn action_is_subprocess(a: ActionModel) -> bool {
    match a {
        ActionModel::CurlDownload { .. } => true,
        ActionModel::CurlFetch { .. } => true,
        ActionModel::TarExtract { .. } => true,
        ActionModel::GitBareClone { .. } => true,
        ActionModel::GitArchive { .. } => true,
        ActionModel::GitCloneRecurse { .. } => true,
        ActionModel::GitCheckout { .. } => true,
        _ => false,
    }
}

/// What a materializer hands back after each step: the next action to
/// perform, or the outcome of the whole materialization.
#[derive(Debug)]
pub enum StepResult {
    Next(StepAction),
    Finished(Result<(), Error>),
}

/// Ghost model of [`StepResult`].
pub enum StepResultModel {
    Next(ActionModel),
    Finished(Result<(), ErrorModel>),
}

impl View for StepResult {
    type V = StepResultModel;

    open spec fn view(&self) -> StepResultModel {
        match self {
            StepResult::Next(a) => StepResultModel::Next(a@),
            StepResult::Finished(r) => StepResultModel::Finished(
                match r {
                    Ok(()) => Ok(()),
                    Err(e) => Err(e@),
                },
            ),
        }
    }
}

impl DeepView for StepResult {
    type V = StepResultModel;

    open spec fn deep_view(&self) -> StepResultModel {
        self.view()
    }
}

} // verus!
