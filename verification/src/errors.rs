//! Error kinds of the materialization engine.
//!
//! Every failure bubbles to the orchestrator entry point unchanged; nothing
//! is recovered mid-materialization.

use vstd::prelude::*;

verus! {

/// Why a materialization run failed.
#[derive(Debug)]
pub enum Error {
    /// The document lacks a field that the classified dependency kind needs.
    InputMalformed { detail: String },
    /// A computed digest differs from the declared one.
    HashMismatch { alg: String, expected: String, actual: String },
    /// A declared hash names an algorithm outside the supported set.
    UnsupportedAlgorithm { alg: String },
    /// A library component carries an unknown kind tag.
    UnsupportedLibraryKind { tag: String },
    /// A registry index line could not be parsed.
    MalformedIndex,
    /// An external tool exited nonzero.
    SubprocessFailure { tool: String, status: i32 },
    /// A filesystem operation failed.
    IoFailure { path: String },
}

/// Ghost model of [`Error`].
pub enum ErrorModel {
    InputMalformed { detail: Seq<char> },
    HashMismatch { alg: Seq<char>, expected: Seq<char>, actual: Seq<char> },
    UnsupportedAlgorithm { alg: Seq<char> },
    UnsupportedLibraryKind { tag: Seq<char> },
    MalformedIndex,
    SubprocessFailure { tool: Seq<char>, status: i32 },
    IoFailure { path: Seq<char> },
}

impl View for Error {
    type V = ErrorModel;

    open spec fn view(&self) -> ErrorModel {
        match self {
            Error::InputMalformed { detail } => ErrorModel::InputMalformed { detail: detail@ },
            Error::HashMismatch { alg, expected, actual } => ErrorModel::HashMismatch {
                alg: alg@,
                expected: expected@,
                actual: actual@,
            },
            Error::UnsupportedAlgorithm { alg } => ErrorModel::UnsupportedAlgorithm { alg: alg@ },
            Error::UnsupportedLibraryKind { tag } => ErrorModel::UnsupportedLibraryKind {
                tag: tag@,
            },
            Error::MalformedIndex => ErrorModel::MalformedIndex,
            Error::SubprocessFailure { tool, status } => ErrorModel::SubprocessFailure {
                tool: tool@,
                status: *status,
            },
            Error::IoFailure { path } => ErrorModel::IoFailure { path: path@ },
        }
    }
}

impl DeepView for Error {
    type V = ErrorModel;

    open spec fn deep_view(&self) -> ErrorModel {
        self.view()
    }
}

} // verus!
