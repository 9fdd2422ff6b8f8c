//! The failure taxonomy of the verification pipeline. Every error is
//! terminal for the run: nothing is retried, and each error carries the
//! detail of its cause so the invoker can report it.

use vstd::prelude::*;

verus! {

/// The three externally invoked steps of the workflow exerciser.
#[derive(PartialEq, Eq, Structural, Clone, Copy, Debug)]
pub enum WorkflowStep {
    /// The "new project" subcommand, run in a fresh working directory.
    Scaffold,
    /// The "build" subcommand, run inside the generated project.
    Build,
    /// The "test" subcommand, run inside the generated project.
    Test,
}

/// Exactly one failure reason per run; the variant identifies the failing
/// stage and its fields hold the diagnostic detail.
#[derive(Debug)]
pub enum PipelineError {
    /// The external decompression tool exited non-zero.
    ExtractionTool { stderr: String },
    /// No regular file with the expected executable name was found anywhere
    /// under the searched root.
    BinaryNotFound { expected_name: String, root: String },
    /// A sanity-check invocation of the located binary exited non-zero.
    SelfCheck { detail: String },
    /// The expected version is not a substring of the reported version.
    VersionMismatch { expected: String, actual: String },
    /// A workflow subcommand exited non-zero; the remaining steps were
    /// not attempted.
    WorkflowStep { step: WorkflowStep, stderr: String },
}

} // verus!
