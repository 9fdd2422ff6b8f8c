//! The verification pipeline as an explicit state machine.
//!
//! The pipeline is strictly sequential: extract the archive, locate the
//! packaged executable, run its two sanity checks, compare its reported
//! version, then scaffold, build and test a sample project. The machine
//! holds the decisions; the caller performs each requested action (a
//! subprocess run or a directory walk) and feeds the observed outcome back
//! in. The first failing outcome moves the machine to its failed stage and
//! returns the one error of the run; no step is retried, and no later step
//! is attempted.

use vstd::prelude::*;

use crate::errors::{PipelineError, WorkflowStep};
use crate::extractor::{select_tool, tool_for, ArchiveTool};
use crate::locator::{binary_base_name, entry_matches, expected_binary_name, locate, WalkEntry};
use crate::strutil::strip_v;
use crate::version_check::{check_version_output, version_accepted};

verus! {

/// Where the pipeline stands: one stage per external action, plus the two
/// terminal stages.
#[derive(PartialEq, Eq, Structural, Clone, Copy, Debug)]
pub enum Stage {
    /// Waiting for the archive to be unpacked.
    Extract,
    /// Waiting for the walk of the unpacked tree.
    LocateBinary,
    /// Waiting for the long-version sanity invocation.
    LongVersionCheck,
    /// Waiting for the help sanity invocation.
    HelpCheck,
    /// Waiting for the captured short-version output.
    ShortVersionCheck,
    /// Waiting for the "new project" subcommand.
    Scaffold,
    /// Waiting for the "build" subcommand.
    Build,
    /// Waiting for the "test" subcommand.
    Test,
    /// Every stage passed; the release is verified.
    Complete,
    /// A stage failed; the run is over.
    Failed,
}

/// What the caller must do next. Every action but the walk is a synchronous
/// subprocess invocation whose exit (and, for the short version, output)
/// comes back as an [`Event`].
#[derive(PartialEq, Eq, Structural, Clone, Copy, Debug)]
pub enum Action {
    /// Run the given decompression tool on the archive, extracting into the
    /// scoped temporary directory.
    RunExtract(ArchiveTool),
    /// Walk the extraction directory recursively and report every entry.
    WalkTree,
    /// Invoke the located binary with its long-version flag.
    RunLongVersion,
    /// Invoke the located binary with its help flag.
    RunHelp,
    /// Invoke the located binary with its short-version flag and capture
    /// its standard output.
    RunShortVersion,
    /// Invoke the "new project" subcommand in a fresh working directory.
    RunScaffold,
    /// Invoke the "build" subcommand inside the generated project.
    RunBuild,
    /// Invoke the "test" subcommand inside the generated project.
    RunTest,
    /// Nothing is left to do: the run succeeded or already failed.
    Finished,
}

/// The observed outcome of one performed action.
pub enum Event {
    /// A subprocess exited; `ok` is whether its exit status was zero, and
    /// `stderr` its captured error output.
    ToolExit { ok: bool, stderr: String },
    /// The recursive walk of `root` finished and surfaced `entries`, in
    /// walk order.
    Listing { root: String, entries: Vec<WalkEntry> },
    /// The short-version invocation exited; `ok` is whether its exit status
    /// was zero, and `output` its captured standard output.
    Captured { ok: bool, output: String },
}

/// The pipeline's state: the immutable inputs of the run, the current
/// stage, and the path of the located binary once the walk found it.
pub struct Pipeline {
    /// The filename of the release archive, used for format dispatch.
    pub archive_name: String,
    /// The expected version string, kept as given; the prefix character is
    /// stripped at comparison time.
    pub expected_version: String,
    /// The executable filename searched for in the unpacked tree.
    pub target_name: String,
    /// Where the run stands.
    pub stage: Stage,
    /// The located binary's path, set when the walk finds it.
    pub binary_path: Option<String>,
}

/// Which kind of event each stage waits for; the terminal stages wait for
/// none.
pub open spec fn event_fits(stage: Stage, e: Event) -> bool {
    match stage {
        Stage::Extract => e is ToolExit,
        Stage::LocateBinary => e is Listing,
        Stage::LongVersionCheck => e is ToolExit,
        Stage::HelpCheck => e is ToolExit,
        Stage::ShortVersionCheck => e is Captured,
        Stage::Scaffold => e is ToolExit,
        Stage::Build => e is ToolExit,
        Stage::Test => e is ToolExit,
        Stage::Complete => false,
        Stage::Failed => false,
    }
}

/// A sanity-check stage: a zero exit moves on to `next`, a non-zero exit
/// fails the run with the self-check error carrying the tool's stderr.
pub open spec fn sanity_transition(
    pre: Pipeline,
    e: Event,
    post: Pipeline,
    r: Result<(), PipelineError>,
    next: Stage,
) -> bool {
    &&& e matches Event::ToolExit { ok, stderr }
    &&& post.binary_path == pre.binary_path
    &&& if ok {
        post.stage == next && r is Ok
    } else {
        &&& post.stage == Stage::Failed
        &&& r matches Err(err)
        &&& err matches PipelineError::SelfCheck { detail }
        &&& detail@ == stderr@
    }
}

/// A workflow stage: a zero exit moves on to `next`, a non-zero exit fails
/// the run with an error naming `step` and carrying the subcommand's
/// stderr.
pub open spec fn workflow_transition(
    pre: Pipeline,
    e: Event,
    post: Pipeline,
    r: Result<(), PipelineError>,
    next: Stage,
    step: WorkflowStep,
) -> bool {
    &&& e matches Event::ToolExit { ok, stderr }
    &&& post.binary_path == pre.binary_path
    &&& if ok {
        post.stage == next && r is Ok
    } else {
        &&& post.stage == Stage::Failed
        &&& r matches Err(err)
        &&& err matches PipelineError::WorkflowStep { step: failing, stderr: detail }
        &&& failing == step
        &&& detail@ == stderr@
    }
}

/// The full step relation of the machine: how one fed event moves the
/// state from `pre` to `post` and what `feed` returns. Every case is
/// deterministic in `pre` and `e`, so the relation pins `post` and `r`.
pub open spec fn transition(
    pre: Pipeline,
    e: Event,
    post: Pipeline,
    r: Result<(), PipelineError>,
) -> bool {
    &&& post.archive_name == pre.archive_name
    &&& post.expected_version == pre.expected_version
    &&& post.target_name == pre.target_name
    &&& match pre.stage {
        Stage::Extract => {
            &&& e matches Event::ToolExit { ok, stderr }
            &&& post.binary_path == pre.binary_path
            &&& if ok {
                post.stage == Stage::LocateBinary && r is Ok
            } else {
                &&& post.stage == Stage::Failed
                &&& r matches Err(err)
                &&& err matches PipelineError::ExtractionTool { stderr: detail }
                &&& detail@ == stderr@
            }
        },
        Stage::LocateBinary => {
            &&& e matches Event::Listing { root, entries }
            &&& if exists|i: int|
                0 <= i < entries@.len() && #[trigger] entry_matches(
                    entries@[i],
                    pre.target_name@,
                ) {
                &&& post.stage == Stage::LongVersionCheck
                &&& r is Ok
                &&& post.binary_path matches Some(p)
                &&& exists|i: int|
                    0 <= i < entries@.len() && #[trigger] entry_matches(
                        entries@[i],
                        pre.target_name@,
                    ) && p@ == entries@[i].path@ && (forall|j: int|
                        0 <= j < i ==> !entry_matches(#[trigger] entries@[j], pre.target_name@))
            } else {
                &&& post.stage == Stage::Failed
                &&& post.binary_path == pre.binary_path
                &&& r matches Err(err)
                &&& err matches PipelineError::BinaryNotFound { expected_name, root: searched }
                &&& expected_name@ == pre.target_name@
                &&& searched@ == root@
            }
        },
        Stage::LongVersionCheck => sanity_transition(pre, e, post, r, Stage::HelpCheck),
        Stage::HelpCheck => sanity_transition(pre, e, post, r, Stage::ShortVersionCheck),
        Stage::ShortVersionCheck => {
            &&& e matches Event::Captured { ok, output }
            &&& post.binary_path == pre.binary_path
            &&& if !ok {
                &&& post.stage == Stage::Failed
                &&& r matches Err(err)
                &&& err matches PipelineError::SelfCheck { detail }
                &&& detail@ == output@
            } else if version_accepted(pre.expected_version@, output@) {
                post.stage == Stage::Scaffold && r is Ok
            } else {
                &&& post.stage == Stage::Failed
                &&& r matches Err(err)
                &&& err matches PipelineError::VersionMismatch { expected, actual }
                &&& expected@ == strip_v(pre.expected_version@)
                &&& actual@ == output@
            }
        },
        Stage::Scaffold => workflow_transition(pre, e, post, r, Stage::Build, WorkflowStep::Scaffold),
        Stage::Build => workflow_transition(pre, e, post, r, Stage::Test, WorkflowStep::Build),
        Stage::Test => workflow_transition(pre, e, post, r, Stage::Complete, WorkflowStep::Test),
        Stage::Complete => false,
        Stage::Failed => false,
    }
}

/// The action each state asks of the caller.
pub open spec fn action_of(p: Pipeline) -> Action {
    match p.stage {
        Stage::Extract => Action::RunExtract(tool_for(p.archive_name@)),
        Stage::LocateBinary => Action::WalkTree,
        Stage::LongVersionCheck => Action::RunLongVersion,
        Stage::HelpCheck => Action::RunHelp,
        Stage::ShortVersionCheck => Action::RunShortVersion,
        Stage::Scaffold => Action::RunScaffold,
        Stage::Build => Action::RunBuild,
        Stage::Test => Action::RunTest,
        Stage::Complete => Action::Finished,
        Stage::Failed => Action::Finished,
    }
}

impl Pipeline {
    /// Starts a run: the machine waits in the extraction stage, the target
    /// executable name is the fixed base name with the platform suffix
    /// appended, and no binary is located yet.
    pub fn new(archive_name: &str, expected_version: &str, exe_suffix: &str) -> (p: Pipeline)
        ensures
            p.stage == Stage::Extract,
            p.archive_name@ == archive_name@,
            p.expected_version@ == expected_version@,
            p.target_name@ == binary_base_name() + exe_suffix@,
            p.binary_path is None,
    {
        Pipeline {
            archive_name: String::from_str(archive_name),
            expected_version: String::from_str(expected_version),
            target_name: expected_binary_name(exe_suffix),
            stage: Stage::Extract,
            binary_path: None,
        }
    }

    /// What the caller must do next for this state.
    pub fn next_action(&self) -> (a: Action)
        ensures
            a == action_of(*self),
    {
        match self.stage {
            Stage::Extract => Action::RunExtract(select_tool(self.archive_name.as_str())),
            Stage::LocateBinary => Action::WalkTree,
            Stage::LongVersionCheck => Action::RunLongVersion,
            Stage::HelpCheck => Action::RunHelp,
            Stage::ShortVersionCheck => Action::RunShortVersion,
            Stage::Scaffold => Action::RunScaffold,
            Stage::Build => Action::RunBuild,
            Stage::Test => Action::RunTest,
            Stage::Complete => Action::Finished,
            Stage::Failed => Action::Finished,
        }
    }

    /// Feeds the outcome of the last requested action into the machine and
    /// takes one step of the [`transition`] relation: on success the next
    /// stage is entered, on failure the run moves to its failed stage and
    /// the one error of the run is returned.
    pub fn feed(&mut self, e: Event) -> (r: Result<(), PipelineError>)
        requires
            event_fits(old(self).stage, e),
        ensures
            transition(*old(self), e, *final(self), r),
    {
        match e {
            Event::ToolExit { ok, stderr } => match self.stage {
                Stage::Extract => {
                    if ok {
                        self.stage = Stage::LocateBinary;
                        Ok(())
                    } else {
                        self.stage = Stage::Failed;
                        Err(PipelineError::ExtractionTool { stderr })
                    }
                },
                Stage::LongVersionCheck => {
                    if ok {
                        self.stage = Stage::HelpCheck;
                        Ok(())
                    } else {
                        self.stage = Stage::Failed;
                        Err(PipelineError::SelfCheck { detail: stderr })
                    }
                },
                Stage::HelpCheck => {
                    if ok {
                        self.stage = Stage::ShortVersionCheck;
                        Ok(())
                    } else {
                        self.stage = Stage::Failed;
                        Err(PipelineError::SelfCheck { detail: stderr })
                    }
                },
                Stage::Scaffold => {
                    if ok {
                        self.stage = Stage::Build;
                        Ok(())
                    } else {
                        self.stage = Stage::Failed;
                        Err(
                            PipelineError::WorkflowStep {
                                step: WorkflowStep::Scaffold,
                                stderr,
                            },
                        )
                    }
                },
                Stage::Build => {
                    if ok {
                        self.stage = Stage::Test;
                        Ok(())
                    } else {
                        self.stage = Stage::Failed;
                        Err(PipelineError::WorkflowStep { step: WorkflowStep::Build, stderr })
                    }
                },
                Stage::Test => {
                    if ok {
                        self.stage = Stage::Complete;
                        Ok(())
                    } else {
                        self.stage = Stage::Failed;
                        Err(PipelineError::WorkflowStep { step: WorkflowStep::Test, stderr })
                    }
                },
                _ => {
                    proof {
                        assert(false);
                    }
                    Err(PipelineError::SelfCheck { detail: stderr })
                },
            },
            Event::Listing { root, entries } => match self.stage {
                Stage::LocateBinary => {
                    match locate(&entries, self.target_name.as_str(), root.as_str()) {
                        Ok(path) => {
                            self.binary_path = Some(path);
                            self.stage = Stage::LongVersionCheck;
                            Ok(())
                        },
                        Err(err) => {
                            self.stage = Stage::Failed;
                            Err(err)
                        },
                    }
                },
                _ => {
                    proof {
                        assert(false);
                    }
                    Err(PipelineError::SelfCheck { detail: root })
                },
            },
            Event::Captured { ok, output } => match self.stage {
                Stage::ShortVersionCheck => {
                    if !ok {
                        self.stage = Stage::Failed;
                        Err(PipelineError::SelfCheck { detail: output })
                    } else {
                        match check_version_output(
                            self.expected_version.as_str(),
                            output.as_str(),
                        ) {
                            Ok(u) => {
                                self.stage = Stage::Scaffold;
                                Ok(u)
                            },
                            Err(err) => {
                                self.stage = Stage::Failed;
                                Err(err)
                            },
                        }
                    }
                },
                _ => {
                    proof {
                        assert(false);
                    }
                    Err(PipelineError::SelfCheck { detail: output })
                },
            },
        }
    }
}

/// In the extraction stage the tape-archive tool is requested exactly for
/// archive names ending in `.tar.gz`; every other name is routed to the
/// general archive tool.
pub proof fn lemma_extract_tool_choice(p: Pipeline)
    requires
        p.stage == Stage::Extract,
    ensures
        action_of(p) == Action::RunExtract(ArchiveTool::TarGzip) <==> crate::extractor::is_tar_gz_name(
            p.archive_name@,
        ),
        !crate::extractor::is_tar_gz_name(p.archive_name@) ==> action_of(p)
            == Action::RunExtract(ArchiveTool::General),
{
}

/// If the build subcommand exits non-zero, the run ends at once: the error
/// names the build step and carries the subcommand's stderr, the machine
/// moves to its failed stage, and its next action is Finished — the test
/// subcommand is never requested.
pub proof fn lemma_build_failure_skips_test(
    pre: Pipeline,
    e: Event,
    post: Pipeline,
    r: Result<(), PipelineError>,
)
    requires
        pre.stage == Stage::Build,
        e is ToolExit,
        !e->ToolExit_ok,
        transition(pre, e, post, r),
    ensures
        post.stage == Stage::Failed,
        action_of(post) == Action::Finished,
        r matches Err(err) && err matches PipelineError::WorkflowStep { step, stderr }
            && step == WorkflowStep::Build && stderr@ == e->ToolExit_stderr@,
{
}

/// The run completes only through the final step: a transition that ends
/// in the complete stage must have started in the test stage with a zero
/// exit, and it returns no error.
pub proof fn lemma_complete_only_through_test(
    pre: Pipeline,
    e: Event,
    post: Pipeline,
    r: Result<(), PipelineError>,
)
    requires
        transition(pre, e, post, r),
        post.stage == Stage::Complete,
    ensures
        pre.stage == Stage::Test,
        e is ToolExit && e->ToolExit_ok,
        r is Ok,
{
}

/// The test subcommand is requested only of a state that every earlier
/// stage has passed: a transition whose resulting action is the test run
/// must have started in the build stage with a zero exit.
pub proof fn lemma_test_only_after_build_success(
    pre: Pipeline,
    e: Event,
    post: Pipeline,
    r: Result<(), PipelineError>,
)
    requires
        transition(pre, e, post, r),
        action_of(post) == Action::RunTest,
    ensures
        pre.stage == Stage::Build,
        e is ToolExit && e->ToolExit_ok,
{
}

} // verus!
