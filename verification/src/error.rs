//! Every way the workflow can fail, and the user-facing error line each
//! failure produces. All failures are terminal: the run stops at the first.

use vstd::prelude::*;
use vstd::string::StringExecFns;

use crate::outcome::StepKind;

verus! {

/// Why a run failed. Every variant aborts the workflow; the texts carried by
/// the tool-related variants are the tool's own error output.
#[derive(Debug)]
pub enum WorkflowError {
    /// The current directory is not inside a version-control working tree.
    NotARepository,
    /// The external tool could not be started for the given step; the text
    /// describes the launch failure.
    ToolStartFailed(StepKind, String),
    /// Staging ran and reported failure; the text is its stderr.
    StageFailed(String),
    /// The commit message was empty after trimming whitespace.
    EmptyMessage,
    /// The interactive prompt could not be read; the text describes why.
    InputFailed(String),
    /// Committing failed because nothing was staged.
    NothingToCommit,
    /// Committing failed for any other reason; the text is its stderr.
    CommitFailed(String),
    /// Pushing ran and reported failure; the text is its stderr.
    PushFailed(String),
}

/// Mathematical model of a `WorkflowError`.
pub enum WorkflowErrorView {
    NotARepository,
    ToolStartFailed(StepKind, Seq<char>),
    StageFailed(Seq<char>),
    EmptyMessage,
    InputFailed(Seq<char>),
    NothingToCommit,
    CommitFailed(Seq<char>),
    PushFailed(Seq<char>),
}

impl View for WorkflowError {
    type V = WorkflowErrorView;

    open spec fn view(&self) -> WorkflowErrorView {
        match self {
            WorkflowError::NotARepository => WorkflowErrorView::NotARepository,
            WorkflowError::ToolStartFailed(kind, detail) => WorkflowErrorView::ToolStartFailed(
                *kind,
                detail@,
            ),
            WorkflowError::StageFailed(stderr) => WorkflowErrorView::StageFailed(stderr@),
            WorkflowError::EmptyMessage => WorkflowErrorView::EmptyMessage,
            WorkflowError::InputFailed(detail) => WorkflowErrorView::InputFailed(detail@),
            WorkflowError::NothingToCommit => WorkflowErrorView::NothingToCommit,
            WorkflowError::CommitFailed(stderr) => WorkflowErrorView::CommitFailed(stderr@),
            WorkflowError::PushFailed(stderr) => WorkflowErrorView::PushFailed(stderr@),
        }
    }
}

impl DeepView for WorkflowError {
    type V = WorkflowErrorView;

    open spec fn deep_view(&self) -> WorkflowErrorView {
        self.view()
    }
}

/// The text that announces a failure to start the external tool for `kind`.
pub open spec fn spec_start_failure_prefix(kind: StepKind) -> Seq<char> {
    match kind {
        StepKind::Stage => "Failed to execute git add: "@,
        StepKind::Commit => "Failed to execute git commit: "@,
        StepKind::Push => "Failed to execute git push: "@,
    }
}

/// The user-facing error line for each failure.
pub open spec fn spec_error_message(e: WorkflowErrorView) -> Seq<char> {
    match e {
        WorkflowErrorView::NotARepository => "Not a git repository. No .git directory found."@,
        WorkflowErrorView::ToolStartFailed(kind, detail) => spec_start_failure_prefix(kind)
            + detail,
        WorkflowErrorView::StageFailed(stderr) => "git add failed: "@ + stderr,
        WorkflowErrorView::EmptyMessage => "Commit message cannot be empty"@,
        WorkflowErrorView::InputFailed(detail) => "Failed to read input: "@ + detail,
        WorkflowErrorView::NothingToCommit => "Nothing to commit, working tree clean"@,
        WorkflowErrorView::CommitFailed(stderr) => "git commit failed: "@ + stderr,
        WorkflowErrorView::PushFailed(stderr) => "git push failed: "@ + stderr,
    }
}

impl WorkflowError {
    /// Renders this failure as its user-facing error line.
    pub fn message(&self) -> (r: String)
        ensures
            r@ == spec_error_message(self@),
    {
        match self {
            WorkflowError::NotARepository => String::from_str(
                "Not a git repository. No .git directory found.",
            ),
            WorkflowError::ToolStartFailed(kind, detail) => {
                let prefix = match kind {
                    StepKind::Stage => "Failed to execute git add: ",
                    StepKind::Commit => "Failed to execute git commit: ",
                    StepKind::Push => "Failed to execute git push: ",
                };
                String::from_str(prefix).concat(detail.as_str())
            },
            WorkflowError::StageFailed(stderr) => String::from_str("git add failed: ").concat(
                stderr.as_str(),
            ),
            WorkflowError::EmptyMessage => String::from_str("Commit message cannot be empty"),
            WorkflowError::InputFailed(detail) => String::from_str("Failed to read input: ").concat(
                detail.as_str(),
            ),
            WorkflowError::NothingToCommit => String::from_str(
                "Nothing to commit, working tree clean",
            ),
            WorkflowError::CommitFailed(stderr) => String::from_str("git commit failed: ").concat(
                stderr.as_str(),
            ),
            WorkflowError::PushFailed(stderr) => String::from_str("git push failed: ").concat(
                stderr.as_str(),
            ),
        }
    }
}

} // verus!
