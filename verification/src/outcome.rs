//! What one external-tool invocation produced, and which of it the workflow
//! echoes back to the user.

use vstd::prelude::*;

verus! {

/// Which of the three external operations ran.
#[derive(Clone, Copy, PartialEq, Eq, Structural, Debug)]
pub enum StepKind {
    Stage,
    Commit,
    Push,
}

/// The outcome of one completed external-tool invocation: its exit status
/// collapsed to a success flag, and its captured output streams, lossily
/// decoded to text by the caller.
#[derive(Debug)]
pub struct StepOutput {
    pub success: bool,
    pub stdout: String,
    pub stderr: String,
}

/// Mathematical model of a `StepOutput`.
pub struct StepOutputView {
    pub success: bool,
    pub stdout: Seq<char>,
    pub stderr: Seq<char>,
}

impl View for StepOutput {
    type V = StepOutputView;

    open spec fn view(&self) -> StepOutputView {
        StepOutputView { success: self.success, stdout: self.stdout@, stderr: self.stderr@ }
    }
}

impl DeepView for StepOutput {
    type V = StepOutputView;

    open spec fn deep_view(&self) -> StepOutputView {
        self.view()
    }
}

/// The result of trying to run the external tool: either it ran to
/// completion (successfully or not), or it could not be started at all, in
/// which case the text describes why.
#[derive(Debug)]
pub enum ToolOutcome {
    Ran(StepOutput),
    NotStarted(String),
}

/// Mathematical model of a `ToolOutcome`.
pub enum ToolOutcomeView {
    Ran(StepOutputView),
    NotStarted(Seq<char>),
}

impl View for ToolOutcome {
    type V = ToolOutcomeView;

    open spec fn view(&self) -> ToolOutcomeView {
        match self {
            ToolOutcome::Ran(out) => ToolOutcomeView::Ran(out@),
            ToolOutcome::NotStarted(detail) => ToolOutcomeView::NotStarted(detail@),
        }
    }
}

impl DeepView for ToolOutcome {
    type V = ToolOutcomeView;

    open spec fn deep_view(&self) -> ToolOutcomeView {
        self.view()
    }
}

/// The lines of captured tool output that the workflow echoes for one step,
/// in order. Nothing is echoed unless `verbose` is set. Staging echoes its
/// stdout only when non-empty; committing echoes its stdout unconditionally;
/// pushing echoes stdout and then stderr, each only when non-empty (the tool
/// writes informational progress to either stream).
pub open spec fn spec_echo_lines(kind: StepKind, verbose: bool, out: StepOutputView) -> Seq<
    Seq<char>,
> {
    if !verbose {
        Seq::empty()
    } else {
        match kind {
            StepKind::Stage => if out.stdout.len() > 0 {
                seq![out.stdout]
            } else {
                Seq::empty()
            },
            StepKind::Commit => seq![out.stdout],
            StepKind::Push => {
                let from_stdout: Seq<Seq<char>> = if out.stdout.len() > 0 {
                    seq![out.stdout]
                } else {
                    Seq::empty()
                };
                let from_stderr: Seq<Seq<char>> = if out.stderr.len() > 0 {
                    seq![out.stderr]
                } else {
                    Seq::empty()
                };
                from_stdout + from_stderr
            },
        }
    }
}

/// Computes the lines to echo for one step's captured output.
pub fn echo_lines(kind: StepKind, verbose: bool, out: &StepOutput) -> (r: Vec<String>)
    ensures
        r.deep_view() == spec_echo_lines(kind, verbose, out@),
{
    let mut r: Vec<String> = Vec::new();
    if verbose {
        match kind {
            StepKind::Stage => {
                if !out.stdout.as_str().is_empty() {
                    r.push(out.stdout.clone());
                }
            },
            StepKind::Commit => {
                r.push(out.stdout.clone());
            },
            StepKind::Push => {
                if !out.stdout.as_str().is_empty() {
                    r.push(out.stdout.clone());
                }
                if !out.stderr.as_str().is_empty() {
                    r.push(out.stderr.clone());
                }
            },
        }
    }
    proof {
        assert(r.deep_view() =~~= spec_echo_lines(kind, verbose, out@));
    }
    r
}

} // verus!
