//! The workflow state machine: check the repository marker, stage all
//! changes, acquire a commit message, commit, push.
//!
//! The machine is pure. `next_action` says what outside work the current
//! state calls for; the caller performs it and reports the result as an
//! `Event`; `step` moves to the next state. Control flow is strictly linear
//! and short-circuiting: any failure moves to `Failed`, which — like `Done` —
//! calls for no further action and absorbs every event.

use vstd::prelude::*;
use vstd::string::StringExecFns;

use crate::error::{WorkflowError, WorkflowErrorView};
use crate::outcome::{StepKind, ToolOutcome, ToolOutcomeView};
use crate::text::{blank, contains_str, is_blank, occurs_in};

verus! {

/// The stderr fragment by which the external tool reports that a commit had
/// nothing staged to record.
pub open spec fn spec_nothing_to_commit_marker() -> Seq<char> {
    "nothing to commit"@
}

/// What one invocation was asked to do, parsed from the command line.
/// Immutable once constructed.
#[derive(Debug)]
pub struct Options {
    /// The commit message, when one was supplied; when absent the workflow
    /// asks for one interactively.
    pub message: Option<String>,
    /// The branch to push to, when one was supplied; the push targets
    /// `"main"` otherwise.
    pub origin: Option<String>,
    /// Whether to echo the underlying tool's output.
    pub verbose: bool,
}

/// Mathematical model of `Options`.
pub struct OptionsView {
    pub message: Option<Seq<char>>,
    pub origin: Option<Seq<char>>,
    pub verbose: bool,
}

impl View for Options {
    type V = OptionsView;

    open spec fn view(&self) -> OptionsView {
        OptionsView {
            message: self.message.deep_view(),
            origin: self.origin.deep_view(),
            verbose: self.verbose,
        }
    }
}

impl DeepView for Options {
    type V = OptionsView;

    open spec fn deep_view(&self) -> OptionsView {
        self.view()
    }
}

/// The branch a push targets: the supplied one, or `"main"`.
pub open spec fn spec_target_branch(opts: OptionsView) -> Seq<char> {
    match opts.origin {
        Some(branch) => branch,
        None => "main"@,
    }
}

impl Options {
    /// Constructs the options for one invocation.
    pub fn new(message: Option<String>, origin: Option<String>, verbose: bool) -> (opts: Options)
        ensures
            opts.message == message,
            opts.origin == origin,
            opts.verbose == verbose,
    {
        Options { message, origin, verbose }
    }

    /// The branch the push will target: the supplied one, or `"main"`.
    pub fn target_branch(&self) -> (branch: String)
        ensures
            branch@ == spec_target_branch(self@),
    {
        match &self.origin {
            Some(branch) => branch.clone(),
            None => String::from_str("main"),
        }
    }
}

/// Where the run stands. `Done` and `Failed` are terminal; every other state
/// calls for one piece of outside work.
#[derive(Debug)]
pub enum State {
    /// Nothing has happened yet; the repository marker is still unchecked.
    Init,
    /// The marker was found; staging has not run yet.
    CheckedPrecondition,
    /// Staging succeeded; no commit message has been acquired yet.
    Staged,
    /// A non-blank commit message is in hand; the commit has not run yet.
    MessageAcquired(String),
    /// The commit succeeded; the push has not run yet.
    Committed,
    /// Every step succeeded.
    Done,
    /// A step failed; the run stopped there.
    Failed(WorkflowError),
}

/// Mathematical model of a `State`.
pub enum StateView {
    Init,
    CheckedPrecondition,
    Staged,
    MessageAcquired(Seq<char>),
    Committed,
    Done,
    Failed(WorkflowErrorView),
}

impl View for State {
    type V = StateView;

    open spec fn view(&self) -> StateView {
        match self {
            State::Init => StateView::Init,
            State::CheckedPrecondition => StateView::CheckedPrecondition,
            State::Staged => StateView::Staged,
            State::MessageAcquired(message) => StateView::MessageAcquired(message@),
            State::Committed => StateView::Committed,
            State::Done => StateView::Done,
            State::Failed(error) => StateView::Failed(error@),
        }
    }
}

impl DeepView for State {
    type V = StateView;

    open spec fn deep_view(&self) -> StateView {
        self.view()
    }
}

impl State {
    /// Whether the whole workflow completed successfully.
    pub fn succeeded(&self) -> (r: bool)
        ensures
            r == (self@ is Done),
    {
        matches!(self, State::Done)
    }

    /// The process exit status a finished run reports: zero after full
    /// success, one after a failure of any kind.
    pub fn exit_code(&self) -> (code: u8)
        ensures
            code == (if self@ is Done {
                0u8
            } else {
                1u8
            }),
    {
        if matches!(self, State::Done) {
            0
        } else {
            1
        }
    }
}

/// What the prompt produced: a line of text, or a read failure described by
/// the carried text.
#[derive(Debug)]
pub enum PromptOutcome {
    Line(String),
    ReadFailed(String),
}

/// Mathematical model of a `PromptOutcome`.
pub enum PromptOutcomeView {
    Line(Seq<char>),
    ReadFailed(Seq<char>),
}

impl View for PromptOutcome {
    type V = PromptOutcomeView;

    open spec fn view(&self) -> PromptOutcomeView {
        match self {
            PromptOutcome::Line(line) => PromptOutcomeView::Line(line@),
            PromptOutcome::ReadFailed(detail) => PromptOutcomeView::ReadFailed(detail@),
        }
    }
}

impl DeepView for PromptOutcome {
    type V = PromptOutcomeView;

    open spec fn deep_view(&self) -> PromptOutcomeView {
        self.view()
    }
}

/// What the caller reports back after performing an action.
#[derive(Debug)]
pub enum Event {
    /// Whether the repository marker directory is present.
    MarkerChecked(bool),
    /// The staging invocation finished (or could not start).
    StageFinished(ToolOutcome),
    /// The commit message arrived: the supplied text, or the line the user
    /// entered at the prompt.
    MessageRead(PromptOutcome),
    /// The commit invocation finished (or could not start).
    CommitFinished(ToolOutcome),
    /// The push invocation finished (or could not start).
    PushFinished(ToolOutcome),
}

/// Mathematical model of an `Event`.
pub enum EventView {
    MarkerChecked(bool),
    StageFinished(ToolOutcomeView),
    MessageRead(PromptOutcomeView),
    CommitFinished(ToolOutcomeView),
    PushFinished(ToolOutcomeView),
}

impl View for Event {
    type V = EventView;

    open spec fn view(&self) -> EventView {
        match self {
            Event::MarkerChecked(present) => EventView::MarkerChecked(*present),
            Event::StageFinished(outcome) => EventView::StageFinished(outcome@),
            Event::MessageRead(outcome) => EventView::MessageRead(outcome@),
            Event::CommitFinished(outcome) => EventView::CommitFinished(outcome@),
            Event::PushFinished(outcome) => EventView::PushFinished(outcome@),
        }
    }
}

impl DeepView for Event {
    type V = EventView;

    open spec fn deep_view(&self) -> EventView {
        self.view()
    }
}

/// The outside work a state calls for. The caller performs it and reports
/// the matching `Event`.
#[derive(Debug)]
pub enum Action {
    /// Look for the repository marker directory at the working-directory
    /// root.
    CheckRepoMarker,
    /// Run the external tool's "stage everything in the working tree"
    /// operation, with no path filters.
    RunStage,
    /// Produce the commit message: the carried text when one was supplied,
    /// otherwise a line read at an interactive prompt.
    ObtainMessage(Option<String>),
    /// Run the external tool's "create a commit" operation with the carried
    /// message, recording the committer's sign-off alongside it.
    RunCommit(String),
    /// Run the external tool's "push to remote" operation; the first text is
    /// the remote, the second the branch.
    RunPush(String, String),
}

/// Mathematical model of an `Action`.
pub enum ActionView {
    CheckRepoMarker,
    RunStage,
    ObtainMessage(Option<Seq<char>>),
    RunCommit(Seq<char>),
    RunPush(Seq<char>, Seq<char>),
}

impl View for Action {
    type V = ActionView;

    open spec fn view(&self) -> ActionView {
        match self {
            Action::CheckRepoMarker => ActionView::CheckRepoMarker,
            Action::RunStage => ActionView::RunStage,
            Action::ObtainMessage(message) => ActionView::ObtainMessage(message.deep_view()),
            Action::RunCommit(message) => ActionView::RunCommit(message@),
            Action::RunPush(remote, branch) => ActionView::RunPush(remote@, branch@),
        }
    }
}

impl DeepView for Action {
    type V = ActionView;

    open spec fn deep_view(&self) -> ActionView {
        self.view()
    }
}

/// The transition relation of the workflow. An event that does not belong to
/// the current state leaves the state unchanged; in particular the terminal
/// states `Done` and `Failed` absorb every event.
pub open spec fn spec_step(state: StateView, event: EventView) -> StateView {
    match (state, event) {
        (StateView::Init, EventView::MarkerChecked(present)) => if present {
            StateView::CheckedPrecondition
        } else {
            StateView::Failed(WorkflowErrorView::NotARepository)
        },
        (StateView::CheckedPrecondition, EventView::StageFinished(outcome)) => match outcome {
            ToolOutcomeView::Ran(out) => if out.success {
                StateView::Staged
            } else {
                StateView::Failed(WorkflowErrorView::StageFailed(out.stderr))
            },
            ToolOutcomeView::NotStarted(detail) => StateView::Failed(
                WorkflowErrorView::ToolStartFailed(StepKind::Stage, detail),
            ),
        },
        (StateView::Staged, EventView::MessageRead(prompt)) => match prompt {
            PromptOutcomeView::Line(message) => if is_blank(message) {
                StateView::Failed(WorkflowErrorView::EmptyMessage)
            } else {
                StateView::MessageAcquired(message)
            },
            PromptOutcomeView::ReadFailed(detail) => StateView::Failed(
                WorkflowErrorView::InputFailed(detail),
            ),
        },
        (StateView::MessageAcquired(_), EventView::CommitFinished(outcome)) => match outcome {
            ToolOutcomeView::Ran(out) => if out.success {
                StateView::Committed
            } else if occurs_in(out.stderr, spec_nothing_to_commit_marker()) {
                StateView::Failed(WorkflowErrorView::NothingToCommit)
            } else {
                StateView::Failed(WorkflowErrorView::CommitFailed(out.stderr))
            },
            ToolOutcomeView::NotStarted(detail) => StateView::Failed(
                WorkflowErrorView::ToolStartFailed(StepKind::Commit, detail),
            ),
        },
        (StateView::Committed, EventView::PushFinished(outcome)) => match outcome {
            ToolOutcomeView::Ran(out) => if out.success {
                StateView::Done
            } else {
                StateView::Failed(WorkflowErrorView::PushFailed(out.stderr))
            },
            ToolOutcomeView::NotStarted(detail) => StateView::Failed(
                WorkflowErrorView::ToolStartFailed(StepKind::Push, detail),
            ),
        },
        (unchanged, _) => unchanged,
    }
}

/// Moves the workflow to its next state on one reported event.
pub fn step(state: State, event: Event) -> (next: State)
    ensures
        next@ == spec_step(state@, event@),
{
    match (state, event) {
        (State::Init, Event::MarkerChecked(present)) => {
            if present {
                State::CheckedPrecondition
            } else {
                State::Failed(WorkflowError::NotARepository)
            }
        },
        (State::CheckedPrecondition, Event::StageFinished(outcome)) => match outcome {
            ToolOutcome::Ran(out) => {
                if out.success {
                    State::Staged
                } else {
                    State::Failed(WorkflowError::StageFailed(out.stderr))
                }
            },
            ToolOutcome::NotStarted(detail) => State::Failed(
                WorkflowError::ToolStartFailed(StepKind::Stage, detail),
            ),
        },
        (State::Staged, Event::MessageRead(prompt)) => match prompt {
            PromptOutcome::Line(message) => {
                if blank(message.as_str()) {
                    State::Failed(WorkflowError::EmptyMessage)
                } else {
                    State::MessageAcquired(message)
                }
            },
            PromptOutcome::ReadFailed(detail) => State::Failed(WorkflowError::InputFailed(detail)),
        },
        (State::MessageAcquired(message), Event::CommitFinished(outcome)) => match outcome {
            ToolOutcome::Ran(out) => {
                if out.success {
                    State::Committed
                } else if contains_str(out.stderr.as_str(), "nothing to commit") {
                    State::Failed(WorkflowError::NothingToCommit)
                } else {
                    State::Failed(WorkflowError::CommitFailed(out.stderr))
                }
            },
            ToolOutcome::NotStarted(detail) => State::Failed(
                WorkflowError::ToolStartFailed(StepKind::Commit, detail),
            ),
        },
        (State::Committed, Event::PushFinished(outcome)) => match outcome {
            ToolOutcome::Ran(out) => {
                if out.success {
                    State::Done
                } else {
                    State::Failed(WorkflowError::PushFailed(out.stderr))
                }
            },
            ToolOutcome::NotStarted(detail) => State::Failed(
                WorkflowError::ToolStartFailed(StepKind::Push, detail),
            ),
        },
        (unchanged, _) => unchanged,
    }
}

/// The outside work each state calls for: exactly one action per
/// non-terminal state, none for `Done` or `Failed`.
pub open spec fn spec_next_action(opts: OptionsView, state: StateView) -> Option<ActionView> {
    match state {
        StateView::Init => Some(ActionView::CheckRepoMarker),
        StateView::CheckedPrecondition => Some(ActionView::RunStage),
        StateView::Staged => Some(ActionView::ObtainMessage(opts.message)),
        StateView::MessageAcquired(message) => Some(ActionView::RunCommit(message)),
        StateView::Committed => Some(
            ActionView::RunPush("origin"@, spec_target_branch(opts)),
        ),
        StateView::Done => None,
        StateView::Failed(_) => None,
    }
}

/// The state the workflow reaches from `state` after the whole sequence of
/// `events` is reported, one `spec_step` at a time.
pub open spec fn spec_run(state: StateView, events: Seq<EventView>) -> StateView
    decreases events.len(),
{
    if events.len() == 0 {
        state
    } else {
        spec_run(spec_step(state, events[0]), events.skip(1))
    }
}

/// Says what outside work the current state calls for, or `None` once the
/// run is over.
pub fn next_action(opts: &Options, state: &State) -> (action: Option<Action>)
    ensures
        action.deep_view() == spec_next_action(opts@, state@),
{
    match state {
        State::Init => Some(Action::CheckRepoMarker),
        State::CheckedPrecondition => Some(Action::RunStage),
        State::Staged => Some(Action::ObtainMessage(opts.message.clone())),
        State::MessageAcquired(message) => Some(Action::RunCommit(message.clone())),
        State::Committed => Some(
            Action::RunPush(String::from_str("origin"), opts.target_branch()),
        ),
        State::Done => None,
        State::Failed(_) => None,
    }
}

} // verus!
