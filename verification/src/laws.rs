//! The guarantees the workflow gives, stated over the state machine's
//! transition relation and proved once and for all: validation happens before
//! any commit, every failure is terminal, and the push targets the selected
//! branch.

use vstd::prelude::*;

use crate::error::WorkflowErrorView;
use crate::outcome::{StepKind, StepOutputView, ToolOutcomeView};
use crate::text::{is_blank, occurs_in};
use crate::workflow::{
    spec_next_action, spec_nothing_to_commit_marker, spec_run, spec_step, spec_target_branch,
    ActionView, EventView, OptionsView, PromptOutcomeView, StateView,
};

verus! {

/// Law: a failure is final. Once the workflow has failed, no sequence of
/// further events moves it out of the failed state, and no action — no
/// staging, no commit, no push, no prompt — is ever called for again.
pub proof fn lemma_failure_is_final(
    opts: OptionsView,
    error: WorkflowErrorView,
    events: Seq<EventView>,
)
    ensures
        spec_run(StateView::Failed(error), events) == StateView::Failed(error),
        spec_next_action(opts, StateView::Failed(error)) is None,
    decreases events.len(),
{
    if events.len() > 0 {
        lemma_failure_is_final(opts, error, events.skip(1));
    }
}

/// Law: when the repository marker is absent, the run fails at the
/// precondition check, and whatever events are reported afterwards, no
/// action — in particular not one subprocess invocation — is ever called
/// for.
pub proof fn lemma_no_repository_invokes_nothing(opts: OptionsView, events: Seq<EventView>)
    ensures
        spec_step(StateView::Init, EventView::MarkerChecked(false)) == StateView::Failed(
            WorkflowErrorView::NotARepository,
        ),
        spec_run(StateView::Failed(WorkflowErrorView::NotARepository), events) == StateView::Failed(
            WorkflowErrorView::NotARepository,
        ),
        spec_next_action(opts, StateView::Failed(WorkflowErrorView::NotARepository)) is None,
{
    lemma_failure_is_final(opts, WorkflowErrorView::NotARepository, events);
}

/// Law: when staging fails — whether the tool could not start or ran and
/// reported failure — the run stops there, and neither commit nor push is
/// ever invoked.
pub proof fn lemma_stage_failure_stops_run(
    opts: OptionsView,
    outcome: ToolOutcomeView,
    events: Seq<EventView>,
)
    requires
        !(outcome matches ToolOutcomeView::Ran(out) && out.success),
    ensures
        spec_step(StateView::CheckedPrecondition, EventView::StageFinished(outcome)) is Failed,
        spec_run(spec_step(StateView::CheckedPrecondition, EventView::StageFinished(outcome)), events)
            == spec_step(StateView::CheckedPrecondition, EventView::StageFinished(outcome)),
        spec_next_action(
            opts,
            spec_step(StateView::CheckedPrecondition, EventView::StageFinished(outcome)),
        ) is None,
{
    match outcome {
        ToolOutcomeView::Ran(out) => {
            lemma_failure_is_final(opts, WorkflowErrorView::StageFailed(out.stderr), events);
        },
        ToolOutcomeView::NotStarted(detail) => {
            lemma_failure_is_final(
                opts,
                WorkflowErrorView::ToolStartFailed(StepKind::Stage, detail),
                events,
            );
        },
    }
}

/// Law: when the commit step fails — the tool could not start, or ran and
/// reported failure, with or without the "nothing to commit" marker in its
/// stderr — the run stops there, and the push is never invoked.
pub proof fn lemma_commit_failure_stops_run(
    opts: OptionsView,
    message: Seq<char>,
    outcome: ToolOutcomeView,
    events: Seq<EventView>,
)
    requires
        !(outcome matches ToolOutcomeView::Ran(out) && out.success),
    ensures
        spec_step(StateView::MessageAcquired(message), EventView::CommitFinished(outcome))
            is Failed,
        spec_run(
            spec_step(StateView::MessageAcquired(message), EventView::CommitFinished(outcome)),
            events,
        ) == spec_step(StateView::MessageAcquired(message), EventView::CommitFinished(outcome)),
        spec_next_action(
            opts,
            spec_step(StateView::MessageAcquired(message), EventView::CommitFinished(outcome)),
        ) is None,
{
    match outcome {
        ToolOutcomeView::Ran(out) => {
            if occurs_in(out.stderr, spec_nothing_to_commit_marker()) {
                lemma_failure_is_final(opts, WorkflowErrorView::NothingToCommit, events);
            } else {
                lemma_failure_is_final(opts, WorkflowErrorView::CommitFailed(out.stderr), events);
            }
        },
        ToolOutcomeView::NotStarted(detail) => {
            lemma_failure_is_final(
                opts,
                WorkflowErrorView::ToolStartFailed(StepKind::Commit, detail),
                events,
            );
        },
    }
}

/// Law: a message that is not blank — supplied or entered, and however much
/// whitespace surrounds it — passes validation and reaches the commit step
/// exactly as given, untrimmed.
pub proof fn lemma_nonblank_message_commits_verbatim(opts: OptionsView, message: Seq<char>)
    requires
        opts.message == Some(message),
        !is_blank(message),
    ensures
        spec_next_action(opts, StateView::Staged) == Some(
            ActionView::ObtainMessage(Some(message)),
        ),
        spec_step(StateView::Staged, EventView::MessageRead(PromptOutcomeView::Line(message)))
            == StateView::MessageAcquired(message),
        spec_next_action(opts, StateView::MessageAcquired(message)) == Some(
            ActionView::RunCommit(message),
        ),
{
}

/// Law: a message that is empty or whitespace-only fails validation, and the
/// commit step is never invoked afterwards, whatever events arrive.
pub proof fn lemma_blank_message_never_commits(
    opts: OptionsView,
    message: Seq<char>,
    events: Seq<EventView>,
)
    requires
        is_blank(message),
    ensures
        spec_step(StateView::Staged, EventView::MessageRead(PromptOutcomeView::Line(message)))
            == StateView::Failed(WorkflowErrorView::EmptyMessage),
        spec_run(StateView::Failed(WorkflowErrorView::EmptyMessage), events) == StateView::Failed(
            WorkflowErrorView::EmptyMessage,
        ),
        spec_next_action(opts, StateView::Failed(WorkflowErrorView::EmptyMessage)) is None,
{
    lemma_failure_is_final(opts, WorkflowErrorView::EmptyMessage, events);
}

/// Law: when every step succeeds — the marker is present, staging runs and
/// reports success, the message is not blank, and commit and push both run
/// and report success — the run reaches `Done`.
pub proof fn lemma_all_steps_succeeding_reaches_done(
    message: Seq<char>,
    stage: StepOutputView,
    commit: StepOutputView,
    push: StepOutputView,
)
    requires
        !is_blank(message),
        stage.success,
        commit.success,
        push.success,
    ensures
        spec_run(
            StateView::Init,
            seq![
                EventView::MarkerChecked(true),
                EventView::StageFinished(ToolOutcomeView::Ran(stage)),
                EventView::MessageRead(PromptOutcomeView::Line(message)),
                EventView::CommitFinished(ToolOutcomeView::Ran(commit)),
                EventView::PushFinished(ToolOutcomeView::Ran(push)),
            ],
        ) == StateView::Done,
{
    reveal_with_fuel(spec_run, 6);
    let events = seq![
        EventView::MarkerChecked(true),
        EventView::StageFinished(ToolOutcomeView::Ran(stage)),
        EventView::MessageRead(PromptOutcomeView::Line(message)),
        EventView::CommitFinished(ToolOutcomeView::Ran(commit)),
        EventView::PushFinished(ToolOutcomeView::Ran(push)),
    ];
    assert(events.skip(1).skip(1).skip(1).skip(1).skip(1) =~= Seq::<EventView>::empty());
}

/// Law: the push always targets the remote `"origin"`, and its branch is the
/// supplied one when one was given, `"main"` otherwise.
pub proof fn lemma_push_targets_selected_branch(opts: OptionsView)
    ensures
        opts.origin is None ==> spec_next_action(opts, StateView::Committed) == Some(
            ActionView::RunPush("origin"@, "main"@),
        ),
        opts.origin matches Some(branch) ==> spec_next_action(opts, StateView::Committed) == Some(
            ActionView::RunPush("origin"@, branch),
        ),
        spec_next_action(opts, StateView::Committed) == Some(
            ActionView::RunPush("origin"@, spec_target_branch(opts)),
        ),
{
}

} // verus!
