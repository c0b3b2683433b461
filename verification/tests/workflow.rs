use ga::error::WorkflowError;
use ga::outcome::{echo_lines, StepKind, StepOutput, ToolOutcome};
use ga::workflow::{next_action, step, Action, Event, Options, PromptOutcome, State};

fn ran(success: bool, stdout: &str, stderr: &str) -> ToolOutcome {
    ToolOutcome::Ran(StepOutput {
        success,
        stdout: stdout.to_string(),
        stderr: stderr.to_string(),
    })
}

#[test]
fn supplied_message_reaches_commit_untrimmed() {
    let opts = Options::new(Some("  fix bug  ".to_string()), None, false);
    let action = next_action(&opts, &State::Staged);
    match action {
        Some(Action::ObtainMessage(Some(m))) => assert_eq!(m, "  fix bug  "),
        other => panic!("expected the supplied message to be handed out, got {:?}", other),
    }
    let state = step(
        State::Staged,
        Event::MessageRead(PromptOutcome::Line("  fix bug  ".to_string())),
    );
    match &state {
        State::MessageAcquired(m) => assert_eq!(m, "  fix bug  "),
        other => panic!("expected the message to be acquired, got {:?}", other),
    }
    match next_action(&opts, &state) {
        Some(Action::RunCommit(m)) => assert_eq!(m, "  fix bug  "),
        other => panic!("expected a commit with the untrimmed message, got {:?}", other),
    }
}

#[test]
fn empty_message_fails_validation() {
    let state = step(
        State::Staged,
        Event::MessageRead(PromptOutcome::Line("".to_string())),
    );
    match &state {
        State::Failed(e) => {
            assert!(matches!(e, WorkflowError::EmptyMessage));
            assert_eq!(e.message(), "Commit message cannot be empty");
        }
        other => panic!("expected a validation failure, got {:?}", other),
    }
    let opts = Options::new(Some("".to_string()), None, false);
    assert!(next_action(&opts, &state).is_none());
}

#[test]
fn whitespace_only_message_fails_validation() {
    let state = step(
        State::Staged,
        Event::MessageRead(PromptOutcome::Line(" \t\n ".to_string())),
    );
    assert!(matches!(
        state,
        State::Failed(WorkflowError::EmptyMessage)
    ));
}

#[test]
fn prompt_read_failure_aborts() {
    let state = step(
        State::Staged,
        Event::MessageRead(PromptOutcome::ReadFailed("stream closed".to_string())),
    );
    match &state {
        State::Failed(e) => {
            assert_eq!(e.message(), "Failed to read input: stream closed");
        }
        other => panic!("expected an input failure, got {:?}", other),
    }
}

#[test]
fn missing_repository_marker_stops_everything() {
    let opts = Options::new(Some("msg".to_string()), None, false);
    let state = step(State::Init, Event::MarkerChecked(false));
    match &state {
        State::Failed(e) => {
            assert!(matches!(e, WorkflowError::NotARepository));
            assert_eq!(
                e.message(),
                "Not a git repository. No .git directory found."
            );
        }
        other => panic!("expected a precondition failure, got {:?}", other),
    }
    // no action — so zero subprocess invocations — from here on
    assert!(next_action(&opts, &state).is_none());
}

#[test]
fn stage_failure_stops_commit_and_push() {
    let opts = Options::new(Some("msg".to_string()), None, false);
    let state = step(
        State::CheckedPrecondition,
        Event::StageFinished(ran(false, "", "fatal: index locked")),
    );
    match &state {
        State::Failed(e) => {
            assert_eq!(e.message(), "git add failed: fatal: index locked");
        }
        other => panic!("expected a staging failure, got {:?}", other),
    }
    assert!(next_action(&opts, &state).is_none());
}

#[test]
fn stage_launch_failure_stops_the_run() {
    let state = step(
        State::CheckedPrecondition,
        Event::StageFinished(ToolOutcome::NotStarted("No such file or directory".to_string())),
    );
    match &state {
        State::Failed(e) => {
            assert!(matches!(e, WorkflowError::ToolStartFailed(StepKind::Stage, _)));
            assert_eq!(
                e.message(),
                "Failed to execute git add: No such file or directory"
            );
        }
        other => panic!("expected a launch failure, got {:?}", other),
    }
}

#[test]
fn commit_failure_stops_push() {
    let opts = Options::new(Some("msg".to_string()), None, false);
    let state = step(
        State::MessageAcquired("msg".to_string()),
        Event::CommitFinished(ran(false, "", "fatal: unable to write commit")),
    );
    match &state {
        State::Failed(e) => {
            assert_eq!(
                e.message(),
                "git commit failed: fatal: unable to write commit"
            );
        }
        other => panic!("expected a commit failure, got {:?}", other),
    }
    assert!(next_action(&opts, &state).is_none());
}

#[test]
fn push_defaults_to_main() {
    let opts = Options::new(Some("msg".to_string()), None, false);
    assert_eq!(opts.target_branch(), "main");
    match next_action(&opts, &State::Committed) {
        Some(Action::RunPush(remote, branch)) => {
            assert_eq!(remote, "origin");
            assert_eq!(branch, "main");
        }
        other => panic!("expected a push, got {:?}", other),
    }
}

#[test]
fn push_targets_supplied_branch() {
    let opts = Options::new(Some("msg".to_string()), Some("feature-x".to_string()), false);
    assert_eq!(opts.target_branch(), "feature-x");
    match next_action(&opts, &State::Committed) {
        Some(Action::RunPush(remote, branch)) => {
            assert_eq!(remote, "origin");
            assert_eq!(branch, "feature-x");
        }
        other => panic!("expected a push, got {:?}", other),
    }
}

#[test]
fn full_run_succeeds_with_supplied_message() {
    let opts = Options::new(Some("fix bug".to_string()), None, false);
    let mut state = State::Init;

    assert!(matches!(next_action(&opts, &state), Some(Action::CheckRepoMarker)));
    state = step(state, Event::MarkerChecked(true));
    assert!(matches!(state, State::CheckedPrecondition));

    assert!(matches!(next_action(&opts, &state), Some(Action::RunStage)));
    state = step(state, Event::StageFinished(ran(true, "", "")));
    assert!(matches!(state, State::Staged));

    let supplied = match next_action(&opts, &state) {
        Some(Action::ObtainMessage(m)) => m,
        other => panic!("expected to obtain a message, got {:?}", other),
    };
    assert_eq!(supplied.as_deref(), Some("fix bug"));
    state = step(state, Event::MessageRead(PromptOutcome::Line(supplied.unwrap())));

    match next_action(&opts, &state) {
        Some(Action::RunCommit(m)) => assert_eq!(m, "fix bug"),
        other => panic!("expected a commit, got {:?}", other),
    }
    state = step(state, Event::CommitFinished(ran(true, "[main 123abc] fix bug", "")));
    assert!(matches!(state, State::Committed));

    match next_action(&opts, &state) {
        Some(Action::RunPush(remote, branch)) => {
            assert_eq!(remote, "origin");
            assert_eq!(branch, "main");
        }
        other => panic!("expected a push, got {:?}", other),
    }
    state = step(state, Event::PushFinished(ran(true, "", "To github: main -> main")));
    assert!(matches!(state, State::Done));
    assert!(state.succeeded());
    assert!(next_action(&opts, &state).is_none());
}

#[test]
fn nothing_to_commit_is_reported_specifically() {
    let opts = Options::new(Some("noop".to_string()), None, false);
    let mut state = State::Init;
    state = step(state, Event::MarkerChecked(true));
    state = step(state, Event::StageFinished(ran(true, "", "")));
    state = step(state, Event::MessageRead(PromptOutcome::Line("noop".to_string())));
    state = step(
        state,
        Event::CommitFinished(ran(
            false,
            "",
            "On branch main\nnothing to commit, working tree clean\n",
        )),
    );
    match &state {
        State::Failed(e) => {
            assert!(matches!(e, WorkflowError::NothingToCommit));
            assert_eq!(e.message(), "Nothing to commit, working tree clean");
        }
        other => panic!("expected the specific nothing-to-commit failure, got {:?}", other),
    }
    // the push is never attempted
    assert!(next_action(&opts, &state).is_none());
    assert!(!state.succeeded());
}

#[test]
fn empty_supplied_message_fails_after_staging() {
    // staging precedes message acquisition, so it may have run; the
    // validation error comes before any commit attempt
    let opts = Options::new(Some("".to_string()), None, false);
    let mut state = State::Init;
    state = step(state, Event::MarkerChecked(true));
    state = step(state, Event::StageFinished(ran(true, "", "")));
    let supplied = match next_action(&opts, &state) {
        Some(Action::ObtainMessage(m)) => m,
        other => panic!("expected to obtain a message, got {:?}", other),
    };
    assert_eq!(supplied.as_deref(), Some(""));
    state = step(state, Event::MessageRead(PromptOutcome::Line(supplied.unwrap())));
    assert!(matches!(
        state,
        State::Failed(WorkflowError::EmptyMessage)
    ));
    assert!(next_action(&opts, &state).is_none());
}

#[test]
fn push_failure_is_reported() {
    let state = step(
        State::Committed,
        Event::PushFinished(ran(false, "", "remote: permission denied")),
    );
    match &state {
        State::Failed(e) => {
            assert_eq!(e.message(), "git push failed: remote: permission denied");
        }
        other => panic!("expected a push failure, got {:?}", other),
    }
}

#[test]
fn exit_code_is_zero_only_on_full_success() {
    assert_eq!(State::Done.exit_code(), 0);
    assert_eq!(State::Failed(WorkflowError::NotARepository).exit_code(), 1);
    assert_eq!(
        State::Failed(WorkflowError::PushFailed("denied".to_string())).exit_code(),
        1
    );
}

#[test]
fn terminal_states_absorb_events() {
    let done = step(State::Done, Event::MarkerChecked(false));
    assert!(matches!(done, State::Done));
    let failed = step(
        State::Failed(WorkflowError::NotARepository),
        Event::PushFinished(ran(true, "", "")),
    );
    assert!(matches!(failed, State::Failed(WorkflowError::NotARepository)));
}

#[test]
fn mismatched_events_leave_the_state_unchanged() {
    let state = step(State::Init, Event::PushFinished(ran(true, "", "")));
    assert!(matches!(state, State::Init));
    let state = step(State::Staged, Event::MarkerChecked(true));
    assert!(matches!(state, State::Staged));
}

#[test]
fn echo_is_silent_without_verbose() {
    let out = StepOutput {
        success: true,
        stdout: "staged 3 files".to_string(),
        stderr: "warning".to_string(),
    };
    assert!(echo_lines(StepKind::Stage, false, &out).is_empty());
    assert!(echo_lines(StepKind::Commit, false, &out).is_empty());
    assert!(echo_lines(StepKind::Push, false, &out).is_empty());
}

#[test]
fn stage_echoes_only_nonempty_stdout() {
    let quiet = StepOutput {
        success: true,
        stdout: "".to_string(),
        stderr: "".to_string(),
    };
    assert!(echo_lines(StepKind::Stage, true, &quiet).is_empty());
    let chatty = StepOutput {
        success: true,
        stdout: "add 'src/main.rs'".to_string(),
        stderr: "".to_string(),
    };
    assert_eq!(echo_lines(StepKind::Stage, true, &chatty), vec!["add 'src/main.rs'"]);
}

#[test]
fn commit_echoes_stdout_even_when_empty() {
    let quiet = StepOutput {
        success: true,
        stdout: "".to_string(),
        stderr: "".to_string(),
    };
    assert_eq!(echo_lines(StepKind::Commit, true, &quiet), vec![""]);
}

#[test]
fn push_echoes_both_streams_in_order() {
    let out = StepOutput {
        success: true,
        stdout: "Everything up-to-date".to_string(),
        stderr: "To github.example: main -> main".to_string(),
    };
    assert_eq!(
        echo_lines(StepKind::Push, true, &out),
        vec!["Everything up-to-date", "To github.example: main -> main"]
    );
    let only_err = StepOutput {
        success: true,
        stdout: "".to_string(),
        stderr: "To github.example: main -> main".to_string(),
    };
    assert_eq!(
        echo_lines(StepKind::Push, true, &only_err),
        vec!["To github.example: main -> main"]
    );
}
