use tui::app::selection::{default_branch_index, BranchInfo};
use tui::app::history::{refresh_conversation_history, ConversationPlan};
use tui::app::update::{handle_net_event, NetEvent, SyncEffect, SyncState};
use tui::model::dto::WorkspaceSummary;
use tui::model::process::{ProcessAction, ProcessInfo, ProcessStatus};
use tui::model::{Focus, WorkspaceActionKind};

fn process(id: u128, second: i64) -> ProcessInfo {
    ProcessInfo {
        id,
        created_secs: second,
        created_nanos: 0,
        dev_server: false,
        status: ProcessStatus::Completed,
        dropped: false,
        action: ProcessAction::ScriptRequest,
    }
}

fn summary(workspace_id: u128, pending: bool) -> WorkspaceSummary {
    WorkspaceSummary {
        workspace_id,
        project_id: None,
        project_name: None,
        remote_project_id: None,
        latest_session_id: Some(99),
        has_pending_approval: pending,
        files_changed: Some(3),
        lines_added: Some(10),
        lines_removed: Some(4),
        latest_process_completed_at: Some((5, 0)),
        latest_process_status: Some(ProcessStatus::Completed),
        has_running_dev_server: false,
        has_unseen_turns: true,
        pr_status: None,
        pr_number: None,
        pr_url: None,
    }
}

#[test]
fn sessions_loaded_preserves_existing_selection_when_still_present() {
    let mut state = SyncState::new();
    state.selection.workspace_id = Some(1);
    state.selection.session_id = Some(20);
    state.data.processes = vec![process(7, 1)];

    let outcome = handle_net_event(&mut state, NetEvent::SessionsLoaded {
        workspace_id: 1,
        session_ids: vec![10, 20],
    });

    assert_eq!(state.selection.session_id, Some(20));
    assert!(!outcome.effects.contains(&SyncEffect::ClearLogs));
    assert_eq!(state.data.processes.len(), 1);
}

#[test]
fn sessions_loaded_falls_back_and_clears_process_state_when_selection_disappears() {
    let mut state = SyncState::new();
    state.selection.workspace_id = Some(1);
    state.selection.session_id = Some(30);
    state.selection.process_id = Some(7);
    state.data.processes = vec![process(7, 1)];

    let outcome = handle_net_event(&mut state, NetEvent::SessionsLoaded {
        workspace_id: 1,
        session_ids: vec![10],
    });

    assert_eq!(state.selection.session_id, Some(10));
    assert!(state.data.processes.is_empty());
    assert!(outcome.effects.contains(&SyncEffect::ClearLogs));
    assert!(state.selection.process_id.is_none());
}

#[test]
fn draft_loaded_does_not_overwrite_local_dirty_edits() {
    let mut state = SyncState::new();
    state.selection.session_id = Some(5);
    state.composer.dirty = true;
    state.composer.scratch_loaded = true;

    let outcome = handle_net_event(&mut state, NetEvent::DraftLoaded {
        scratch_id: 5,
        draft: Some("remote".to_string()),
    });

    assert!(outcome.effects.is_empty());
    assert!(outcome.draft_text.is_none());
    assert!(state.composer.dirty);
}

#[test]
fn queued_session_ignores_non_empty_draft_reload() {
    let mut state = SyncState::new();
    state.selection.session_id = Some(5);
    state.queue.queued = true;

    let outcome = handle_net_event(&mut state, NetEvent::DraftLoaded {
        scratch_id: 5,
        draft: Some("stale".to_string()),
    });

    assert!(outcome.draft_text.is_none());
    assert!(!state.composer.scratch_loaded);
}

#[test]
fn draft_loaded_applies_remote_draft_without_trailing_newlines() {
    let mut state = SyncState::new();
    state.selection.session_id = Some(5);
    state.composer.dirty = true;

    let outcome = handle_net_event(&mut state, NetEvent::DraftLoaded {
        scratch_id: 5,
        draft: Some("hello\n\n".to_string()),
    });

    assert_eq!(outcome.effects, vec![SyncEffect::ApplyDraft]);
    assert_eq!(outcome.draft_text.as_deref(), Some("hello"));
    assert!(state.composer.scratch_loaded);
    assert!(!state.composer.dirty);
}

#[test]
fn prompt_submission_failed_restores_composer_and_clears_in_flight_flag() {
    let mut state = SyncState::new();
    state.actions.prompt_submit = true;

    let outcome = handle_net_event(&mut state, NetEvent::PromptSubmissionFailed {
        message: "backend slow".to_string(),
        restored_draft: "retry me".to_string(),
        optimistic_id: Some(42),
    });

    assert!(!state.actions.prompt_submit);
    assert_eq!(outcome.draft_text.as_deref(), Some("retry me"));
    assert_eq!(outcome.focus, Some(Focus::Composer));
    assert_eq!(state.feedback.status, "backend slow");
    assert_eq!(outcome.effects, vec![SyncEffect::MarkOptimisticFailed(42), SyncEffect::ApplyDraft]);
}

#[test]
fn queued_prompt_event_clears_composer_and_in_flight_flag() {
    let mut state = SyncState::new();
    state.selection.session_id = Some(5);
    state.composer.dirty = true;
    state.actions.queue_mutation = true;

    let outcome = handle_net_event(&mut state, NetEvent::QueuedPrompt { session_id: 5, queued: false });

    assert!(!state.actions.queue_mutation);
    assert!(outcome.effects.contains(&SyncEffect::ClearComposer));
    assert!(!state.composer.dirty);
    assert_eq!(outcome.focus, Some(Focus::Main));
    assert_eq!(state.feedback.status, "Queued follow-up");
}

#[test]
fn processes_updated_selects_latest_active_process_and_clears_logs_on_change() {
    let mut state = SyncState::new();
    state.selection.session_id = Some(5);
    state.selection.process_id = Some(1);
    state.data.processes = vec![process(1, 1)];

    let outcome = handle_net_event(&mut state, NetEvent::ProcessesUpdated {
        session_id: 5,
        processes: vec![process(1, 1), process(2, 2)],
    });

    assert_eq!(state.selection.process_id, Some(2));
    assert!(outcome.effects.contains(&SyncEffect::ClearLogs));
    assert!(state.queue.pending);
    assert!(outcome.effects.contains(&SyncEffect::LoadQueueStatus(5)));
    assert!(outcome.effects.contains(&SyncEffect::ChatCacheDirty));
    assert!(outcome.effects.contains(&SyncEffect::RefreshConversationHistory));
    let plan = refresh_conversation_history(&mut state);
    assert_eq!(state.conversation.order, vec![1, 2]);
    match plan {
        ConversationPlan::Reload { recent, remaining } => {
            assert_eq!(recent, vec![1, 2]);
            assert!(remaining.is_empty());
        },
        other => panic!("unexpected plan {other:?}"),
    }
    assert!(state.conversation.bootstrapping);
}

#[test]
fn conversation_refresh_orders_processes_and_keeps_loaded_logs() {
    let mut state = SyncState::new();
    assert!(matches!(refresh_conversation_history(&mut state), ConversationPlan::Cleared));
    state.selection.session_id = Some(5);
    let mut dev = process(4, 0);
    dev.dev_server = true;
    let mut dropped = process(3, 0);
    dropped.dropped = true;
    state.data.processes = vec![process(2, 20), dev, process(1, 10), dropped, process(6, 10)];
    state.conversation.loaded = vec![6, 9];
    let plan = refresh_conversation_history(&mut state);
    assert_eq!(state.conversation.order, vec![1, 6, 2]);
    assert_eq!(state.conversation.loaded, vec![6]);
    match plan {
        ConversationPlan::Reload { recent, remaining } => {
            assert_eq!(recent, vec![1, 6, 2]);
            assert!(remaining.is_empty());
        },
        other => panic!("unexpected plan {other:?}"),
    }
    state.conversation.loaded = vec![1, 2, 6];
    assert!(matches!(refresh_conversation_history(&mut state), ConversationPlan::Unchanged));
    state.data.processes.clear();
    assert!(matches!(refresh_conversation_history(&mut state), ConversationPlan::Emptied));
    assert!(!state.conversation.bootstrapping);
}

#[test]
fn processes_updated_keeps_previous_selection_when_only_dev_server_remains_active() {
    let mut state = SyncState::new();
    state.selection.session_id = Some(5);
    state.selection.process_id = Some(1);
    let mut dev_server = process(2, 2);
    dev_server.dev_server = true;
    let mut only_dev = process(1, 1);
    only_dev.dev_server = true;

    handle_net_event(&mut state, NetEvent::ProcessesUpdated {
        session_id: 5,
        processes: vec![only_dev, dev_server],
    });

    assert_eq!(state.selection.process_id, Some(1));
}

#[test]
fn draft_save_failed_sets_queue_conflict_only_for_matching_revision() {
    let mut state = SyncState::new();
    state.selection.session_id = Some(5);
    state.composer.edit_revision = 4;
    state.composer.draft_save_in_flight = true;

    handle_net_event(&mut state, NetEvent::DraftSaveFailed {
        scratch_id: 5,
        revision: 4,
        message: "queued message exists".to_string(),
    });
    assert!(state.composer.queue_conflict);
    assert!(!state.composer.draft_save_in_flight);

    state.composer.queue_conflict = false;
    state.composer.draft_save_in_flight = true;
    handle_net_event(&mut state, NetEvent::DraftSaveFailed {
        scratch_id: 5,
        revision: 3,
        message: "queued message exists".to_string(),
    });
    assert!(!state.composer.queue_conflict);
    assert!(!state.composer.draft_save_in_flight);
}

#[test]
fn notes_save_events_only_apply_for_matching_workspace_and_revision() {
    let mut state = SyncState::new();
    state.selection.workspace_id = Some(1);
    state.notes.edit_revision = 8;
    state.notes.save_in_flight = true;
    state.notes.dirty = true;
    state.notes.edited = true;

    handle_net_event(&mut state, NetEvent::NotesSaved { workspace_id: 1, revision: 8 });
    assert!(!state.notes.dirty);
    assert!(!state.notes.edited);
    assert!(!state.notes.save_in_flight);

    state.notes.dirty = true;
    state.notes.save_in_flight = true;
    state.feedback.error = None;
    handle_net_event(&mut state, NetEvent::NotesSaveFailed {
        workspace_id: 2,
        revision: 8,
        message: "ignore me".to_string(),
    });
    assert!(state.feedback.error.is_none());
    assert!(state.notes.save_in_flight);

    handle_net_event(&mut state, NetEvent::NotesSaveFailed {
        workspace_id: 1,
        revision: 7,
        message: "stale".to_string(),
    });
    assert!(state.feedback.error.is_none());
    assert!(!state.notes.save_in_flight);
}

#[test]
fn identical_summaries_do_not_invalidate_workspace_list() {
    let mut state = SyncState::new();
    state.data.summaries = vec![summary(1, true)];
    let outcome = handle_net_event(&mut state, NetEvent::Summaries(vec![summary(1, true)]));
    assert!(!outcome.effects.contains(&SyncEffect::WorkspaceListDirty));
}

#[test]
fn changed_summaries_invalidate_workspace_list() {
    let mut state = SyncState::new();
    state.data.summaries = vec![summary(1, false)];
    let outcome = handle_net_event(&mut state, NetEvent::Summaries(vec![summary(1, true)]));
    assert_eq!(outcome.effects, vec![SyncEffect::WorkspaceListDirty]);
    assert!(state.data.summaries[0].has_pending_approval);
    let outcome = handle_net_event(&mut state, NetEvent::Summaries(vec![summary(2, false)]));
    assert_eq!(outcome.effects, vec![SyncEffect::WorkspaceListDirty]);
    assert_eq!(state.data.summaries.len(), 2);
}

#[test]
fn logs_for_other_processes_are_not_stored() {
    let mut state = SyncState::new();
    state.selection.process_id = Some(1);
    state.conversation.order = vec![1];
    let outcome = handle_net_event(&mut state, NetEvent::LogsUpdated { process_id: 1 });
    assert_eq!(outcome.effects, vec![
        SyncEffect::CaptureChatAnchor,
        SyncEffect::StoreLogs,
        SyncEffect::LogsDirty,
        SyncEffect::StoreConversationEntries,
        SyncEffect::ReconcileConversation,
        SyncEffect::ChatCacheDirty,
        SyncEffect::RestoreChatAnchor,
    ]);
    assert_eq!(state.conversation.loaded, vec![1]);
    let outcome = handle_net_event(&mut state, NetEvent::LogsUpdated { process_id: 9 });
    assert_eq!(outcome.effects, vec![SyncEffect::CaptureChatAnchor]);
}

#[test]
fn bootstrap_completion_starts_backfill_while_logs_are_missing() {
    let mut state = SyncState::new();
    state.selection.session_id = Some(5);
    state.conversation.order = vec![1, 2];
    state.conversation.bootstrapping = true;
    handle_net_event(&mut state, NetEvent::ConversationHistoryLoaded { session_id: 5, process_id: 2 });
    handle_net_event(&mut state, NetEvent::ConversationBootstrapComplete { session_id: 5 });
    assert!(!state.conversation.bootstrapping);
    assert!(state.conversation.backfilling);
    handle_net_event(&mut state, NetEvent::ConversationBackfillComplete { session_id: 5 });
    assert!(!state.conversation.backfilling);
}

#[test]
fn workspace_actions_report_and_clear_their_flag() {
    let mut state = SyncState::new();
    state.actions.pin_toggle = true;
    handle_net_event(&mut state, NetEvent::WorkspaceActionFinished {
        kind: WorkspaceActionKind::TogglePinned,
        success: false,
        message: "nope".to_string(),
    });
    assert!(!state.actions.pin_toggle);
    assert_eq!(state.feedback.error.as_deref(), Some("nope"));
    handle_net_event(&mut state, NetEvent::WorkspaceActionFinished {
        kind: WorkspaceActionKind::RunCleanup,
        success: true,
        message: "done".to_string(),
    });
    assert!(state.feedback.error.is_none());
    assert_eq!(state.feedback.status, "done");
}

#[test]
fn terminal_events_follow_the_selected_workspace() {
    let mut state = SyncState::new();
    state.selection.workspace_id = Some(1);
    handle_net_event(&mut state, NetEvent::TerminalConnected { workspace_id: 1 });
    assert!(state.terminal.connected);
    handle_net_event(&mut state, NetEvent::TerminalError { workspace_id: 2, error: "x".to_string() });
    assert!(state.terminal.connected);
    handle_net_event(&mut state, NetEvent::TerminalError { workspace_id: 1, error: "gone".to_string() });
    assert!(!state.terminal.connected);
    assert_eq!(state.terminal.error.as_deref(), Some("gone"));
}

#[test]
fn notes_loaded_puts_cursor_at_end_unless_dirty() {
    let mut state = SyncState::new();
    state.selection.workspace_id = Some(1);
    handle_net_event(&mut state, NetEvent::NotesLoaded { workspace_id: 1, notes: "a§".to_string() });
    assert_eq!(state.notes.text, "a§");
    assert_eq!(state.notes.cursor, 3);
    state.notes.dirty = true;
    handle_net_event(&mut state, NetEvent::NotesLoaded { workspace_id: 1, notes: "b".to_string() });
    assert_eq!(state.notes.text, "a§");
}

#[test]
fn diffs_update_clamps_selection() {
    let mut state = SyncState::new();
    state.selection.workspace_id = Some(1);
    state.data.selected_diff_index = 5;
    handle_net_event(&mut state, NetEvent::DiffsUpdated { workspace_id: 1, count: 3 });
    assert_eq!(state.data.selected_diff_index, 2);
    handle_net_event(&mut state, NetEvent::DiffsUpdated { workspace_id: 1, count: 0 });
    assert_eq!(state.data.selected_diff_index, 0);
}

#[test]
fn summaries_of_one_workspace_are_kept_once() {
    let mut state = SyncState::new();
    let mut first = summary(1, false);
    first.files_changed = Some(1);
    let mut second = summary(1, true);
    second.files_changed = Some(2);
    handle_net_event(&mut state, NetEvent::Summaries(vec![first, summary(2, false), second]));
    assert_eq!(state.data.summaries.len(), 2);
    assert_eq!(state.data.summaries[0].workspace_id, 1);
    assert_eq!(state.data.summaries[0].files_changed, Some(2));
    handle_net_event(&mut state, NetEvent::Summaries(vec![summary(2, true)]));
    assert_eq!(state.data.summaries.len(), 2);
    assert!(state.data.summaries[1].has_pending_approval);
}

#[test]
fn branch_picker_starts_on_target_then_current_then_first() {
    let branch = |name: &str, is_current: bool| BranchInfo { name: name.to_string(), is_current };
    let branches = vec![branch("dev", false), branch("feature", true), branch("main", false)];
    assert_eq!(default_branch_index(&branches, &"main".to_string()), 2);
    assert_eq!(default_branch_index(&branches, &"release".to_string()), 1);
    let none_current = vec![branch("a", false), branch("b", false)];
    assert_eq!(default_branch_index(&none_current, &"z".to_string()), 0);
    assert_eq!(default_branch_index(&[], &"main".to_string()), 0);
}
