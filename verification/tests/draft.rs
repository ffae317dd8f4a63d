use tui::app::update::{ActionsInFlight, ComposerSync, NotesSync, QueueSync, Selection};
use tui::composer::config::{sync_composer_executor_with_session, ComposerConfig, ExecutorSync};
use tui::composer::draft::{
    current_composer_scratch_id, current_queue_session_id, plan_cancel_queued_prompt,
    plan_discard_draft, plan_queue_prompt, plan_submit_prompt, sync_composer_context, CancelPlan,
    DiscardPlan, QueuePlan, SubmitPlan,
};

fn composer() -> ComposerSync {
    ComposerSync {
        scratch_loaded: true,
        dirty: false,
        edited: false,
        edit_revision: 0,
        queue_conflict: false,
        draft_save_in_flight: false,
    }
}

fn actions() -> ActionsInFlight {
    ActionsInFlight {
        prompt_submit: false,
        queue_mutation: false,
        pin_toggle: false,
        archive_toggle: false,
        stop_execution: false,
        dev_server: false,
        cleanup: false,
        open_editor: false,
    }
}

fn selection(workspace_id: Option<u128>, session_id: Option<u128>, creating_new_session: bool) -> Selection {
    Selection {
        workspace_id,
        creating_workspace: false,
        workspace_create_open: false,
        branch_picker_repo: None,
        creating_new_session,
        session_id,
        process_id: None,
    }
}

#[test]
fn flush_draft_if_needed_clears_impossible_state_without_scratch() {
    let mut state = composer();
    state.dirty = true;
    state.draft_save_in_flight = true;
    state.edited = true;
    state.scratch_loaded = false;

    assert_eq!(state.flush_draft_if_needed(None, 0, false, true), (true, None));
    assert!(!state.dirty);
    assert!(!state.draft_save_in_flight);
    assert!(!state.edited);
    assert!(state.scratch_loaded);
    assert_eq!(state.flush_draft_if_needed(None, 0, false, true), (false, None));
}

#[test]
fn flush_draft_if_needed_marks_queue_conflict_once() {
    let mut state = composer();
    state.dirty = true;
    state.edited = true;
    assert_eq!(state.flush_draft_if_needed(Some(5), 600, true, true), (true, None));
    assert!(state.queue_conflict);
    assert_eq!(state.flush_draft_if_needed(Some(5), 600, true, true), (false, None));
}

#[test]
fn flush_draft_waits_for_a_pause_then_saves_once() {
    let mut state = composer();
    state.dirty = true;
    state.edited = true;
    assert_eq!(state.flush_draft_if_needed(Some(5), 499, false, true), (false, None));
    assert_eq!(state.flush_draft_if_needed(Some(5), 500, false, false), (false, None));
    assert_eq!(state.flush_draft_if_needed(Some(5), 500, false, true), (true, Some(5)));
    assert!(state.draft_save_in_flight);
    assert_eq!(state.flush_draft_if_needed(Some(5), 900, false, true), (false, None));
}

#[test]
fn notes_are_saved_after_a_longer_pause() {
    let mut notes = NotesSync {
        text: "n".to_string(),
        cursor: 0,
        dirty: true,
        edited: true,
        edit_revision: 3,
        save_in_flight: false,
    };
    assert!(!notes.flush_notes_if_needed(Some(1), 899));
    assert!(!notes.flush_notes_if_needed(None, 2000));
    assert!(notes.flush_notes_if_needed(Some(1), 900));
    assert!(notes.save_in_flight);
    assert!(!notes.flush_notes_if_needed(Some(1), 2000));
}

#[test]
fn submit_prompt_checks_in_order() {
    let mut a = actions();
    assert_eq!(
        plan_submit_prompt(&mut a, true, None, "x", false, false, true),
        SubmitPlan::CreateWorkspace
    );
    assert_eq!(plan_submit_prompt(&mut a, false, None, "x", false, false, true), SubmitPlan::NoWorkspace);
    assert_eq!(plan_submit_prompt(&mut a, false, Some(1), "  \n", false, false, true), SubmitPlan::Blank);
    assert_eq!(plan_submit_prompt(&mut a, false, Some(1), "go", true, false, true), SubmitPlan::Queue);
    assert_eq!(
        plan_submit_prompt(&mut a, false, Some(1), "go", true, true, false),
        SubmitPlan::ConfigLoading
    );
    assert!(!a.prompt_submit);
    assert_eq!(
        plan_submit_prompt(&mut a, false, Some(1), "  go on ", true, true, true),
        SubmitPlan::Send { workspace_id: 1, prompt: "go on".to_string(), workspace_scope: Some(1) }
    );
    assert!(a.prompt_submit);
    assert_eq!(plan_submit_prompt(&mut a, false, Some(1), "again", false, false, true), SubmitPlan::Busy);
}

#[test]
fn queue_cancel_and_discard_guard_the_queue_action() {
    let mut a = actions();
    assert_eq!(plan_queue_prompt(&mut a, None, "x", true, None), QueuePlan::NoSession);
    assert_eq!(plan_queue_prompt(&mut a, Some(2), "   ", true, None), QueuePlan::Empty);
    assert_eq!(plan_queue_prompt(&mut a, Some(2), "x", false, None), QueuePlan::ConfigLoading);
    assert_eq!(
        plan_queue_prompt(&mut a, Some(2), " next ", true, Some(2)),
        QueuePlan::Queue { session_id: 2, prompt: "next".to_string(), scratch_id: Some(2) }
    );
    assert!(a.queue_mutation);
    assert_eq!(plan_cancel_queued_prompt(&mut a, Some(2)), CancelPlan::Busy);
    let mut c = composer();
    c.dirty = true;
    assert_eq!(plan_discard_draft(&mut a, &mut c, Some(2)), DiscardPlan::Busy);
    assert!(c.dirty);

    let mut a = actions();
    assert_eq!(plan_cancel_queued_prompt(&mut a, None), CancelPlan::NoSession);
    assert_eq!(plan_cancel_queued_prompt(&mut a, Some(4)), CancelPlan::Cancel { session_id: 4 });
    let mut a = actions();
    assert_eq!(plan_discard_draft(&mut a, &mut c, None), DiscardPlan::Cleared);
    assert!(!c.dirty);
    assert!(!a.queue_mutation);
    assert_eq!(plan_discard_draft(&mut a, &mut c, Some(9)), DiscardPlan::Delete { scratch_id: 9 });
    assert!(a.queue_mutation);
}

#[test]
fn scratch_and_queue_follow_the_selection() {
    let new_session = selection(Some(1), Some(2), true);
    assert_eq!(current_composer_scratch_id(&new_session), Some(1));
    assert_eq!(current_queue_session_id(&new_session), None);
    let existing = selection(Some(1), Some(2), false);
    assert_eq!(current_composer_scratch_id(&existing), Some(2));
    assert_eq!(current_queue_session_id(&existing), Some(2));

    let mut scratch = Some(2);
    let mut c = composer();
    c.dirty = true;
    let mut q = QueueSync { session_id: Some(2), queued: true, pending: false };
    let sync = sync_composer_context(&new_session, &mut scratch, &mut c, &mut q);
    assert!(sync.scratch_changed);
    assert_eq!(scratch, Some(1));
    assert!(!c.dirty);
    assert!(!c.scratch_loaded);
    assert_eq!(sync.load_queue, None);
    assert!(!sync.queue_cleared);
    assert_eq!(q.session_id, None);
    assert!(!q.queued);

    let sync = sync_composer_context(&existing, &mut scratch, &mut c, &mut q);
    assert!(sync.scratch_changed);
    assert_eq!(sync.load_queue, Some(2));
    assert!(q.pending);
}

#[test]
fn composer_follows_the_session_executor_unless_busy() {
    let mut cfg = Some(ComposerConfig {
        executor: "CODEX".to_string(),
        variant: Some("PLAN".to_string()),
        model_id: None,
        agent_id: None,
        reasoning_id: None,
        permission_policy: None,
    });
    let mut options = None;
    assert_eq!(
        sync_composer_executor_with_session(false, true, true, false, Some("CLAUDE_CODE".to_string()), &mut cfg, &mut options),
        ExecutorSync::Keep
    );
    assert_eq!(
        sync_composer_executor_with_session(false, false, true, false, Some("CODEX".to_string()), &mut cfg, &mut options),
        ExecutorSync::Rebind
    );
    assert_eq!(
        sync_composer_executor_with_session(false, false, true, false, Some("CLAUDE_CODE".to_string()), &mut cfg, &mut options),
        ExecutorSync::Reset
    );
    assert_eq!(cfg.as_ref().unwrap().executor, "CLAUDE_CODE");
    assert_eq!(cfg.as_ref().unwrap().variant, None);
}
