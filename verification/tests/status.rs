use tui::app::status::{
    clock_time, composer_selection, draft_status_label, draft_tone, queue_status_label, queue_tone, Tone,
};
use tui::app::update::{ComposerSync, QueueSync};
use tui::composer::config::ComposerConfig;
use tui::model::format::PermissionPolicy;

fn composer() -> ComposerSync {
    ComposerSync {
        scratch_loaded: false,
        dirty: false,
        edited: false,
        edit_revision: 0,
        queue_conflict: false,
        draft_save_in_flight: false,
    }
}

#[test]
fn selection_line_falls_back_to_loading_and_default() {
    let sel = composer_selection(&None, &None, false, true);
    assert_eq!(sel.executor, "loading");
    assert_eq!(sel.variant, "loading");
    assert_eq!(sel.model, "default");
    assert_eq!(sel.reasoning, "default");
    assert_eq!(sel.agent, "default");
    assert_eq!(sel.permission, "default");
    assert!(sel.executor_locked);

    let cfg = Some(ComposerConfig {
        executor: "CODEX".to_string(),
        variant: None,
        model_id: Some("o3".to_string()),
        agent_id: None,
        reasoning_id: Some("high".to_string()),
        permission_policy: Some(PermissionPolicy::Supervised),
    });
    let sel = composer_selection(&cfg, &None, true, true);
    assert_eq!(sel.executor, "CODEX");
    assert_eq!(sel.variant, "DEFAULT");
    assert_eq!(sel.model, "o3");
    assert_eq!(sel.reasoning, "high");
    assert_eq!(sel.permission, "SUPERVISED");
    assert!(!sel.executor_locked);
}

#[test]
fn draft_labels_follow_the_draft_state() {
    let mut c = composer();
    assert_eq!(draft_status_label(&c), "loading");
    c.scratch_loaded = true;
    assert_eq!(draft_status_label(&c), "synced");
    assert_eq!(draft_tone(&c), Tone::Muted);
    c.dirty = true;
    assert_eq!(draft_status_label(&c), "saving...");
    assert_eq!(draft_tone(&c), Tone::Active);
    c.queue_conflict = true;
    assert_eq!(draft_status_label(&c), "blocked by queued follow-up");
    assert_eq!(draft_tone(&c), Tone::Warning);
}

#[test]
fn queue_labels_show_the_queue_time_in_utc() {
    let mut q = QueueSync { session_id: Some(1), queued: true, pending: false };
    assert_eq!(queue_status_label(&q, Some(3_723)), "queued at 01:02:03");
    assert_eq!(queue_status_label(&q, None), "not queued");
    assert_eq!(queue_tone(&q, true), Tone::Active);
    q.pending = true;
    assert_eq!(queue_status_label(&q, Some(3_723)), "loading");
    assert_eq!(queue_tone(&q, true), Tone::Warning);
    assert_eq!(clock_time(86_399), "23:59:59");
    assert_eq!(clock_time(-1), "23:59:59");
    assert_eq!(clock_time(1_700_000_000), "22:13:20");
}
