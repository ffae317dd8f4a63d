use tui::app::selection::{enter_action, EnterAction};
use tui::app::pr::{
    cycle_pr_field, handle_pr_create_key, handle_pr_create_paste, insert_text, PrCreateField,
    PrCreateState, PrKeyOutcome,
};
use tui::app::search::{line_text, matching_line_indexes};
use tui::app::selection::{
    git_status_line_count, max_scroll_for_lines, page_step, selection_after_move,
    selection_at_boundary, step_index, SelectionAction, SelectionContext, WorkspaceRow,
};
use tui::app::{
    default_variant_to_none, fuzzy_contains, model_key, selected_list_offset, viewport_capacity,
};
use tui::app::util::ModelInfo;
use tui::input::keys::{KeyCode, KeyEvent, KeyModifiers};
use tui::model::{BranchStatus, Focus, Pane, RepoBranchStatus};

#[test]
fn line_text_concatenates_spans() {
    let line = vec!["hel".to_string(), "lo".to_string()];
    assert_eq!(line_text(&line), "hello");
}

#[test]
fn matching_line_indexes_is_case_insensitive() {
    let lines = vec![
        vec!["first".to_string()],
        vec!["Needle here".to_string()],
        vec!["another needle".to_string()],
    ];
    assert_eq!(matching_line_indexes(&lines, "needle"), vec![1, 2]);
    assert!(matching_line_indexes(&lines, "").is_empty());
}

#[test]
fn util_helpers() {
    assert_eq!(default_variant_to_none("DEFAULT".to_string()), None);
    assert_eq!(default_variant_to_none("PLAN".to_string()), Some("PLAN".to_string()));
    assert!(fuzzy_contains("  ", "anything"));
    assert!(fuzzy_contains("GPT", "openai/gpt-5"));
    assert!(fuzzy_contains("og5", "openai/gpt-5"));
    assert!(!fuzzy_contains("zz", "openai/gpt-5"));
    assert_eq!(selected_list_offset(3, 5, 10), 0);
    assert_eq!(selected_list_offset(8, 20, 5), 4);
    assert_eq!(selected_list_offset(19, 20, 5), 15);
    assert_eq!(viewport_capacity(12, 3), 4);
    assert_eq!(viewport_capacity(1, 3), 1);
    let model = ModelInfo {
        id: "gpt-5".to_string(),
        name: "GPT-5".to_string(),
        provider_id: Some("openai".to_string()),
        reasoning_options: Vec::new(),
    };
    assert_eq!(model_key(&model), "openai/gpt-5");
    let bare = ModelInfo {
        id: "gpt-5".to_string(),
        name: "GPT-5".to_string(),
        provider_id: None,
        reasoning_options: Vec::new(),
    };
    assert_eq!(model_key(&bare), "gpt-5");
}

fn context(focus: Focus, pane: Pane) -> SelectionContext {
    SelectionContext {
        focus,
        pane,
        creating_workspace: false,
        workspace_rows: vec![
            WorkspaceRow::NewWorkspace,
            WorkspaceRow::Header("Pinned".to_string()),
            WorkspaceRow::Workspace(10),
            WorkspaceRow::Header("Active".to_string()),
            WorkspaceRow::Workspace(20),
        ],
        selected_workspace_id: Some(10),
        create_repo_count: None,
        session_row_count: 3,
        selected_session_row: Some(1),
        diff_count: 4,
        selected_diff_index: 1,
        log_scroll: 10,
        chat_end_offset: 5,
        max_scroll: 99,
    }
}

#[test]
fn workspace_list_moves_over_selectable_rows() {
    let ctx = context(Focus::WorkspaceList, Pane::Chat);
    assert_eq!(selection_after_move(&ctx, 1), SelectionAction::SelectWorkspace(20));
    assert_eq!(selection_after_move(&ctx, -1), SelectionAction::CreateWorkspace);
    assert_eq!(selection_after_move(&ctx, 9), SelectionAction::SelectWorkspace(20));
    assert_eq!(selection_at_boundary(&ctx, true), SelectionAction::SelectWorkspace(20));
    assert_eq!(selection_at_boundary(&ctx, false), SelectionAction::CreateWorkspace);
    let mut creating = ctx.clone();
    creating.creating_workspace = true;
    assert_eq!(selection_after_move(&creating, 1), SelectionAction::SelectWorkspace(10));
    let mut empty = ctx.clone();
    empty.workspace_rows = vec![WorkspaceRow::Header("none".to_string())];
    assert_eq!(selection_after_move(&empty, 1), SelectionAction::Stay);
}

#[test]
fn panels_step_and_scroll() {
    let main = context(Focus::Main, Pane::Changes);
    assert_eq!(selection_after_move(&main, 1), SelectionAction::SelectDiff(2));
    assert_eq!(selection_after_move(&main, 0), SelectionAction::Stay);
    assert_eq!(selection_at_boundary(&main, true), SelectionAction::SelectDiff(3));
    let chat = context(Focus::Main, Pane::Chat);
    assert_eq!(selection_after_move(&chat, 2), SelectionAction::ChatEndOffset(3));
    assert_eq!(selection_after_move(&chat, 9), SelectionAction::ChatEndOffset(0));
    assert_eq!(selection_at_boundary(&chat, false), SelectionAction::ChatEndOffset(65535));
    let logs = context(Focus::Composer, Pane::Logs);
    assert_eq!(selection_after_move(&logs, -20), SelectionAction::ScrollLog(0));
    assert_eq!(selection_at_boundary(&logs, true), SelectionAction::ScrollLog(99));
    let sessions = context(Focus::Detail, Pane::Logs);
    assert_eq!(selection_after_move(&sessions, 5), SelectionAction::SelectSessionRow(2));
    assert_eq!(selection_at_boundary(&sessions, false), SelectionAction::SelectSessionRow(0));
    let mut create = context(Focus::Detail, Pane::Chat);
    create.creating_workspace = true;
    create.create_repo_count = Some(3);
    assert_eq!(selection_after_move(&create, -1), SelectionAction::MoveCreateRepo(-1));
    assert_eq!(selection_at_boundary(&create, true), SelectionAction::SelectCreateRepo(2));
    assert_eq!(step_index(2, -5, 4), 0);
    assert_eq!(step_index(2, 5, 4), 3);
}

#[test]
fn page_sizes_and_scroll_limits() {
    assert_eq!(page_step(&Focus::WorkspaceList, 24), 6);
    assert_eq!(page_step(&Focus::WorkspaceList, 5), 1);
    assert_eq!(page_step(&Focus::Detail, 24), 5);
    assert_eq!(page_step(&Focus::Main, 24), 18);
    assert_eq!(page_step(&Focus::Composer, 3), 1);
    assert_eq!(max_scroll_for_lines(0), 0);
    assert_eq!(max_scroll_for_lines(10), 9);
    assert_eq!(max_scroll_for_lines(100_000), 65535);
    let status = |rebase: bool| RepoBranchStatus {
        repo_id: 1,
        repo_name: "repo".to_string(),
        status: BranchStatus {
            commits_behind: None,
            commits_ahead: None,
            has_uncommitted_changes: None,
            head_oid: None,
            uncommitted_count: None,
            untracked_count: None,
            target_branch_name: "main".to_string(),
            remote_commits_behind: None,
            remote_commits_ahead: None,
            merges: vec![],
            is_rebase_in_progress: rebase,
            conflict_op: None,
            conflicted_files: vec![],
            is_target_remote: false,
        },
    };
    assert_eq!(git_status_line_count(&[status(false), status(true)]), 7);
}

fn form(selected_field: PrCreateField) -> Option<PrCreateState> {
    Some(PrCreateState {
        repo_id: 1,
        repo_name: "repo".to_string(),
        title: "Fix".to_string(),
        title_cursor: 3,
        body: String::new(),
        body_cursor: 0,
        target_branch: "main".to_string(),
        target_branch_cursor: 4,
        draft: false,
        auto_generate_description: false,
        selected_field,
        submitting: false,
    })
}

#[test]
fn pr_form_keys() {
    let mut state = form(PrCreateField::Title);
    assert_eq!(
        handle_pr_create_key(&mut state, KeyEvent::new(KeyCode::Char('!'), KeyModifiers::none())),
        PrKeyOutcome::Handled
    );
    assert_eq!(state.as_ref().unwrap().title, "Fix!");
    assert_eq!(
        handle_pr_create_key(&mut state, KeyEvent::new(KeyCode::Tab, KeyModifiers::none())),
        PrKeyOutcome::Handled
    );
    assert_eq!(state.as_ref().unwrap().selected_field, PrCreateField::Body);
    assert_eq!(
        handle_pr_create_key(&mut state, KeyEvent::new(KeyCode::Char('s'), KeyModifiers::control())),
        PrKeyOutcome::Submit
    );
    let mut toggles = form(PrCreateField::Draft);
    handle_pr_create_key(&mut toggles, KeyEvent::new(KeyCode::Char(' '), KeyModifiers::none()));
    assert!(toggles.as_ref().unwrap().draft);
    assert_eq!(
        handle_pr_create_key(&mut toggles, KeyEvent::new(KeyCode::Esc, KeyModifiers::none())),
        PrKeyOutcome::Cancelled
    );
    assert!(toggles.is_none());
    let mut busy = form(PrCreateField::Title);
    busy.as_mut().unwrap().submitting = true;
    assert_eq!(
        handle_pr_create_key(&mut busy, KeyEvent::new(KeyCode::Esc, KeyModifiers::none())),
        PrKeyOutcome::StillSubmitting
    );
    assert!(busy.is_some());
}

#[test]
fn pr_form_paste_and_cycle() {
    let mut state = form(PrCreateField::TargetBranch);
    handle_pr_create_paste(&mut state, "-x");
    assert_eq!(state.as_ref().unwrap().target_branch, "main-x");
    assert_eq!(state.as_ref().unwrap().target_branch_cursor, 6);
    let mut s = state.unwrap();
    cycle_pr_field(&mut s, false);
    assert_eq!(s.selected_field, PrCreateField::Body);
    let mut buffer = "ab".to_string();
    let mut cursor = 10;
    insert_text(&mut buffer, &mut cursor, "§");
    assert_eq!(buffer, "ab§");
    assert_eq!(cursor, 4);
}

#[test]
fn enter_acts_on_the_focused_row_or_pane() {
    let rows = vec![
        WorkspaceRow::NewWorkspace,
        WorkspaceRow::Header("Active".to_string()),
        WorkspaceRow::Workspace(4),
        WorkspaceRow::Workspace(5),
    ];
    assert_eq!(enter_action(Focus::WorkspaceList, Pane::Chat, &rows, false, Some(5)), EnterAction::SelectWorkspace(5));
    assert_eq!(enter_action(Focus::WorkspaceList, Pane::Chat, &rows, true, Some(5)), EnterAction::CreateWorkspace);
    assert_eq!(enter_action(Focus::WorkspaceList, Pane::Chat, &rows, false, Some(9)), EnterAction::CreateWorkspace);
    assert_eq!(enter_action(Focus::WorkspaceList, Pane::Chat, &Vec::new(), false, None), EnterAction::Nothing);
    assert_eq!(enter_action(Focus::Main, Pane::Terminal, &rows, false, None), EnterAction::TerminalInput);
    assert_eq!(enter_action(Focus::Main, Pane::Chat, &rows, false, None), EnterAction::Nothing);
    assert_eq!(enter_action(Focus::Detail, Pane::Chat, &rows, false, None), EnterAction::SwitchSessionOrProcess);
    assert_eq!(enter_action(Focus::Composer, Pane::Chat, &rows, false, None), EnterAction::Nothing);
}
