use tui::app::intent::{apply_intent, intent_status_text, IntentEffect, IntentStatus, ScreenState, HELP_TEXT};
use tui::app::shell::{
    redraw_class, route_key, should_defer_net_event_redraw, KeyContext, KeyRoute, Modal, OpenModals,
    RedrawClass,
};
use tui::app::update::NetEvent;
use tui::editor::vim::{ComposerEditorMode, VimMode};
use tui::input::keymap::AppIntent;
use tui::input::keys::{KeyCode, KeyEvent, KeyModifiers};
use tui::model::domain::{DiffViewMode, Focus, Pane};

fn no_modals() -> OpenModals {
    OpenModals {
        agent_picker: false,
        project_filter_picker: false,
        repo_picker: false,
        branch_picker: false,
        session_rename: false,
        search_prompt: false,
    }
}

fn context(focus: Focus, pane: Pane) -> KeyContext {
    KeyContext {
        modals: no_modals(),
        creating_workspace: false,
        creating_new_session: false,
        terminal_input_mode: false,
        focus,
        pane,
        key_opens_notes_editor: false,
        conversation_search_open: false,
        create_repo_selected: false,
    }
}

fn press(code: KeyCode) -> KeyEvent {
    KeyEvent::new(code, KeyModifiers::none())
}

fn screen() -> ScreenState {
    ScreenState {
        focus: Focus::Main,
        pane: Pane::Chat,
        creating_workspace: false,
        creating_new_session: false,
        maximized_panel: false,
        show_archived: false,
        diff_view_mode: DiffViewMode::Unified,
        tool_calls_collapsed: false,
        editor_mode: ComposerEditorMode::Standard,
        should_quit: false,
    }
}

#[test]
fn open_pickers_take_keys_in_order() {
    let mut ctx = context(Focus::Main, Pane::Chat);
    ctx.modals.search_prompt = true;
    ctx.modals.repo_picker = true;
    assert!(matches!(route_key(&ctx, press(KeyCode::Char('q'))), KeyRoute::Modal(Modal::RepoPicker)));
    ctx.modals.agent_picker = true;
    assert!(matches!(route_key(&ctx, press(KeyCode::Esc)), KeyRoute::Modal(Modal::AgentPicker)));
}

#[test]
fn escape_cancels_workspace_creation() {
    let mut ctx = context(Focus::Main, Pane::Chat);
    ctx.creating_workspace = true;
    assert!(matches!(route_key(&ctx, press(KeyCode::Esc)), KeyRoute::CancelWorkspaceCreate));
}

#[test]
fn terminal_input_mode_sends_bytes_and_leaves_on_escape() {
    let mut ctx = context(Focus::Main, Pane::Terminal);
    ctx.terminal_input_mode = true;
    match route_key(&ctx, press(KeyCode::Char('a'))) {
        KeyRoute::SendTerminalBytes(bytes) => assert_eq!(bytes, vec![b'a']),
        other => panic!("unexpected {other:?}"),
    }
    match route_key(&ctx, press(KeyCode::Enter)) {
        KeyRoute::SendTerminalBytes(bytes) => assert_eq!(bytes, vec![13]),
        other => panic!("unexpected {other:?}"),
    }
    assert!(matches!(route_key(&ctx, press(KeyCode::Esc)), KeyRoute::ExitTerminalInput));
    assert!(matches!(route_key(&ctx, press(KeyCode::Home)), KeyRoute::TerminalIgnored));
}

#[test]
fn composer_focus_routes_to_the_editor_of_the_pane() {
    let ctx = context(Focus::Composer, Pane::Notes);
    assert!(matches!(route_key(&ctx, press(KeyCode::Char('q'))), KeyRoute::Editor { notes: true }));
    let ctx = context(Focus::Composer, Pane::Chat);
    assert!(matches!(route_key(&ctx, press(KeyCode::Char('q'))), KeyRoute::Editor { notes: false }));
}

#[test]
fn chat_keys_jump_and_search() {
    let mut ctx = context(Focus::Main, Pane::Chat);
    assert!(matches!(
        route_key(&ctx, press(KeyCode::Char(']'))),
        KeyRoute::JumpUserMessage { forward: true }
    ));
    assert!(matches!(
        route_key(&ctx, press(KeyCode::Char('['))),
        KeyRoute::JumpUserMessage { forward: false }
    ));
    ctx.conversation_search_open = true;
    assert!(matches!(
        route_key(&ctx, press(KeyCode::Char('N'))),
        KeyRoute::AdvanceSearch { forward: false }
    ));
}

#[test]
fn workspace_creation_keys_manage_repos() {
    let mut ctx = context(Focus::Detail, Pane::Chat);
    ctx.creating_workspace = true;
    assert!(matches!(route_key(&ctx, press(KeyCode::Enter)), KeyRoute::OpenCreateRepoPicker));
    ctx.create_repo_selected = true;
    assert!(matches!(route_key(&ctx, press(KeyCode::Enter)), KeyRoute::OpenCreateBranchPicker));
    assert!(matches!(route_key(&ctx, press(KeyCode::Backspace)), KeyRoute::RemoveCreateRepo));
}

#[test]
fn other_keys_go_to_the_global_key_map() {
    let ctx = context(Focus::WorkspaceList, Pane::Chat);
    assert!(matches!(route_key(&ctx, press(KeyCode::Char('q'))), KeyRoute::Intent(AppIntent::Quit)));
    assert!(matches!(route_key(&ctx, press(KeyCode::Insert)), KeyRoute::Ignored));
}

#[test]
fn redraws_wait_right_after_a_key_and_while_typing() {
    assert!(should_defer_net_event_redraw(RedrawClass::Feedback, 10, Focus::Main, false, false, Pane::Chat));
    assert!(!should_defer_net_event_redraw(RedrawClass::Background, 45, Focus::Main, false, false, Pane::Chat));
    assert!(should_defer_net_event_redraw(RedrawClass::Background, 500, Focus::Composer, false, false, Pane::Chat));
    assert!(!should_defer_net_event_redraw(RedrawClass::Feedback, 500, Focus::Composer, false, false, Pane::Chat));
    assert!(!should_defer_net_event_redraw(RedrawClass::Terminal, 500, Focus::Main, false, true, Pane::Terminal));
    assert!(should_defer_net_event_redraw(RedrawClass::Terminal, 500, Focus::Main, true, false, Pane::Chat));
}

#[test]
fn events_are_classed_for_redraws() {
    assert_eq!(redraw_class(&NetEvent::TerminalOutput { workspace_id: 1 }), RedrawClass::Terminal);
    assert_eq!(
        redraw_class(&NetEvent::Error { message: "boom".to_string() }),
        RedrawClass::Feedback
    );
    assert_eq!(
        redraw_class(&NetEvent::SessionsLoaded { workspace_id: 1, session_ids: vec![] }),
        RedrawClass::Background
    );
}

#[test]
fn maximize_toggles_and_reports() {
    let mut s = screen();
    let (effect, status) = apply_intent(&mut s, AppIntent::ToggleMaximizedPanel, 10);
    assert_eq!((effect, status), (IntentEffect::Nothing, IntentStatus::Maximized));
    assert!(s.maximized_panel);
    let (_, status) = apply_intent(&mut s, AppIntent::ToggleMaximizedPanel, 10);
    assert_eq!(status, IntentStatus::Restored);
    assert!(!s.maximized_panel);
    assert_eq!(
        intent_status_text(status, s.editor_mode),
        Some("Restored multi-panel layout".to_string())
    );
}

#[test]
fn new_session_is_refused_while_creating_a_workspace() {
    let mut s = screen();
    s.creating_workspace = true;
    let (effect, status) = apply_intent(&mut s, AppIntent::StartNewSession, 10);
    assert_eq!((effect, status), (IntentEffect::Nothing, IntentStatus::WorkspaceCreationActive));
    assert!(!s.creating_new_session);
    s.creating_workspace = false;
    s.focus = Focus::WorkspaceList;
    s.pane = Pane::Logs;
    let (effect, status) = apply_intent(&mut s, AppIntent::StartNewSession, 10);
    assert_eq!((effect, status), (IntentEffect::NewSessionStarted, IntentStatus::NewSession));
    assert!(s.creating_new_session);
    assert_eq!(s.pane, Pane::Chat);
    assert_eq!(s.focus, Focus::Composer);
}

#[test]
fn pane_selection_sticks_to_chat_while_creating() {
    let mut s = screen();
    apply_intent(&mut s, AppIntent::SelectPane(Pane::Git), 10);
    assert_eq!(s.pane, Pane::Git);
    s.creating_workspace = true;
    apply_intent(&mut s, AppIntent::SelectPane(Pane::Logs), 10);
    assert_eq!(s.pane, Pane::Chat);
}

#[test]
fn diff_and_tool_toggles_apply_only_on_their_pane() {
    let mut s = screen();
    let (effect, status) = apply_intent(&mut s, AppIntent::ToggleDiffViewMode, 10);
    assert_eq!((effect, status), (IntentEffect::Nothing, IntentStatus::Unchanged));
    s.pane = Pane::Changes;
    let (effect, status) = apply_intent(&mut s, AppIntent::ToggleDiffViewMode, 10);
    assert_eq!((effect, status), (IntentEffect::ChangesDirty, IntentStatus::DiffSideBySide));
    assert_eq!(s.diff_view_mode, DiffViewMode::SideBySide);
    s.pane = Pane::Chat;
    let (effect, status) = apply_intent(&mut s, AppIntent::ToggleToolRunCollapse, 10);
    assert_eq!((effect, status), (IntentEffect::ChatCacheDirty, IntentStatus::ToolCallsCollapsed));
    assert!(s.tool_calls_collapsed);
}

#[test]
fn page_moves_scale_by_the_page_and_quit_sets_the_flag() {
    let mut s = screen();
    let (effect, _) = apply_intent(&mut s, AppIntent::PageSelection(-1), 12);
    assert_eq!(effect, IntentEffect::MoveSelection(-12));
    apply_intent(&mut s, AppIntent::Quit, 12);
    assert!(s.should_quit);
}

#[test]
fn editor_mode_toggle_reports_the_new_mode() {
    let mut s = screen();
    let (_, status) = apply_intent(&mut s, AppIntent::ToggleComposerEditorMode, 1);
    assert_eq!(status, IntentStatus::EditorMode);
    assert!(s.editor_mode == ComposerEditorMode::Vim(VimMode::Insert));
    assert_eq!(
        intent_status_text(status, s.editor_mode),
        Some("Editor mode: vim insert".to_string())
    );
    assert_eq!(intent_status_text(IntentStatus::Help, s.editor_mode), Some(HELP_TEXT.to_string()));
    assert_eq!(intent_status_text(IntentStatus::Unchanged, s.editor_mode), None);
}
