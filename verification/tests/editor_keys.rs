use tui::app::rename::{
    editor_mode_label, editor_panel_title, open_session_rename, rename_failed, submit_session_rename,
    toggle_editor_mode, RenameOpen, RenameSubmit, SessionRenameState,
};
use tui::app::update::{ComposerSync, NotesSync};
use tui::composer::draft::mark_editor_dirty;
use tui::editor::keys::{handle_editor_key, text_input_options, EditorKeyAction, EditorTarget};
use tui::editor::vim::{ComposerEditorMode, VimMode, VimOperator};
use tui::input::keys::{KeyCode, KeyEvent, KeyModifiers};
use tui::model::domain::{Focus, Pane};

fn press(code: KeyCode) -> KeyEvent {
    KeyEvent::new(code, KeyModifiers::none())
}

struct Field {
    mode: ComposerEditorMode,
    text: String,
    cursor: usize,
    pending: Option<VimOperator>,
}

impl Field {
    fn new(text: &str, cursor: usize, mode: ComposerEditorMode) -> Field {
        Field { mode, text: text.to_string(), cursor, pending: None }
    }

    fn key(&mut self, target: EditorTarget, key: KeyEvent, creating_new_session: bool) -> EditorKeyAction {
        handle_editor_key(
            target,
            &mut self.mode,
            &mut self.text,
            &mut self.cursor,
            &mut self.pending,
            key,
            creating_new_session,
        )
    }
}

fn composer() -> ComposerSync {
    ComposerSync {
        scratch_loaded: true,
        dirty: false,
        edited: false,
        edit_revision: 0,
        queue_conflict: false,
        draft_save_in_flight: false,
    }
}

fn notes() -> NotesSync {
    NotesSync {
        text: String::new(),
        cursor: 0,
        dirty: false,
        edited: false,
        edit_revision: 0,
        save_in_flight: false,
    }
}

#[test]
fn session_rename_uses_shared_vim_mode_rules() {
    let mut field = Field::new("name", 4, ComposerEditorMode::Vim(VimMode::Insert));
    let action = field.key(EditorTarget::SessionRename, press(KeyCode::Esc), false);
    assert_eq!(action, EditorKeyAction::VimNormal);
    assert!(field.mode == ComposerEditorMode::Vim(VimMode::Normal));

    let action = field.key(EditorTarget::SessionRename, press(KeyCode::Char('h')), false);
    assert!(matches!(action, EditorKeyAction::Vim(_)));
    assert_eq!(field.cursor, 3);

    let action = field.key(EditorTarget::SessionRename, press(KeyCode::Esc), false);
    assert_eq!(action, EditorKeyAction::CancelRename);
}

#[test]
fn mark_editor_dirty_updates_only_persisted_editor_targets() {
    let mut c = composer();
    let mut n = notes();
    mark_editor_dirty(EditorTarget::Composer, &mut c, &mut n);
    assert!(c.dirty);
    assert_eq!(c.edit_revision, 1);
    mark_editor_dirty(EditorTarget::Notes, &mut c, &mut n);
    assert!(n.dirty);
    assert_eq!(n.edit_revision, 1);
    mark_editor_dirty(EditorTarget::SessionRename, &mut c, &mut n);
    assert_eq!(c.edit_revision, 1);
    assert_eq!(n.edit_revision, 1);
    c.edit_revision = u64::MAX;
    mark_editor_dirty(EditorTarget::Composer, &mut c, &mut n);
    assert_eq!(c.edit_revision, u64::MAX);
}

#[test]
fn escape_cancels_an_empty_new_session_or_leaves_the_editor() {
    let mut field = Field::new("   ", 0, ComposerEditorMode::Standard);
    assert_eq!(field.key(EditorTarget::Composer, press(KeyCode::Esc), true), EditorKeyAction::CancelNewSession);
    assert_eq!(field.key(EditorTarget::Composer, press(KeyCode::Esc), false), EditorKeyAction::LeaveEditor);
    let mut field = Field::new("draft", 0, ComposerEditorMode::Vim(VimMode::Insert));
    assert_eq!(field.key(EditorTarget::Composer, press(KeyCode::Esc), true), EditorKeyAction::VimNormal);
    assert_eq!(field.key(EditorTarget::Notes, press(KeyCode::Esc), true), EditorKeyAction::LeaveEditor);
}

#[test]
fn enter_submits_the_composer_and_breaks_note_lines() {
    let mut field = Field::new("hi", 2, ComposerEditorMode::Standard);
    assert_eq!(field.key(EditorTarget::Composer, press(KeyCode::Enter), false), EditorKeyAction::Submit);
    assert_eq!(
        field.key(EditorTarget::Composer, KeyEvent::new(KeyCode::Enter, KeyModifiers::shift()), false),
        EditorKeyAction::Edited { changed: true }
    );
    assert_eq!(field.text, "hi\n");
    assert_eq!(
        field.key(EditorTarget::Notes, press(KeyCode::Enter), false),
        EditorKeyAction::Edited { changed: true }
    );
    assert_eq!(field.text, "hi\n\n");
    assert!(text_input_options(EditorTarget::SessionRename).submit_on_enter);
    assert!(!text_input_options(EditorTarget::SessionRename).enter_inserts_newline);
}

#[test]
fn f2_toggles_the_mode_and_typing_edits() {
    let mut field = Field::new("", 0, ComposerEditorMode::Standard);
    assert_eq!(field.key(EditorTarget::Composer, press(KeyCode::F(2)), false), EditorKeyAction::ToggledMode);
    assert!(field.mode == ComposerEditorMode::Vim(VimMode::Insert));
    assert_eq!(
        field.key(EditorTarget::Composer, press(KeyCode::Char('x')), false),
        EditorKeyAction::Edited { changed: true }
    );
    assert_eq!(field.text, "x");
    assert_eq!(field.cursor, 1);
    assert_eq!(field.key(EditorTarget::Composer, press(KeyCode::F(5)), false), EditorKeyAction::Ignored);
    assert_eq!(field.key(EditorTarget::Composer, press(KeyCode::F(2)), false), EditorKeyAction::ToggledMode);
    assert!(field.mode == ComposerEditorMode::Standard);
}

#[test]
fn rename_opens_on_the_session_name_and_refuses_blanks() {
    assert_eq!(open_session_rename(Focus::Main, Pane::Chat, Some((1, None))), RenameOpen::NotHere);
    assert_eq!(open_session_rename(Focus::Detail, Pane::Git, Some((1, None))), RenameOpen::NotHere);
    assert_eq!(open_session_rename(Focus::Detail, Pane::Logs, None), RenameOpen::NoSession);
    match open_session_rename(Focus::Detail, Pane::Chat, Some((7, Some("Fix bug".to_string())))) {
        RenameOpen::Open(state) => {
            assert_eq!(state.session_id, 7);
            assert_eq!(state.name, "Fix bug");
            assert_eq!(state.cursor, 7);
        }
        other => panic!("unexpected {other:?}"),
    }
    match open_session_rename(Focus::Detail, Pane::Chat, Some((0x0123456789abcdef0123456789abcdef, None))) {
        RenameOpen::Open(state) => {
            assert_eq!(state.name, "01234567-89ab-cdef-0123-456789abcdef");
            assert_eq!(state.cursor, 36);
        }
        other => panic!("unexpected {other:?}"),
    }

    let blank = SessionRenameState { session_id: 3, name: "  ".to_string(), cursor: 2 };
    assert_eq!(submit_session_rename(&blank), RenameSubmit::Blank);
    let named = SessionRenameState { session_id: 3, name: " new name ".to_string(), cursor: 2 };
    assert_eq!(
        submit_session_rename(&named),
        RenameSubmit::Rename { session_id: 3, name: "new name".to_string() }
    );
    let split = SessionRenameState { session_id: 3, name: "é".to_string(), cursor: 1 };
    assert_eq!(rename_failed(split).cursor, 0);
}

#[test]
fn editor_titles_and_mode_labels() {
    assert_eq!(editor_mode_label(ComposerEditorMode::Vim(VimMode::Normal)), "vim normal");
    assert_eq!(editor_panel_title(Pane::Notes, ComposerEditorMode::Standard), "Notes Editor [standard]");
    assert_eq!(
        editor_panel_title(Pane::Chat, ComposerEditorMode::Vim(VimMode::Insert)),
        "Composer [vim insert]"
    );
    let mut mode = ComposerEditorMode::Vim(VimMode::Normal);
    assert_eq!(toggle_editor_mode(&mut mode), "Editor mode: standard");
    assert_eq!(toggle_editor_mode(&mut mode), "Editor mode: vim insert");
}
