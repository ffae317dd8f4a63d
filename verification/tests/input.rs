use tui::editor::TextEditAction;
use tui::input::keys::{should_process_key_event, KeyEventKind};
use tui::input::{
    map_app_key, map_terminal_key, map_text_input_key, next_focus, prev_focus, AppIntent,
    KeyCode, KeyEvent, KeyModifiers, TerminalInput, TextInputEvent, TextInputOptions,
};
use tui::model::{Focus, Pane};

fn key(code: KeyCode) -> KeyEvent {
    KeyEvent::new(code, KeyModifiers::none())
}

#[test]
fn composer_enter_submits_but_shift_enter_inserts_newline() {
    let options = TextInputOptions {
        submit_on_enter: true,
        enter_inserts_newline: false,
        shift_enter_inserts_newline: true,
    };

    assert_eq!(
        map_text_input_key(KeyEvent::new(KeyCode::Enter, KeyModifiers::none()), options),
        Some(TextInputEvent::Submit)
    );
    assert_eq!(
        map_text_input_key(KeyEvent::new(KeyCode::Enter, KeyModifiers::shift()), options),
        Some(TextInputEvent::Edit(TextEditAction::InsertNewline))
    );
}

#[test]
fn notes_enter_inserts_newline() {
    let options = TextInputOptions {
        submit_on_enter: false,
        enter_inserts_newline: true,
        shift_enter_inserts_newline: false,
    };

    assert_eq!(
        map_text_input_key(KeyEvent::new(KeyCode::Enter, KeyModifiers::none()), options),
        Some(TextInputEvent::Edit(TextEditAction::InsertNewline))
    );
}

#[test]
fn control_a_and_control_e_map_to_line_navigation() {
    let options = TextInputOptions {
        submit_on_enter: false,
        enter_inserts_newline: true,
        shift_enter_inserts_newline: false,
    };

    assert_eq!(
        map_text_input_key(
            KeyEvent::new(KeyCode::Char('a'), KeyModifiers::control()),
            options
        ),
        Some(TextInputEvent::Edit(TextEditAction::MoveLineStart))
    );
    assert_eq!(
        map_text_input_key(
            KeyEvent::new(KeyCode::Char('e'), KeyModifiers::control()),
            options
        ),
        Some(TextInputEvent::Edit(TextEditAction::MoveLineEnd))
    );
}

#[test]
fn alt_and_control_arrow_shortcuts_map_to_word_navigation() {
    let options = TextInputOptions {
        submit_on_enter: false,
        enter_inserts_newline: true,
        shift_enter_inserts_newline: false,
    };

    assert_eq!(
        map_text_input_key(KeyEvent::new(KeyCode::Left, KeyModifiers::alt()), options),
        Some(TextInputEvent::Edit(TextEditAction::MoveWordLeft))
    );
    assert_eq!(
        map_text_input_key(KeyEvent::new(KeyCode::Right, KeyModifiers::alt()), options),
        Some(TextInputEvent::Edit(TextEditAction::MoveWordRight))
    );
    assert_eq!(
        map_text_input_key(KeyEvent::new(KeyCode::Left, KeyModifiers::control()), options),
        Some(TextInputEvent::Edit(TextEditAction::MoveWordLeft))
    );
    assert_eq!(
        map_text_input_key(
            KeyEvent::new(KeyCode::Right, KeyModifiers::control()),
            options
        ),
        Some(TextInputEvent::Edit(TextEditAction::MoveWordRight))
    );
}

#[test]
fn alt_and_control_delete_shortcuts_map_to_word_deletion() {
    let options = TextInputOptions {
        submit_on_enter: false,
        enter_inserts_newline: true,
        shift_enter_inserts_newline: false,
    };

    assert_eq!(
        map_text_input_key(
            KeyEvent::new(KeyCode::Backspace, KeyModifiers::alt()),
            options
        ),
        Some(TextInputEvent::Edit(TextEditAction::BackspaceWord))
    );
    assert_eq!(
        map_text_input_key(KeyEvent::new(KeyCode::Delete, KeyModifiers::alt()), options),
        Some(TextInputEvent::Edit(TextEditAction::DeleteWord))
    );
    assert_eq!(
        map_text_input_key(
            KeyEvent::new(KeyCode::Backspace, KeyModifiers::control()),
            options
        ),
        Some(TextInputEvent::Edit(TextEditAction::BackspaceWord))
    );
    assert_eq!(
        map_text_input_key(
            KeyEvent::new(KeyCode::Char('w'), KeyModifiers::control()),
            options
        ),
        Some(TextInputEvent::Edit(TextEditAction::BackspaceWord))
    );
    assert_eq!(
        map_text_input_key(
            KeyEvent::new(KeyCode::Delete, KeyModifiers::control()),
            options
        ),
        Some(TextInputEvent::Edit(TextEditAction::DeleteWord))
    );
}

#[test]
fn maps_navigation_keys_to_intents() {
    assert_eq!(
        map_app_key(key(KeyCode::Char('/')), false, &Pane::Chat),
        Some(AppIntent::OpenSearch)
    );
    assert_eq!(
        map_app_key(key(KeyCode::Tab), false, &Pane::Chat),
        Some(AppIntent::FocusNext)
    );
    assert_eq!(
        map_app_key(
            KeyEvent::new(KeyCode::Char('w'), KeyModifiers::control()),
            false,
            &Pane::Chat
        ),
        Some(AppIntent::ToggleMaximizedPanel)
    );
    assert_eq!(
        map_app_key(key(KeyCode::PageDown), false, &Pane::Chat),
        Some(AppIntent::PageSelection(1))
    );
    assert_eq!(
        map_app_key(key(KeyCode::Char('j')), false, &Pane::Chat),
        Some(AppIntent::MoveSelection(1))
    );
}

#[test]
fn maps_pane_shortcuts_to_specific_panes() {
    assert_eq!(
        map_app_key(key(KeyCode::Char('1')), false, &Pane::Git),
        Some(AppIntent::SelectPane(Pane::Chat))
    );
    assert_eq!(
        map_app_key(key(KeyCode::Char('6')), false, &Pane::Git),
        Some(AppIntent::SelectPane(Pane::Notes))
    );
}

#[test]
fn esc_only_cancels_new_session_for_chat() {
    assert_eq!(
        map_app_key(key(KeyCode::Esc), true, &Pane::Chat),
        Some(AppIntent::CancelNewSession)
    );
    assert_eq!(map_app_key(key(KeyCode::Esc), false, &Pane::Chat), None);
    assert_eq!(map_app_key(key(KeyCode::Esc), true, &Pane::Notes), None);
}

#[test]
fn super_arrows_map_to_boundary_jumps() {
    let right = KeyEvent::new(KeyCode::Right, KeyModifiers::super_key());
    let up = KeyEvent::new(KeyCode::Up, KeyModifiers::super_key());

    assert_eq!(
        map_app_key(right, false, &Pane::Chat),
        Some(AppIntent::JumpToEnd)
    );
    assert_eq!(
        map_app_key(up, false, &Pane::Chat),
        Some(AppIntent::JumpToStart)
    );
}

#[test]
fn maps_terminal_exit_shortcuts() {
    assert_eq!(
        map_terminal_key(KeyEvent::new(KeyCode::Esc, KeyModifiers::none())),
        Some(TerminalInput::ExitInputMode)
    );
    assert_eq!(
        map_terminal_key(KeyEvent::new(KeyCode::Char('g'), KeyModifiers::control())),
        Some(TerminalInput::ExitInputMode)
    );
}

#[test]
fn maps_terminal_bytes_for_common_keys() {
    assert_eq!(
        map_terminal_key(KeyEvent::new(KeyCode::Enter, KeyModifiers::none())),
        Some(TerminalInput::SendBytes(vec![b'\r']))
    );
    assert_eq!(
        map_terminal_key(KeyEvent::new(KeyCode::Char('c'), KeyModifiers::control())),
        Some(TerminalInput::SendBytes(vec![0x03]))
    );
    assert_eq!(
        map_terminal_key(KeyEvent::new(KeyCode::Left, KeyModifiers::none())),
        Some(TerminalInput::SendBytes(b"\x1b[D".to_vec()))
    );
}

#[test]
fn terminal_sends_utf8_for_plain_chars() {
    assert_eq!(
        map_terminal_key(KeyEvent::new(KeyCode::Char('§'), KeyModifiers::none())),
        Some(TerminalInput::SendBytes("§".as_bytes().to_vec()))
    );
    assert_eq!(map_terminal_key(key(KeyCode::F(1))), None);
}

#[test]
fn ignores_release_events_but_keeps_press_and_repeat() {
    assert!(should_process_key_event(KeyEvent {
        code: KeyCode::Tab,
        modifiers: KeyModifiers::none(),
        kind: KeyEventKind::Press,
    }));
    assert!(should_process_key_event(KeyEvent {
        code: KeyCode::Tab,
        modifiers: KeyModifiers::none(),
        kind: KeyEventKind::Repeat,
    }));
    assert!(!should_process_key_event(KeyEvent {
        code: KeyCode::Tab,
        modifiers: KeyModifiers::none(),
        kind: KeyEventKind::Release,
    }));
}

#[test]
fn focus_cycles_forward_and_back() {
    let all = [Focus::WorkspaceList, Focus::Main, Focus::Detail, Focus::Composer];
    for focus in all.iter() {
        assert_eq!(&prev_focus(&next_focus(focus)), focus);
        assert_eq!(&next_focus(&prev_focus(focus)), focus);
    }
    assert_eq!(next_focus(&Focus::Composer), Focus::WorkspaceList);
    assert_eq!(prev_focus(&Focus::WorkspaceList), Focus::Composer);
}

#[test]
fn terminal_resizes_only_when_the_size_changes() {
    assert_eq!(tui::input::terminal::terminal_resize((80, 24), 80, 24), None);
    assert_eq!(tui::input::terminal::terminal_resize((80, 24), 100, 30), Some((100, 30)));
    assert_eq!(tui::input::terminal::terminal_resize((80, 24), 0, 0), Some((1, 1)));
}
