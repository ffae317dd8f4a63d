use tui::editor::handle_vim_normal_key;
use tui::editor::vim::{char_class, CharClass};
use tui::input::keys::{KeyCode, KeyEvent, KeyModifiers};
use tui::editor::{
    apply_text_edit_action, clamp_char_boundary, move_cursor_vertical, next_char_boundary,
    next_word_start, prev_char_boundary, prev_word_start, TextEditAction,
};

#[test]
fn applies_insert_delete_and_navigation_actions() {
    let mut buffer = String::from("ab");
    let mut cursor = 1;

    assert!(apply_text_edit_action(
        &mut buffer,
        &mut cursor,
        TextEditAction::InsertChar('X')
    ));
    assert_eq!(buffer, "aXb");
    assert_eq!(cursor, 2);

    assert!(apply_text_edit_action(
        &mut buffer,
        &mut cursor,
        TextEditAction::Backspace
    ));
    assert_eq!(buffer, "ab");
    assert_eq!(cursor, 1);

    assert!(apply_text_edit_action(
        &mut buffer,
        &mut cursor,
        TextEditAction::Delete
    ));
    assert_eq!(buffer, "a");
    assert_eq!(cursor, 1);
}

#[test]
fn applies_word_navigation_and_deletion_actions() {
    let mut buffer = String::from("hello world again");
    let mut cursor = 6;

    assert!(apply_text_edit_action(
        &mut buffer,
        &mut cursor,
        TextEditAction::MoveWordRight
    ));
    assert_eq!(cursor, 12);

    assert!(apply_text_edit_action(
        &mut buffer,
        &mut cursor,
        TextEditAction::MoveWordLeft
    ));
    assert_eq!(cursor, 6);

    assert!(apply_text_edit_action(
        &mut buffer,
        &mut cursor,
        TextEditAction::BackspaceWord
    ));
    assert_eq!(buffer, "world again");
    assert_eq!(cursor, 0);

    assert!(apply_text_edit_action(
        &mut buffer,
        &mut cursor,
        TextEditAction::DeleteWord
    ));
    assert_eq!(buffer, "again");
    assert_eq!(cursor, 0);
}

#[test]
fn moves_to_line_boundaries() {
    let mut buffer = String::from("abc\ndef");
    let mut cursor = 5;

    assert!(apply_text_edit_action(
        &mut buffer,
        &mut cursor,
        TextEditAction::MoveLineStart
    ));
    assert_eq!(cursor, 4);

    assert!(apply_text_edit_action(
        &mut buffer,
        &mut cursor,
        TextEditAction::MoveLineEnd
    ));
    assert_eq!(cursor, 7);
}

#[test]
fn applies_multibyte_character_edits_without_panicking() {
    let mut buffer = String::from("a§b");
    let mut cursor = 3;

    assert!(apply_text_edit_action(
        &mut buffer,
        &mut cursor,
        TextEditAction::Backspace
    ));
    assert_eq!(buffer, "ab");
    assert_eq!(cursor, 1);

    assert!(apply_text_edit_action(
        &mut buffer,
        &mut cursor,
        TextEditAction::InsertChar('§')
    ));
    assert_eq!(buffer, "a§b");
    assert_eq!(cursor, 3);

    assert!(apply_text_edit_action(
        &mut buffer,
        &mut cursor,
        TextEditAction::MoveLeft
    ));
    assert_eq!(cursor, 1);

    assert!(apply_text_edit_action(
        &mut buffer,
        &mut cursor,
        TextEditAction::Delete
    ));
    assert_eq!(buffer, "ab");
    assert_eq!(cursor, 1);
}

#[test]
fn reports_no_change_for_boundary_navigation_and_empty_deletes() {
    let mut buffer = String::from("ab");
    let mut cursor = 0;

    assert!(!apply_text_edit_action(
        &mut buffer,
        &mut cursor,
        TextEditAction::MoveLeft
    ));
    assert!(!apply_text_edit_action(
        &mut buffer,
        &mut cursor,
        TextEditAction::Backspace
    ));
    assert_eq!(buffer, "ab");
    assert_eq!(cursor, 0);
}

#[test]
fn vertical_cursor_movement_clamps_to_shorter_line_end() {
    let buffer = "abcd\nxy\nwxyz";
    let down = move_cursor_vertical(buffer, 3, 1);
    assert_eq!(down, 7);
    let up = move_cursor_vertical(buffer, 7, -1);
    assert_eq!(up, 2);
}

#[test]
fn char_boundary_helpers_handle_multibyte_characters() {
    let buffer = "a§b";
    assert_eq!(clamp_char_boundary(buffer, 2), 1);
    assert_eq!(prev_char_boundary(buffer, 3), 1);
    assert_eq!(next_char_boundary(buffer, 1), 3);
}

#[test]
fn next_word_skips_to_next_word_boundary() {
    assert_eq!(next_word_start("hello world", 0), 6);
    assert_eq!(next_word_start("hello world", 5), 6);
    assert_eq!(next_word_start("hello  world", 0), 7);
    assert_eq!(next_word_start("foo.bar", 0), 3);
    assert_eq!(next_word_start("foo.bar", 3), 4);
    assert_eq!(next_word_start("hello", 0), 5);
    assert_eq!(next_word_start("", 0), 0);
}

#[test]
fn next_word_crosses_newlines() {
    assert_eq!(next_word_start("hello\nworld", 0), 6);
}

#[test]
fn prev_word_moves_to_previous_word_start() {
    assert_eq!(prev_word_start("hello world", 11), 6);
    assert_eq!(prev_word_start("hello world", 6), 0);
    assert_eq!(prev_word_start("foo.bar", 4), 3);
    assert_eq!(prev_word_start("foo.bar", 3), 0);
    assert_eq!(prev_word_start("hello", 5), 0);
    assert_eq!(prev_word_start("", 0), 0);
}

#[test]
fn prev_word_skips_whitespace_before_word() {
    assert_eq!(prev_word_start("hello   world", 8), 0);
}

#[test]
fn word_motions_treat_ascii_punctuation_as_its_own_class() {
    assert_eq!(next_word_start("foo.bar", 0), 3);
    assert_eq!(next_word_start("foo.bar", 3), 4);
    assert_eq!(prev_word_start("foo.bar", 7), 4);
    assert_eq!(prev_word_start("foo.bar", 4), 3);
    assert_eq!(next_word_start("a - b", 0), 2);
    assert!(char_class('.') == CharClass::Punct);
    assert!(char_class('_') == CharClass::Word);
    assert!(char_class('\u{3000}') == CharClass::Space);
}

#[test]
fn normal_mode_moves_from_the_boundary_before_an_inner_cursor() {
    let key = |c| KeyEvent::new(KeyCode::Char(c), KeyModifiers::none());
    let mut buffer = String::from("aé");
    let mut cursor = 2;
    let mut pending = None;
    handle_vim_normal_key(&mut buffer, &mut cursor, &mut pending, key('l'), true);
    assert_eq!(cursor, 3);
    cursor = 2;
    handle_vim_normal_key(&mut buffer, &mut cursor, &mut pending, key('h'), true);
    assert_eq!(cursor, 0);
    cursor = 2;
    handle_vim_normal_key(&mut buffer, &mut cursor, &mut pending, key('x'), true);
    assert_eq!(buffer, "a");
    assert_eq!(cursor, 1);
}
