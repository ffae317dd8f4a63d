//! Keys typed into a text field: which edit each one makes.
use vstd::prelude::*;

use crate::editor::TextEditAction;
use crate::input::keys::{KeyCode, KeyEvent, KeyModifiers};

verus! {

#[derive(Debug, Clone, Copy, PartialEq, Eq, Structural)]
pub enum TextInputEvent {
    Submit,
    Edit(TextEditAction),
}

#[derive(Debug, Clone, Copy)]
pub struct TextInputOptions {
    pub submit_on_enter: bool,
    pub enter_inserts_newline: bool,
    pub shift_enter_inserts_newline: bool,
}

pub open spec fn alt_or_control(m: KeyModifiers) -> bool {
    m.alt || m.control
}

pub open spec fn edit(a: TextEditAction) -> Option<TextInputEvent> {
    Some(TextInputEvent::Edit(a))
}

/// The text-field key table. Enter submits (unless shift is held) when the
/// field submits on enter, and otherwise inserts a newline when the field
/// allows it; alt or control turn char-wise deletion and movement into
/// word-wise; control-a/e/w are line start, line end and delete word back;
/// a plain or shifted char is typed. Anything else is not an edit.
pub open spec fn text_input_event(key: KeyEvent, options: TextInputOptions) -> Option<
    TextInputEvent,
> {
    let m = key.modifiers;
    match key.code {
        KeyCode::Enter => if options.submit_on_enter && !m.shift {
            Some(TextInputEvent::Submit)
        } else if options.enter_inserts_newline || (options.shift_enter_inserts_newline
            && m.shift) {
            edit(TextEditAction::InsertNewline)
        } else {
            None
        },
        KeyCode::Backspace => if alt_or_control(m) {
            edit(TextEditAction::BackspaceWord)
        } else {
            edit(TextEditAction::Backspace)
        },
        KeyCode::Delete => if alt_or_control(m) {
            edit(TextEditAction::DeleteWord)
        } else {
            edit(TextEditAction::Delete)
        },
        KeyCode::Left => if alt_or_control(m) {
            edit(TextEditAction::MoveWordLeft)
        } else {
            edit(TextEditAction::MoveLeft)
        },
        KeyCode::Right => if alt_or_control(m) {
            edit(TextEditAction::MoveWordRight)
        } else {
            edit(TextEditAction::MoveRight)
        },
        KeyCode::Up => edit(TextEditAction::MoveUp),
        KeyCode::Down => edit(TextEditAction::MoveDown),
        KeyCode::Home => edit(TextEditAction::MoveLineStart),
        KeyCode::End => edit(TextEditAction::MoveLineEnd),
        KeyCode::Char(ch) => if ch == 'a' && m.is_control_only() {
            edit(TextEditAction::MoveLineStart)
        } else if ch == 'w' && m.is_control_only() {
            edit(TextEditAction::BackspaceWord)
        } else if ch == 'e' && m.is_control_only() {
            edit(TextEditAction::MoveLineEnd)
        } else if m.is_none() || m.is_shift_only() {
            edit(TextEditAction::InsertChar(ch))
        } else {
            None
        },
        _ => None,
    }
}

/// Maps a key press in a text field to the edit it makes, if any.
pub fn map_text_input_key(key: KeyEvent, options: TextInputOptions) -> (r: Option<
    TextInputEvent,
>)
    ensures
        r == text_input_event(key, options),
{
    let m = key.modifiers;
    let word = m.alt || m.control;
    match key.code {
        KeyCode::Enter => {
            if options.submit_on_enter && !m.shift {
                Some(TextInputEvent::Submit)
            } else if options.enter_inserts_newline || (options.shift_enter_inserts_newline
                && m.shift) {
                Some(TextInputEvent::Edit(TextEditAction::InsertNewline))
            } else {
                None
            }
        },
        KeyCode::Backspace => Some(
            TextInputEvent::Edit(
                if word {
                    TextEditAction::BackspaceWord
                } else {
                    TextEditAction::Backspace
                },
            ),
        ),
        KeyCode::Delete => Some(
            TextInputEvent::Edit(
                if word {
                    TextEditAction::DeleteWord
                } else {
                    TextEditAction::Delete
                },
            ),
        ),
        KeyCode::Left => Some(
            TextInputEvent::Edit(
                if word {
                    TextEditAction::MoveWordLeft
                } else {
                    TextEditAction::MoveLeft
                },
            ),
        ),
        KeyCode::Right => Some(
            TextInputEvent::Edit(
                if word {
                    TextEditAction::MoveWordRight
                } else {
                    TextEditAction::MoveRight
                },
            ),
        ),
        KeyCode::Up => Some(TextInputEvent::Edit(TextEditAction::MoveUp)),
        KeyCode::Down => Some(TextInputEvent::Edit(TextEditAction::MoveDown)),
        KeyCode::Home => Some(TextInputEvent::Edit(TextEditAction::MoveLineStart)),
        KeyCode::End => Some(TextInputEvent::Edit(TextEditAction::MoveLineEnd)),
        KeyCode::Char(ch) => {
            let control_only = m.is_control_only_exec();
            if ch == 'a' && control_only {
                Some(TextInputEvent::Edit(TextEditAction::MoveLineStart))
            } else if ch == 'w' && control_only {
                Some(TextInputEvent::Edit(TextEditAction::BackspaceWord))
            } else if ch == 'e' && control_only {
                Some(TextInputEvent::Edit(TextEditAction::MoveLineEnd))
            } else if m.is_empty() || m.is_shift_only_exec() {
                Some(TextInputEvent::Edit(TextEditAction::InsertChar(ch)))
            } else {
                None
            }
        },
        _ => None,
    }
}

} // verus!
