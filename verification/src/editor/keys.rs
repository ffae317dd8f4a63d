//! Keys in the editors (the composer, the notes and the session-rename
//! field): the mode key, escape, vim normal mode and text input.
use vstd::prelude::*;

use crate::editor::actions::{apply_text_edit_action, edit_outcome, TextEditAction};
use crate::editor::normal::{handle_vim_normal_key, moves_by_word, normal_key_result, VimKeyOutcome};
use crate::editor::vim::{min_cursor, ComposerEditorMode, VimMode, VimOperator};
use crate::input::editor::{map_text_input_key, text_input_event, TextInputEvent, TextInputOptions};
use crate::input::keys::{KeyCode, KeyEvent};
use crate::text::{chars_of, is_boundary, len_fits, trim, trim_chars};

verus! {

/// The editor a key goes to.
#[derive(Debug, Clone, Copy, PartialEq, Eq, Structural)]
pub enum EditorTarget {
    Composer,
    Notes,
    SessionRename,
}

/// How each editor takes enter: the composer submits (shift-enter breaks
/// the line), the notes break the line, the rename field submits.
pub open spec fn options_for(target: EditorTarget) -> TextInputOptions {
    match target {
        EditorTarget::Composer => TextInputOptions {
            submit_on_enter: true,
            enter_inserts_newline: false,
            shift_enter_inserts_newline: true,
        },
        EditorTarget::Notes => TextInputOptions {
            submit_on_enter: false,
            enter_inserts_newline: true,
            shift_enter_inserts_newline: false,
        },
        EditorTarget::SessionRename => TextInputOptions {
            submit_on_enter: true,
            enter_inserts_newline: false,
            shift_enter_inserts_newline: false,
        },
    }
}

/// How an editor takes enter.
pub fn text_input_options(target: EditorTarget) -> (r: TextInputOptions)
    ensures
        r == options_for(target),
{
    match target {
        EditorTarget::Composer => TextInputOptions {
            submit_on_enter: true,
            enter_inserts_newline: false,
            shift_enter_inserts_newline: true,
        },
        EditorTarget::Notes => TextInputOptions {
            submit_on_enter: false,
            enter_inserts_newline: true,
            shift_enter_inserts_newline: false,
        },
        EditorTarget::SessionRename => TextInputOptions {
            submit_on_enter: true,
            enter_inserts_newline: false,
            shift_enter_inserts_newline: false,
        },
    }
}

/// What a key in an editor asks of the screen around it.
#[derive(Debug, Clone, Copy, PartialEq, Eq, Structural)]
pub enum EditorKeyAction {
    /// F2: the editor mode was toggled ("Editor mode: " and its label).
    ToggledMode,
    /// Escape on an empty composer while a new session is being started:
    /// cancel starting it.
    CancelNewSession,
    /// Escape: the focus goes back to the main panel.
    LeaveEditor,
    /// Escape in vim insert mode: back to normal mode ("Editor mode: Vim
    /// Normal").
    VimNormal,
    /// Escape in the rename field: stop renaming ("Cancelled session
    /// rename").
    CancelRename,
    /// Submit the text.
    Submit,
    /// A text edit; `changed` tells whether text or cursor moved.
    Edited { changed: bool },
    /// A vim normal-mode command, with its outcome.
    Vim(VimKeyOutcome),
    /// The key does nothing.
    Ignored,
}

/// The other editor mode: standard switches to vim insert, vim back to
/// standard.
pub open spec fn toggled(m: ComposerEditorMode) -> ComposerEditorMode {
    match m {
        ComposerEditorMode::Standard => ComposerEditorMode::Vim(VimMode::Insert),
        ComposerEditorMode::Vim(_) => ComposerEditorMode::Standard,
    }
}

/// A key as text input: submit, or the edit it makes to text and cursor.
pub open spec fn text_key_result(s: Seq<char>, cursor: int, key: KeyEvent, target: EditorTarget) -> (
    Seq<char>,
    int,
    EditorKeyAction,
) {
    match text_input_event(key, options_for(target)) {
        Some(TextInputEvent::Submit) => (s, cursor, EditorKeyAction::Submit),
        Some(TextInputEvent::Edit(a)) => {
            let (s2, c2, changed) = edit_outcome(s, cursor, a);
            (s2, c2, EditorKeyAction::Edited { changed })
        },
        None => (s, cursor, EditorKeyAction::Ignored),
    }
}

/// What escape does outside vim normal mode's own keys: in the rename field
/// it stops renaming; in the composer, empty while a new session is being
/// started, it cancels that; otherwise it leaves the editor.
pub open spec fn escape_action(target: EditorTarget, s: Seq<char>, creating_new_session: bool) -> EditorKeyAction {
    if target == EditorTarget::SessionRename {
        EditorKeyAction::CancelRename
    } else if target == EditorTarget::Composer && creating_new_session && trim(s).len() == 0 {
        EditorKeyAction::CancelNewSession
    } else {
        EditorKeyAction::LeaveEditor
    }
}

/// A key in an editor: new mode, text, cursor, pending vim operator, and
/// what the screen is to do. F2 toggles the mode. In standard mode escape
/// leaves (see `escape_action`) and other keys are text input; in vim
/// insert mode escape goes to normal mode (or cancels an empty new
/// session) and other keys are text input; in vim normal mode the key is a
/// vim command if it is one (enter submits only in the composer), and
/// otherwise escape leaves.
pub open spec fn editor_key_result(
    target: EditorTarget,
    mode: ComposerEditorMode,
    s: Seq<char>,
    cursor: int,
    pending: Option<VimOperator>,
    key: KeyEvent,
    creating_new_session: bool,
) -> (ComposerEditorMode, Seq<char>, int, Option<VimOperator>, EditorKeyAction) {
    if key.code == KeyCode::F(2) {
        (toggled(mode), s, cursor, pending, EditorKeyAction::ToggledMode)
    } else {
        match mode {
            ComposerEditorMode::Standard => if key.code == KeyCode::Esc {
                (mode, s, cursor, pending, escape_action(target, s, creating_new_session))
            } else {
                let (s2, c2, a) = text_key_result(s, cursor, key, target);
                (mode, s2, c2, pending, a)
            },
            ComposerEditorMode::Vim(VimMode::Insert) => if key.code == KeyCode::Esc {
                if escape_action(target, s, creating_new_session) == EditorKeyAction::CancelNewSession {
                    (mode, s, cursor, pending, EditorKeyAction::CancelNewSession)
                } else {
                    (ComposerEditorMode::Vim(VimMode::Normal), s, cursor, pending, EditorKeyAction::VimNormal)
                }
            } else {
                let (s2, c2, a) = text_key_result(s, cursor, key, target);
                (mode, s2, c2, pending, a)
            },
            ComposerEditorMode::Vim(VimMode::Normal) => {
                let (s2, c2, p2, o) = normal_key_result(
                    s,
                    cursor,
                    pending,
                    key,
                    target == EditorTarget::Composer,
                );
                if o.handled {
                    (
                        if o.enter_insert {
                            ComposerEditorMode::Vim(VimMode::Insert)
                        } else {
                            mode
                        },
                        s2,
                        c2,
                        p2,
                        EditorKeyAction::Vim(o),
                    )
                } else if key.code == KeyCode::Esc {
                    (mode, s2, c2, p2, escape_action(target, s, creating_new_session))
                } else {
                    (mode, s2, c2, p2, EditorKeyAction::Ignored)
                }
            },
        }
    }
}

fn escape(target: EditorTarget, buffer: &String, creating_new_session: bool) -> (r: EditorKeyAction)
    ensures
        r == escape_action(target, buffer@, creating_new_session),
{
    match target {
        EditorTarget::SessionRename => EditorKeyAction::CancelRename,
        EditorTarget::Composer => {
            if creating_new_session && trim_chars(&chars_of(buffer.as_str())).len() == 0 {
                EditorKeyAction::CancelNewSession
            } else {
                EditorKeyAction::LeaveEditor
            }
        },
        EditorTarget::Notes => EditorKeyAction::LeaveEditor,
    }
}

/// The key is text input that moves by a word: it reads the text from the
/// cursor on as it stands, so the cursor must lie on a char boundary.
pub open spec fn text_moves_by_word(key: KeyEvent, target: EditorTarget) -> bool {
    match text_input_event(key, options_for(target)) {
        Some(TextInputEvent::Edit(a)) => a == TextEditAction::MoveWordLeft || a
            == TextEditAction::MoveWordRight,
        _ => false,
    }
}

/// The key, in this mode, moves the cursor by a word from where it stands;
/// every other key first moves the cursor back to the char boundary at or
/// before it.
pub open spec fn needs_char_boundary(
    target: EditorTarget,
    mode: ComposerEditorMode,
    pending: Option<VimOperator>,
    key: KeyEvent,
) -> bool {
    key.code != KeyCode::F(2) && match mode {
        ComposerEditorMode::Vim(VimMode::Normal) => moves_by_word(pending, key),
        _ => key.code != KeyCode::Esc && text_moves_by_word(key, target),
    }
}

fn text_key(buffer: &mut String, cursor: &mut usize, key: KeyEvent, target: EditorTarget) -> (r: EditorKeyAction)
    requires
        len_fits(old(buffer)@),
        text_moves_by_word(key, target) ==> is_boundary(
            old(buffer)@,
            min_cursor(old(buffer)@, *old(cursor)),
        ),
    ensures
        (final(buffer)@, *final(cursor) as int, r) == text_key_result(
            old(buffer)@,
            *old(cursor) as int,
            key,
            target,
        ),
{
    match map_text_input_key(key, text_input_options(target)) {
        Some(TextInputEvent::Submit) => EditorKeyAction::Submit,
        Some(TextInputEvent::Edit(action)) => {
            let changed = apply_text_edit_action(buffer, cursor, action);
            EditorKeyAction::Edited { changed }
        },
        None => EditorKeyAction::Ignored,
    }
}

/// Handles a key in an editor. For a key that moves by a word the cursor
/// must lie on a char boundary (see `needs_char_boundary`).
pub fn handle_editor_key(
    target: EditorTarget,
    mode: &mut ComposerEditorMode,
    buffer: &mut String,
    cursor: &mut usize,
    pending: &mut Option<VimOperator>,
    key: KeyEvent,
    creating_new_session: bool,
) -> (r: EditorKeyAction)
    requires
        len_fits(old(buffer)@),
        needs_char_boundary(target, *old(mode), *old(pending), key) ==> is_boundary(
            old(buffer)@,
            min_cursor(old(buffer)@, *old(cursor)),
        ),
    ensures
        (*final(mode), final(buffer)@, *final(cursor) as int, *final(pending), r) == editor_key_result(
            target,
            *old(mode),
            old(buffer)@,
            *old(cursor) as int,
            *old(pending),
            key,
            creating_new_session,
        ),
{
    if key.code == KeyCode::F(2) {
        *mode = match *mode {
            ComposerEditorMode::Standard => ComposerEditorMode::Vim(VimMode::Insert),
            ComposerEditorMode::Vim(_) => ComposerEditorMode::Standard,
        };
        return EditorKeyAction::ToggledMode;
    }
    match *mode {
        ComposerEditorMode::Standard => {
            if key.code == KeyCode::Esc {
                escape(target, buffer, creating_new_session)
            } else {
                text_key(buffer, cursor, key, target)
            }
        },
        ComposerEditorMode::Vim(VimMode::Insert) => {
            if key.code == KeyCode::Esc {
                let e = escape(target, buffer, creating_new_session);
                if e == EditorKeyAction::CancelNewSession {
                    e
                } else {
                    *mode = ComposerEditorMode::Vim(VimMode::Normal);
                    EditorKeyAction::VimNormal
                }
            } else {
                text_key(buffer, cursor, key, target)
            }
        },
        ComposerEditorMode::Vim(VimMode::Normal) => {
            let ghost s0 = buffer@;
            let o = handle_vim_normal_key(
                buffer,
                cursor,
                pending,
                key,
                target == EditorTarget::Composer,
            );
            if o.handled {
                if o.enter_insert {
                    *mode = ComposerEditorMode::Vim(VimMode::Insert);
                }
                EditorKeyAction::Vim(o)
            } else if key.code == KeyCode::Esc {
                let ghost s1 = buffer@;
                proof {
                    assert(s1 == s0);
                }
                escape(target, buffer, creating_new_session)
            } else {
                EditorKeyAction::Ignored
            }
        },
    }
}

} // verus!
