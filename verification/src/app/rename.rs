//! Renaming a session: opening the field, and what submitting it does.
use vstd::prelude::*;

use crate::codec::{format_uuid, uuid_hyphenated};
use crate::editor::buffer::clamp_char_boundary;
use crate::editor::keys::{toggled, EditorTarget};
use crate::editor::vim::ComposerEditorMode;
use crate::model::domain::{Focus, Pane};
use crate::text::{byte_len, byte_offset, chars_of, floor_char, len_fits, str_len, string_of, trim, trim_chars};

verus! {

/// The session-rename field: the session, the name being typed and the
/// cursor (a byte position in it).
#[derive(Debug, Clone, PartialEq, Eq)]
pub struct SessionRenameState {
    pub session_id: u128,
    pub name: String,
    pub cursor: usize,
}

/// What asking to rename a session leads to.
#[derive(Debug, Clone, PartialEq, Eq)]
pub enum RenameOpen {
    /// Renaming is offered only from the detail panel on the chat or logs
    /// pane: nothing happens.
    NotHere,
    /// "Select a real session to rename".
    NoSession,
    /// The field opens on the session's name ("Rename session").
    Open(SessionRenameState),
}

/// The name the field starts with: the session's name, else its id.
pub open spec fn initial_name(session_id: u128, name: Option<Seq<char>>) -> Seq<char> {
    match name {
        Some(n) => n,
        None => uuid_hyphenated(session_id),
    }
}

/// Opens the rename field for the selected session (`session`: its id and
/// name), with the cursor at the end of the name.
pub fn open_session_rename(focus: Focus, pane: Pane, session: Option<(u128, Option<String>)>) -> (r: RenameOpen)
    ensures
        focus != Focus::Detail || !(pane == Pane::Chat || pane == Pane::Logs) ==> r == RenameOpen::NotHere,
        focus == Focus::Detail && (pane == Pane::Chat || pane == Pane::Logs) && session is None ==> r
            == RenameOpen::NoSession,
        focus == Focus::Detail && (pane == Pane::Chat || pane == Pane::Logs) ==> match session {
            Some((id, name)) => r matches RenameOpen::Open(st) && st.session_id == id && st.name@
                == initial_name(
                id,
                match name {
                    Some(n) => Some(n@),
                    None => None,
                },
            ) && st.cursor == byte_len(st.name@),
            None => true,
        },
{
    if focus != Focus::Detail || !(pane == Pane::Chat || pane == Pane::Logs) {
        return RenameOpen::NotHere;
    }
    let (session_id, name) = match session {
        None => {
            return RenameOpen::NoSession;
        },
        Some(s) => s,
    };
    let name = match name {
        Some(n) => n,
        None => format_uuid(session_id),
    };
    let cursor = str_len(name.as_str());
    RenameOpen::Open(SessionRenameState { session_id, name, cursor })
}

/// What submitting the rename field leads to.
#[derive(Debug, Clone, PartialEq, Eq)]
pub enum RenameSubmit {
    /// The name is blank: the field stays open ("Session name cannot be
    /// empty", also shown as the error).
    Blank,
    /// Rename the session to the trimmed name; on success "Renamed session
    /// to " and the name.
    Rename { session_id: u128, name: String },
}

/// Decides what submitting the rename field does.
pub fn submit_session_rename(rename: &SessionRenameState) -> (r: RenameSubmit)
    ensures
        trim(rename.name@).len() == 0 ==> r == RenameSubmit::Blank,
        trim(rename.name@).len() > 0 ==> (r matches RenameSubmit::Rename { session_id, name }
            && session_id == rename.session_id && name@ == trim(rename.name@)),
{
    let t = trim_chars(&chars_of(rename.name.as_str()));
    if t.len() == 0 {
        RenameSubmit::Blank
    } else {
        RenameSubmit::Rename { session_id: rename.session_id, name: string_of(t.as_slice()) }
    }
}

/// The field after the backend refused the rename: it reopens with the
/// name as typed and the cursor moved back onto a char boundary.
pub fn rename_failed(rename: SessionRenameState) -> (r: SessionRenameState)
    requires
        len_fits(rename.name@),
    ensures
        r.session_id == rename.session_id,
        r.name == rename.name,
        r.cursor == byte_offset(rename.name@, floor_char(rename.name@, rename.cursor as int) as int),
{
    let cursor = clamp_char_boundary(rename.name.as_str(), rename.cursor);
    SessionRenameState { session_id: rename.session_id, name: rename.name, cursor }
}

/// The label of an editor mode.
pub fn editor_mode_label(mode: ComposerEditorMode) -> (r: &'static str)
    ensures
        r@ == match mode {
            ComposerEditorMode::Standard => "standard"@,
            ComposerEditorMode::Vim(crate::editor::vim::VimMode::Insert) => "vim insert"@,
            ComposerEditorMode::Vim(crate::editor::vim::VimMode::Normal) => "vim normal"@,
        },
{
    match mode {
        ComposerEditorMode::Standard => "standard",
        ComposerEditorMode::Vim(crate::editor::vim::VimMode::Insert) => "vim insert",
        ComposerEditorMode::Vim(crate::editor::vim::VimMode::Normal) => "vim normal",
    }
}

/// The editor panel's title: "Notes Editor" on the notes pane, else
/// "Composer", with the mode's label in brackets.
pub fn editor_panel_title(pane: Pane, mode: ComposerEditorMode) -> (r: String)
    ensures
        r@ == (if pane == Pane::Notes {
            "Notes Editor"@
        } else {
            "Composer"@
        }) + " ["@ + editor_mode_label_text(mode) + "]"@,
{
    let mut title = String::from_str(if pane == Pane::Notes {
        "Notes Editor"
    } else {
        "Composer"
    });
    crate::text::push_str(&mut title, " [");
    crate::text::push_str(&mut title, editor_mode_label(mode));
    crate::text::push_str(&mut title, "]");
    title
}

/// The label of an editor mode, as text.
pub open spec fn editor_mode_label_text(mode: ComposerEditorMode) -> Seq<char> {
    match mode {
        ComposerEditorMode::Standard => "standard"@,
        ComposerEditorMode::Vim(crate::editor::vim::VimMode::Insert) => "vim insert"@,
        ComposerEditorMode::Vim(crate::editor::vim::VimMode::Normal) => "vim normal"@,
    }
}

/// The status after toggling the editor mode: "Editor mode: " and the new
/// mode's label.
pub fn toggle_editor_mode(mode: &mut ComposerEditorMode) -> (r: String)
    ensures
        *final(mode) == toggled(*old(mode)),
        r@ == "Editor mode: "@ + editor_mode_label_text(*final(mode)),
{
    *mode = match *mode {
        ComposerEditorMode::Standard => ComposerEditorMode::Vim(crate::editor::vim::VimMode::Insert),
        ComposerEditorMode::Vim(_) => ComposerEditorMode::Standard,
    };
    let mut status = String::from_str("Editor mode: ");
    crate::text::push_str(&mut status, editor_mode_label(*mode));
    status
}

} // verus!
