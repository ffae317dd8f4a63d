//! Where a key press goes: an open picker or prompt takes it first, then
//! the terminal in input mode, the editors, the chat's own keys, the
//! new-workspace form, and last the global key map.
use vstd::prelude::*;

use crate::input::keymap::{app_intent, map_app_key, AppIntent};
use crate::input::keys::{KeyCode, KeyEvent};
use crate::input::terminal::{map_terminal_key, terminal_response, TerminalInput};
use crate::app::update::NetEvent;
use crate::model::domain::{Focus, Pane};

verus! {

/// A picker or prompt that, while open, takes every key.
#[derive(Debug, Clone, Copy, PartialEq, Eq, Structural)]
pub enum Modal {
    AgentPicker,
    ProjectFilterPicker,
    RepoPicker,
    BranchPicker,
    SessionRename,
    SearchPrompt,
}

/// Which pickers and prompts are open.
#[derive(Debug, Clone, Copy, PartialEq, Eq, Structural)]
pub struct OpenModals {
    pub agent_picker: bool,
    pub project_filter_picker: bool,
    pub repo_picker: bool,
    pub branch_picker: bool,
    pub session_rename: bool,
    pub search_prompt: bool,
}

/// What the key routing sees of the screen.
#[derive(Debug, Clone, Copy, PartialEq, Eq, Structural)]
pub struct KeyContext {
    pub modals: OpenModals,
    pub creating_workspace: bool,
    pub creating_new_session: bool,
    pub terminal_input_mode: bool,
    pub focus: Focus,
    pub pane: Pane,
    /// The key, pressed in the notes pane, opens the notes editor.
    pub key_opens_notes_editor: bool,
    pub conversation_search_open: bool,
    /// A repository of the workspace being created is selected.
    pub create_repo_selected: bool,
}

/// Where a key goes.
#[derive(Debug, Clone)]
pub enum KeyRoute {
    /// To the open picker or prompt.
    Modal(Modal),
    CancelWorkspaceCreate,
    ExitTerminalInput,
    SendTerminalBytes(Vec<u8>),
    /// The terminal is in input mode and ignores the key.
    TerminalIgnored,
    /// Focus the notes editor and give it the key.
    OpenNotesEditor,
    /// To the composer (or, with `notes`, the notes) editor.
    Editor { notes: bool },
    JumpUserMessage { forward: bool },
    AdvanceSearch { forward: bool },
    OpenCreateRepoPicker,
    OpenCreateBranchPicker,
    RemoveCreateRepo,
    Intent(AppIntent),
    Ignored,
}

/// The first open picker or prompt, in the order they take keys.
pub open spec fn first_modal(m: OpenModals) -> Option<Modal> {
    if m.agent_picker {
        Some(Modal::AgentPicker)
    } else if m.project_filter_picker {
        Some(Modal::ProjectFilterPicker)
    } else if m.repo_picker {
        Some(Modal::RepoPicker)
    } else if m.branch_picker {
        Some(Modal::BranchPicker)
    } else if m.session_rename {
        Some(Modal::SessionRename)
    } else if m.search_prompt {
        Some(Modal::SearchPrompt)
    } else {
        None
    }
}

/// Where a key goes, except for the bytes the terminal sends (see
/// `terminal_response`): `None` stands for the terminal's own handling.
pub open spec fn key_route(ctx: KeyContext, key: KeyEvent) -> Option<KeyRoute> {
    let code = key.code;
    if first_modal(ctx.modals) is Some {
        Some(KeyRoute::Modal(first_modal(ctx.modals)->0))
    } else if ctx.creating_workspace && code == KeyCode::Esc {
        Some(KeyRoute::CancelWorkspaceCreate)
    } else if ctx.terminal_input_mode && ctx.pane == Pane::Terminal {
        None
    } else if ctx.focus == Focus::Main && ctx.pane == Pane::Notes && ctx.key_opens_notes_editor {
        Some(KeyRoute::OpenNotesEditor)
    } else if ctx.focus == Focus::Composer && (ctx.pane == Pane::Chat || ctx.pane == Pane::Notes) {
        Some(KeyRoute::Editor { notes: ctx.pane == Pane::Notes })
    } else if ctx.focus == Focus::Main && ctx.pane == Pane::Chat && (code == KeyCode::Char('[')
        || code == KeyCode::Char(']')) {
        Some(KeyRoute::JumpUserMessage { forward: code == KeyCode::Char(']') })
    } else if ctx.focus == Focus::Main && ctx.pane == Pane::Chat && ctx.conversation_search_open && (
    code == KeyCode::Char('n') || code == KeyCode::Char('N')) {
        Some(KeyRoute::AdvanceSearch { forward: code == KeyCode::Char('n') })
    } else if ctx.creating_workspace && ctx.focus == Focus::Detail && ctx.pane == Pane::Chat && (
    code == KeyCode::Char('a') || code == KeyCode::Enter || code == KeyCode::Char('d') || code
        == KeyCode::Backspace) {
        Some(
            if code == KeyCode::Char('a') {
                KeyRoute::OpenCreateRepoPicker
            } else if code == KeyCode::Enter {
                if ctx.create_repo_selected {
                    KeyRoute::OpenCreateBranchPicker
                } else {
                    KeyRoute::OpenCreateRepoPicker
                }
            } else {
                KeyRoute::RemoveCreateRepo
            },
        )
    } else {
        match app_intent(key, ctx.creating_new_session, ctx.pane) {
            Some(intent) => Some(KeyRoute::Intent(intent)),
            None => Some(KeyRoute::Ignored),
        }
    }
}

fn open_modal(m: &OpenModals) -> (r: Option<Modal>)
    ensures
        r == first_modal(*m),
{
    if m.agent_picker {
        Some(Modal::AgentPicker)
    } else if m.project_filter_picker {
        Some(Modal::ProjectFilterPicker)
    } else if m.repo_picker {
        Some(Modal::RepoPicker)
    } else if m.branch_picker {
        Some(Modal::BranchPicker)
    } else if m.session_rename {
        Some(Modal::SessionRename)
    } else if m.search_prompt {
        Some(Modal::SearchPrompt)
    } else {
        None
    }
}

/// Where a key press goes.
pub fn route_key(ctx: &KeyContext, key: KeyEvent) -> (r: KeyRoute)
    ensures
        match key_route(*ctx, key) {
            Some(route) => r == route,
            None => match terminal_response(key) {
                None => r is TerminalIgnored,
                Some(None) => r is ExitTerminalInput,
                Some(Some(bytes)) => r matches KeyRoute::SendTerminalBytes(b) && b@ == bytes,
            },
        },
{
    let code = key.code;
    if let Some(m) = open_modal(&ctx.modals) {
        return KeyRoute::Modal(m);
    }
    if ctx.creating_workspace && code == KeyCode::Esc {
        return KeyRoute::CancelWorkspaceCreate;
    }
    if ctx.terminal_input_mode && ctx.pane == Pane::Terminal {
        return match map_terminal_key(key) {
            Some(TerminalInput::ExitInputMode) => KeyRoute::ExitTerminalInput,
            Some(TerminalInput::SendBytes(bytes)) => KeyRoute::SendTerminalBytes(bytes),
            None => KeyRoute::TerminalIgnored,
        };
    }
    if ctx.focus == Focus::Main && ctx.pane == Pane::Notes && ctx.key_opens_notes_editor {
        return KeyRoute::OpenNotesEditor;
    }
    if ctx.focus == Focus::Composer {
        match ctx.pane {
            Pane::Chat => {
                return KeyRoute::Editor { notes: false };
            },
            Pane::Notes => {
                return KeyRoute::Editor { notes: true };
            },
            _ => {},
        }
    }
    if ctx.focus == Focus::Main && ctx.pane == Pane::Chat {
        match code {
            KeyCode::Char('[') => {
                return KeyRoute::JumpUserMessage { forward: false };
            },
            KeyCode::Char(']') => {
                return KeyRoute::JumpUserMessage { forward: true };
            },
            KeyCode::Char('n') if ctx.conversation_search_open => {
                return KeyRoute::AdvanceSearch { forward: true };
            },
            KeyCode::Char('N') if ctx.conversation_search_open => {
                return KeyRoute::AdvanceSearch { forward: false };
            },
            _ => {},
        }
    }
    if ctx.creating_workspace && ctx.focus == Focus::Detail && ctx.pane == Pane::Chat {
        match code {
            KeyCode::Char('a') => {
                return KeyRoute::OpenCreateRepoPicker;
            },
            KeyCode::Enter => {
                return if ctx.create_repo_selected {
                    KeyRoute::OpenCreateBranchPicker
                } else {
                    KeyRoute::OpenCreateRepoPicker
                };
            },
            KeyCode::Char('d') | KeyCode::Backspace => {
                return KeyRoute::RemoveCreateRepo;
            },
            _ => {},
        }
    }
    match map_app_key(key, ctx.creating_new_session, &ctx.pane) {
        Some(intent) => KeyRoute::Intent(intent),
        None => KeyRoute::Ignored,
    }
}

/// Redraws after a backend event wait while the user is typing: always
/// within this many milliseconds of the last key.
pub const KEY_REDRAW_DELAY_MS: u64 = 45;

/// How an event bears on redrawing while the user types.
#[derive(Debug, Clone, Copy, PartialEq, Eq, Structural)]
pub enum RedrawClass {
    /// Data that can wait while the user types.
    Background,
    /// Terminal output, urgent only while the terminal is shown.
    Terminal,
    /// The answer to something the user did: shown at once.
    Feedback,
}

/// The screen is in a mode where typing should not be interrupted: the
/// composer has the focus, a session is being renamed, or the shown
/// terminal takes input.
pub open spec fn input_sensitive(focus: Focus, renaming_session: bool, terminal_input_mode: bool, pane: Pane) -> bool {
    focus == Focus::Composer || renaming_session || (terminal_input_mode && pane == Pane::Terminal)
}

/// Whether to hold back the redraw after an event: right after a key,
/// always; while typing, for background data, and for terminal output when
/// the terminal is not shown.
pub open spec fn defer_redraw(
    class: RedrawClass,
    ms_since_key: u64,
    focus: Focus,
    renaming_session: bool,
    terminal_input_mode: bool,
    pane: Pane,
) -> bool {
    if ms_since_key < KEY_REDRAW_DELAY_MS {
        true
    } else if !input_sensitive(focus, renaming_session, terminal_input_mode, pane) {
        false
    } else {
        match class {
            RedrawClass::Background => true,
            RedrawClass::Terminal => pane != Pane::Terminal,
            RedrawClass::Feedback => false,
        }
    }
}

/// Whether to hold back the redraw after an event of the given class.
pub fn should_defer_net_event_redraw(
    class: RedrawClass,
    ms_since_key: u64,
    focus: Focus,
    renaming_session: bool,
    terminal_input_mode: bool,
    pane: Pane,
) -> (r: bool)
    ensures
        r == defer_redraw(class, ms_since_key, focus, renaming_session, terminal_input_mode, pane),
{
    if ms_since_key < KEY_REDRAW_DELAY_MS {
        return true;
    }
    if !(focus == Focus::Composer || renaming_session || (terminal_input_mode && pane
        == Pane::Terminal)) {
        return false;
    }
    match class {
        RedrawClass::Background => true,
        RedrawClass::Terminal => pane != Pane::Terminal,
        RedrawClass::Feedback => false,
    }
}

/// How an event bears on redrawing: terminal traffic, answers to the
/// user's own requests, or background data.
pub open spec fn class_of(e: NetEvent) -> RedrawClass {
    match e {
        NetEvent::TerminalConnected { .. } | NetEvent::TerminalOutput { .. }
        | NetEvent::TerminalError { .. } => RedrawClass::Terminal,
        NetEvent::DraftSaved { .. } | NetEvent::DraftSaveFailed { .. } | NetEvent::NotesSaved { .. }
        | NetEvent::NotesSaveFailed { .. } | NetEvent::PromptSubmitted { .. }
        | NetEvent::PromptSubmissionFailed { .. } | NetEvent::QueuedPrompt { .. }
        | NetEvent::QueuePromptFailed { .. } | NetEvent::QueueCancelled { .. }
        | NetEvent::QueueCancelFailed { .. } | NetEvent::DraftDiscarded { .. }
        | NetEvent::DraftDiscardFailed { .. } | NetEvent::WorkspaceActionFinished { .. }
        | NetEvent::Error { .. } => RedrawClass::Feedback,
        _ => RedrawClass::Background,
    }
}

/// The redraw class of an event.
pub fn redraw_class(event: &NetEvent) -> (r: RedrawClass)
    ensures
        r == class_of(*event),
{
    match event {
        NetEvent::TerminalConnected { .. } | NetEvent::TerminalOutput { .. }
        | NetEvent::TerminalError { .. } => RedrawClass::Terminal,
        NetEvent::DraftSaved { .. } | NetEvent::DraftSaveFailed { .. } | NetEvent::NotesSaved { .. }
        | NetEvent::NotesSaveFailed { .. } | NetEvent::PromptSubmitted { .. }
        | NetEvent::PromptSubmissionFailed { .. } | NetEvent::QueuedPrompt { .. }
        | NetEvent::QueuePromptFailed { .. } | NetEvent::QueueCancelled { .. }
        | NetEvent::QueueCancelFailed { .. } | NetEvent::DraftDiscarded { .. }
        | NetEvent::DraftDiscardFailed { .. } | NetEvent::WorkspaceActionFinished { .. }
        | NetEvent::Error { .. } => RedrawClass::Feedback,
        _ => RedrawClass::Background,
    }
}

} // verus!
