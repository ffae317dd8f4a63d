//! Keys pressed on the workspace screen: which command each one gives.
use vstd::prelude::*;

use crate::input::keys::{KeyCode, KeyEvent};
use crate::model::Pane;

verus! {

#[derive(Debug, Clone, PartialEq, Eq, Structural)]
pub enum AppIntent {
    CancelNewSession,
    ToggleComposerEditorMode,
    ToggleMaximizedPanel,
    Quit,
    FocusNext,
    FocusPrev,
    ShowHelp,
    OpenSearch,
    SelectPane(Pane),
    ToggleShowArchived,
    EnterEditMode,
    StartNewSession,
    TogglePinned,
    ToggleArchived,
    StartDevServer,
    RunCleanup,
    StopWorkspace,
    OpenEditor,
    OpenSessionRename,
    CycleExecutor,
    CycleVariant,
    CycleModel,
    CycleReasoning,
    OpenAgentPicker,
    CyclePermissionMode,
    QueuePrompt,
    CancelQueuedPrompt,
    DiscardDraft,
    ToggleDiffViewMode,
    ToggleToolRunCollapse,
    PrevUserMessage,
    NextUserMessage,
    Enter,
    JumpToStart,
    JumpToEnd,
    MoveSelection(i32),
    PageSelection(i32),
    EnterTerminalInputMode,
}

/// The command bound to a plain char key (control-w is handled apart).
pub open spec fn char_intent(ch: char) -> Option<AppIntent> {
    if ch == 'q' {
        Some(AppIntent::Quit)
    } else if ch == '?' {
        Some(AppIntent::ShowHelp)
    } else if ch == '/' {
        Some(AppIntent::OpenSearch)
    } else if ch == '1' {
        Some(AppIntent::SelectPane(Pane::Chat))
    } else if ch == '2' {
        Some(AppIntent::SelectPane(Pane::Changes))
    } else if ch == '3' {
        Some(AppIntent::SelectPane(Pane::Logs))
    } else if ch == '4' {
        Some(AppIntent::SelectPane(Pane::Git))
    } else if ch == '5' {
        Some(AppIntent::SelectPane(Pane::Terminal))
    } else if ch == '6' {
        Some(AppIntent::SelectPane(Pane::Notes))
    } else if ch == 'a' {
        Some(AppIntent::ToggleShowArchived)
    } else if ch == 'i' {
        Some(AppIntent::EnterEditMode)
    } else if ch == 'n' {
        Some(AppIntent::StartNewSession)
    } else if ch == 'p' {
        Some(AppIntent::TogglePinned)
    } else if ch == 'x' {
        Some(AppIntent::ToggleArchived)
    } else if ch == 's' {
        Some(AppIntent::StartDevServer)
    } else if ch == 'c' {
        Some(AppIntent::RunCleanup)
    } else if ch == 'v' {
        Some(AppIntent::StopWorkspace)
    } else if ch == 'e' {
        Some(AppIntent::OpenEditor)
    } else if ch == 'r' {
        Some(AppIntent::OpenSessionRename)
    } else if ch == 'E' {
        Some(AppIntent::CycleExecutor)
    } else if ch == 'V' {
        Some(AppIntent::CycleVariant)
    } else if ch == 'M' {
        Some(AppIntent::CycleModel)
    } else if ch == 'R' {
        Some(AppIntent::CycleReasoning)
    } else if ch == 'A' {
        Some(AppIntent::OpenAgentPicker)
    } else if ch == 'P' {
        Some(AppIntent::CyclePermissionMode)
    } else if ch == 'Q' {
        Some(AppIntent::QueuePrompt)
    } else if ch == 'X' {
        Some(AppIntent::CancelQueuedPrompt)
    } else if ch == 'D' {
        Some(AppIntent::DiscardDraft)
    } else if ch == 'b' {
        Some(AppIntent::ToggleDiffViewMode)
    } else if ch == 'T' {
        Some(AppIntent::ToggleToolRunCollapse)
    } else if ch == '[' {
        Some(AppIntent::PrevUserMessage)
    } else if ch == ']' {
        Some(AppIntent::NextUserMessage)
    } else if ch == 'j' {
        Some(AppIntent::MoveSelection(1i32))
    } else if ch == 'k' {
        Some(AppIntent::MoveSelection(-1i32))
    } else if ch == 't' {
        Some(AppIntent::EnterTerminalInputMode)
    } else {
        None
    }
}

/// The workspace-screen key table. Escape cancels a new session only while
/// one is being created in the chat pane; control-w maximizes the panel;
/// super with an arrow jumps to the start or end; up and down (and j, k)
/// move the selection, page up and down page it.
pub open spec fn app_intent(key: KeyEvent, creating_new_session: bool, selected_pane: Pane) -> Option<
    AppIntent,
> {
    let m = key.modifiers;
    match key.code {
        KeyCode::Esc => if creating_new_session && selected_pane == Pane::Chat {
            Some(AppIntent::CancelNewSession)
        } else {
            None
        },
        KeyCode::F(n) => if n == 2 {
            Some(AppIntent::ToggleComposerEditorMode)
        } else {
            None
        },
        KeyCode::Char(ch) => if ch == 'w' {
            if m.is_control_only() {
                Some(AppIntent::ToggleMaximizedPanel)
            } else {
                None
            }
        } else {
            char_intent(ch)
        },
        KeyCode::Tab => Some(AppIntent::FocusNext),
        KeyCode::BackTab => Some(AppIntent::FocusPrev),
        KeyCode::Enter => Some(AppIntent::Enter),
        KeyCode::Home => Some(AppIntent::JumpToStart),
        KeyCode::End => Some(AppIntent::JumpToEnd),
        KeyCode::Left => if m.super_key {
            Some(AppIntent::JumpToStart)
        } else {
            None
        },
        KeyCode::Right => if m.super_key {
            Some(AppIntent::JumpToEnd)
        } else {
            None
        },
        KeyCode::Up => if m.super_key {
            Some(AppIntent::JumpToStart)
        } else {
            Some(AppIntent::MoveSelection(-1i32))
        },
        KeyCode::Down => if m.super_key {
            Some(AppIntent::JumpToEnd)
        } else {
            Some(AppIntent::MoveSelection(1i32))
        },
        KeyCode::PageDown => Some(AppIntent::PageSelection(1i32)),
        KeyCode::PageUp => Some(AppIntent::PageSelection(-1i32)),
        _ => None,
    }
}

fn map_char_key(ch: char) -> (r: Option<AppIntent>)
    ensures
        r == char_intent(ch),
{
    match ch {
        'q' => Some(AppIntent::Quit),
        '?' => Some(AppIntent::ShowHelp),
        '/' => Some(AppIntent::OpenSearch),
        '1' => Some(AppIntent::SelectPane(Pane::Chat)),
        '2' => Some(AppIntent::SelectPane(Pane::Changes)),
        '3' => Some(AppIntent::SelectPane(Pane::Logs)),
        '4' => Some(AppIntent::SelectPane(Pane::Git)),
        '5' => Some(AppIntent::SelectPane(Pane::Terminal)),
        '6' => Some(AppIntent::SelectPane(Pane::Notes)),
        'a' => Some(AppIntent::ToggleShowArchived),
        'i' => Some(AppIntent::EnterEditMode),
        'n' => Some(AppIntent::StartNewSession),
        'p' => Some(AppIntent::TogglePinned),
        'x' => Some(AppIntent::ToggleArchived),
        's' => Some(AppIntent::StartDevServer),
        'c' => Some(AppIntent::RunCleanup),
        'v' => Some(AppIntent::StopWorkspace),
        'e' => Some(AppIntent::OpenEditor),
        'r' => Some(AppIntent::OpenSessionRename),
        'E' => Some(AppIntent::CycleExecutor),
        'V' => Some(AppIntent::CycleVariant),
        'M' => Some(AppIntent::CycleModel),
        'R' => Some(AppIntent::CycleReasoning),
        'A' => Some(AppIntent::OpenAgentPicker),
        'P' => Some(AppIntent::CyclePermissionMode),
        'Q' => Some(AppIntent::QueuePrompt),
        'X' => Some(AppIntent::CancelQueuedPrompt),
        'D' => Some(AppIntent::DiscardDraft),
        'b' => Some(AppIntent::ToggleDiffViewMode),
        'T' => Some(AppIntent::ToggleToolRunCollapse),
        '[' => Some(AppIntent::PrevUserMessage),
        ']' => Some(AppIntent::NextUserMessage),
        'j' => Some(AppIntent::MoveSelection(1)),
        'k' => Some(AppIntent::MoveSelection(-1)),
        't' => Some(AppIntent::EnterTerminalInputMode),
        _ => None,
    }
}

/// Maps a key press on the workspace screen to its command, if any.
pub fn map_app_key(key: KeyEvent, creating_new_session: bool, selected_pane: &Pane) -> (r: Option<
    AppIntent,
>)
    ensures
        r == app_intent(key, creating_new_session, *selected_pane),
{
    let m = key.modifiers;
    match key.code {
        KeyCode::Esc => {
            if creating_new_session && *selected_pane == Pane::Chat {
                Some(AppIntent::CancelNewSession)
            } else {
                None
            }
        },
        KeyCode::F(n) => {
            if n == 2 {
                Some(AppIntent::ToggleComposerEditorMode)
            } else {
                None
            }
        },
        KeyCode::Char(ch) => {
            if ch == 'w' {
                if m.is_control_only_exec() {
                    Some(AppIntent::ToggleMaximizedPanel)
                } else {
                    None
                }
            } else {
                map_char_key(ch)
            }
        },
        KeyCode::Tab => Some(AppIntent::FocusNext),
        KeyCode::BackTab => Some(AppIntent::FocusPrev),
        KeyCode::Enter => Some(AppIntent::Enter),
        KeyCode::Home => Some(AppIntent::JumpToStart),
        KeyCode::End => Some(AppIntent::JumpToEnd),
        KeyCode::Left => {
            if m.super_key {
                Some(AppIntent::JumpToStart)
            } else {
                None
            }
        },
        KeyCode::Right => {
            if m.super_key {
                Some(AppIntent::JumpToEnd)
            } else {
                None
            }
        },
        KeyCode::Up => {
            if m.super_key {
                Some(AppIntent::JumpToStart)
            } else {
                Some(AppIntent::MoveSelection(-1))
            }
        },
        KeyCode::Down => {
            if m.super_key {
                Some(AppIntent::JumpToEnd)
            } else {
                Some(AppIntent::MoveSelection(1))
            }
        },
        KeyCode::PageDown => Some(AppIntent::PageSelection(1)),
        KeyCode::PageUp => Some(AppIntent::PageSelection(-1)),
        _ => None,
    }
}

} // verus!
