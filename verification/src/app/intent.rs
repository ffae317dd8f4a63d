//! What a global command does to the screen, and which of the program's
//! operations it starts.
use vstd::prelude::*;

use crate::editor::vim::{ComposerEditorMode, VimMode};
use crate::input::keymap::AppIntent;
use crate::input::navigation::{focus_after, focus_before, next_focus, prev_focus};
use crate::model::domain::{DiffViewMode, Focus, Pane};

verus! {

/// The screen settings that commands change.
#[derive(Clone, Copy, PartialEq, Eq, Structural)]
pub struct ScreenState {
    pub focus: Focus,
    pub pane: Pane,
    pub creating_workspace: bool,
    pub creating_new_session: bool,
    pub maximized_panel: bool,
    pub show_archived: bool,
    pub diff_view_mode: DiffViewMode,
    /// Runs of tool calls are shown collapsed in the chat.
    pub tool_calls_collapsed: bool,
    pub editor_mode: ComposerEditorMode,
    pub should_quit: bool,
}

/// An operation of the program that a command starts.
#[derive(Debug, Clone, Copy, PartialEq, Eq, Structural)]
pub enum IntentEffect {
    Nothing,
    CancelNewSession,
    OpenSearch,
    FocusTodos,
    OpenProjectFilter,
    WorkspaceListDirty,
    /// A new session was started: rebind discovery and the composer.
    NewSessionStarted,
    TogglePinned,
    ToggleArchived,
    StartDevServer,
    RunCleanup,
    StopExecution,
    OpenEditor,
    OpenSessionRename,
    CycleExecutor,
    CycleVariant,
    CycleModel,
    CycleReasoning,
    OpenAgentPicker,
    CyclePermissionMode,
    QueuePrompt,
    CancelQueuedPrompt,
    DiscardDraft,
    ChangesDirty,
    ChatCacheDirty,
    Enter,
    Jump { to_end: bool },
    MoveSelection(i32),
    EnterTerminalInputMode,
}

/// What the status line says after a command.
#[derive(Debug, Clone, Copy, PartialEq, Eq, Structural)]
pub enum IntentStatus {
    Unchanged,
    /// "Maximized" and the name of the active region.
    Maximized,
    Restored,
    Help,
    EditorMode,
    WorkspaceCreationActive,
    NewSession,
    DiffUnified,
    DiffSideBySide,
    ToolCallsExpanded,
    ToolCallsCollapsed,
}

/// The other editor mode: standard switches to vim in insert mode, vim back
/// to standard.
pub open spec fn toggled_mode(m: ComposerEditorMode) -> ComposerEditorMode {
    match m {
        ComposerEditorMode::Standard => ComposerEditorMode::Vim(VimMode::Insert),
        ComposerEditorMode::Vim(_) => ComposerEditorMode::Standard,
    }
}

/// What a command does: the new screen settings, the operation it starts,
/// and the status it reports. Commands that only start an operation leave
/// the screen as it is. A page move goes `page` rows per step.
pub open spec fn intent_step(s: ScreenState, intent: AppIntent, page: int) -> (ScreenState, IntentEffect, IntentStatus) {
    let same = (s, IntentEffect::Nothing, IntentStatus::Unchanged);
    match intent {
        AppIntent::CancelNewSession => (s, IntentEffect::CancelNewSession, IntentStatus::Unchanged),
        AppIntent::ToggleComposerEditorMode => (
            ScreenState { editor_mode: toggled_mode(s.editor_mode), ..s },
            IntentEffect::Nothing,
            IntentStatus::EditorMode,
        ),
        AppIntent::ToggleMaximizedPanel => (
            ScreenState { maximized_panel: !s.maximized_panel, ..s },
            IntentEffect::Nothing,
            if !s.maximized_panel {
                IntentStatus::Maximized
            } else {
                IntentStatus::Restored
            },
        ),
        AppIntent::Quit => (ScreenState { should_quit: true, ..s }, IntentEffect::Nothing, IntentStatus::Unchanged),
        AppIntent::FocusNext => (
            ScreenState { focus: focus_after(s.focus), ..s },
            IntentEffect::Nothing,
            IntentStatus::Unchanged,
        ),
        AppIntent::FocusPrev => (
            ScreenState { focus: focus_before(s.focus), ..s },
            IntentEffect::Nothing,
            IntentStatus::Unchanged,
        ),
        AppIntent::ShowHelp => (s, IntentEffect::Nothing, IntentStatus::Help),
        AppIntent::OpenSearch => (s, IntentEffect::OpenSearch, IntentStatus::Unchanged),
        AppIntent::SelectPane(p) => (
            ScreenState {
                pane: if s.creating_workspace {
                    Pane::Chat
                } else {
                    p
                },
                ..s
            },
            IntentEffect::Nothing,
            IntentStatus::Unchanged,
        ),
        AppIntent::ToggleShowArchived => (
            ScreenState { show_archived: !s.show_archived, ..s },
            IntentEffect::WorkspaceListDirty,
            IntentStatus::Unchanged,
        ),
        AppIntent::EnterEditMode => (
            if s.pane == Pane::Chat || s.pane == Pane::Notes {
                ScreenState { focus: Focus::Composer, ..s }
            } else {
                s
            },
            IntentEffect::Nothing,
            IntentStatus::Unchanged,
        ),
        AppIntent::StartNewSession => if s.creating_workspace {
            (s, IntentEffect::Nothing, IntentStatus::WorkspaceCreationActive)
        } else {
            (
                ScreenState {
                    creating_new_session: true,
                    pane: Pane::Chat,
                    focus: Focus::Composer,
                    ..s
                },
                IntentEffect::NewSessionStarted,
                IntentStatus::NewSession,
            )
        },
        AppIntent::TogglePinned => (s, IntentEffect::TogglePinned, IntentStatus::Unchanged),
        AppIntent::ToggleArchived => (s, IntentEffect::ToggleArchived, IntentStatus::Unchanged),
        AppIntent::StartDevServer => (s, IntentEffect::StartDevServer, IntentStatus::Unchanged),
        AppIntent::RunCleanup => (s, IntentEffect::RunCleanup, IntentStatus::Unchanged),
        AppIntent::StopWorkspace => (s, IntentEffect::StopExecution, IntentStatus::Unchanged),
        AppIntent::OpenEditor => (s, IntentEffect::OpenEditor, IntentStatus::Unchanged),
        AppIntent::OpenSessionRename => (s, IntentEffect::OpenSessionRename, IntentStatus::Unchanged),
        AppIntent::CycleExecutor => (s, IntentEffect::CycleExecutor, IntentStatus::Unchanged),
        AppIntent::CycleVariant => (s, IntentEffect::CycleVariant, IntentStatus::Unchanged),
        AppIntent::CycleModel => (s, IntentEffect::CycleModel, IntentStatus::Unchanged),
        AppIntent::CycleReasoning => (s, IntentEffect::CycleReasoning, IntentStatus::Unchanged),
        AppIntent::OpenAgentPicker => (s, IntentEffect::OpenAgentPicker, IntentStatus::Unchanged),
        AppIntent::CyclePermissionMode => (
            s,
            IntentEffect::CyclePermissionMode,
            IntentStatus::Unchanged,
        ),
        AppIntent::QueuePrompt => (s, IntentEffect::QueuePrompt, IntentStatus::Unchanged),
        AppIntent::CancelQueuedPrompt => (s, IntentEffect::CancelQueuedPrompt, IntentStatus::Unchanged),
        AppIntent::DiscardDraft => (s, IntentEffect::DiscardDraft, IntentStatus::Unchanged),
        AppIntent::ToggleDiffViewMode => if s.pane == Pane::Changes {
            let m = match s.diff_view_mode {
                DiffViewMode::Unified => DiffViewMode::SideBySide,
                DiffViewMode::SideBySide => DiffViewMode::Unified,
            };
            (
                ScreenState { diff_view_mode: m, ..s },
                IntentEffect::ChangesDirty,
                if m == DiffViewMode::Unified {
                    IntentStatus::DiffUnified
                } else {
                    IntentStatus::DiffSideBySide
                },
            )
        } else {
            same
        },
        AppIntent::ToggleToolRunCollapse => if s.pane == Pane::Chat {
            (
                ScreenState { tool_calls_collapsed: !s.tool_calls_collapsed, ..s },
                IntentEffect::ChatCacheDirty,
                if s.tool_calls_collapsed {
                    IntentStatus::ToolCallsExpanded
                } else {
                    IntentStatus::ToolCallsCollapsed
                },
            )
        } else {
            same
        },
        AppIntent::PrevUserMessage | AppIntent::NextUserMessage => same,
        AppIntent::Enter => (s, IntentEffect::Enter, IntentStatus::Unchanged),
        AppIntent::JumpToStart => (s, IntentEffect::Jump { to_end: false }, IntentStatus::Unchanged),
        AppIntent::JumpToEnd => (s, IntentEffect::Jump { to_end: true }, IntentStatus::Unchanged),
        AppIntent::MoveSelection(d) => (s, IntentEffect::MoveSelection(d), IntentStatus::Unchanged),
        AppIntent::PageSelection(d) => (
            s,
            IntentEffect::MoveSelection((d * page) as i32),
            IntentStatus::Unchanged,
        ),
        AppIntent::EnterTerminalInputMode => (
            s,
            IntentEffect::EnterTerminalInputMode,
            IntentStatus::Unchanged,
        ),
    }
}

/// Carries out a command on the screen settings; says which operation it
/// starts and what the status line reports.
pub fn apply_intent(screen: &mut ScreenState, intent: AppIntent, page: i32) -> (r: (IntentEffect, IntentStatus))
    requires
        intent matches AppIntent::PageSelection(d) ==> i32::MIN <= d * page <= i32::MAX,
    ensures
        (*final(screen), r.0, r.1) == intent_step(*old(screen), intent, page as int),
{
    match intent {
        AppIntent::CancelNewSession => (IntentEffect::CancelNewSession, IntentStatus::Unchanged),
        AppIntent::ToggleComposerEditorMode => {
            screen.editor_mode = match screen.editor_mode {
                ComposerEditorMode::Standard => ComposerEditorMode::Vim(VimMode::Insert),
                ComposerEditorMode::Vim(_) => ComposerEditorMode::Standard,
            };
            (IntentEffect::Nothing, IntentStatus::EditorMode)
        },
        AppIntent::ToggleMaximizedPanel => {
            screen.maximized_panel = !screen.maximized_panel;
            (
                IntentEffect::Nothing,
                if screen.maximized_panel {
                    IntentStatus::Maximized
                } else {
                    IntentStatus::Restored
                },
            )
        },
        AppIntent::Quit => {
            screen.should_quit = true;
            (IntentEffect::Nothing, IntentStatus::Unchanged)
        },
        AppIntent::FocusNext => {
            screen.focus = next_focus(&screen.focus);
            (IntentEffect::Nothing, IntentStatus::Unchanged)
        },
        AppIntent::FocusPrev => {
            screen.focus = prev_focus(&screen.focus);
            (IntentEffect::Nothing, IntentStatus::Unchanged)
        },
        AppIntent::ShowHelp => (IntentEffect::Nothing, IntentStatus::Help),
        AppIntent::OpenSearch => (IntentEffect::OpenSearch, IntentStatus::Unchanged),
        AppIntent::SelectPane(p) => {
            screen.pane = if screen.creating_workspace {
                Pane::Chat
            } else {
                p
            };
            (IntentEffect::Nothing, IntentStatus::Unchanged)
        },
        AppIntent::ToggleShowArchived => {
            screen.show_archived = !screen.show_archived;
            (IntentEffect::WorkspaceListDirty, IntentStatus::Unchanged)
        },
        AppIntent::EnterEditMode => {
            if screen.pane == Pane::Chat || screen.pane == Pane::Notes {
                screen.focus = Focus::Composer;
            }
            (IntentEffect::Nothing, IntentStatus::Unchanged)
        },
        AppIntent::StartNewSession => {
            if screen.creating_workspace {
                (IntentEffect::Nothing, IntentStatus::WorkspaceCreationActive)
            } else {
                screen.creating_new_session = true;
                screen.pane = Pane::Chat;
                screen.focus = Focus::Composer;
                (IntentEffect::NewSessionStarted, IntentStatus::NewSession)
            }
        },
        AppIntent::TogglePinned => (IntentEffect::TogglePinned, IntentStatus::Unchanged),
        AppIntent::ToggleArchived => (IntentEffect::ToggleArchived, IntentStatus::Unchanged),
        AppIntent::StartDevServer => (IntentEffect::StartDevServer, IntentStatus::Unchanged),
        AppIntent::RunCleanup => (IntentEffect::RunCleanup, IntentStatus::Unchanged),
        AppIntent::StopWorkspace => (IntentEffect::StopExecution, IntentStatus::Unchanged),
        AppIntent::OpenEditor => (IntentEffect::OpenEditor, IntentStatus::Unchanged),
        AppIntent::OpenSessionRename => (IntentEffect::OpenSessionRename, IntentStatus::Unchanged),
        AppIntent::CycleExecutor => (IntentEffect::CycleExecutor, IntentStatus::Unchanged),
        AppIntent::CycleVariant => (IntentEffect::CycleVariant, IntentStatus::Unchanged),
        AppIntent::CycleModel => (IntentEffect::CycleModel, IntentStatus::Unchanged),
        AppIntent::CycleReasoning => (IntentEffect::CycleReasoning, IntentStatus::Unchanged),
        AppIntent::OpenAgentPicker => (IntentEffect::OpenAgentPicker, IntentStatus::Unchanged),
        AppIntent::CyclePermissionMode => (IntentEffect::CyclePermissionMode, IntentStatus::Unchanged),
        AppIntent::QueuePrompt => (IntentEffect::QueuePrompt, IntentStatus::Unchanged),
        AppIntent::CancelQueuedPrompt => (IntentEffect::CancelQueuedPrompt, IntentStatus::Unchanged),
        AppIntent::DiscardDraft => (IntentEffect::DiscardDraft, IntentStatus::Unchanged),
        AppIntent::ToggleDiffViewMode => {
            if screen.pane == Pane::Changes {
                screen.diff_view_mode = match screen.diff_view_mode {
                    DiffViewMode::Unified => DiffViewMode::SideBySide,
                    DiffViewMode::SideBySide => DiffViewMode::Unified,
                };
                (
                    IntentEffect::ChangesDirty,
                    match screen.diff_view_mode {
                        DiffViewMode::Unified => IntentStatus::DiffUnified,
                        DiffViewMode::SideBySide => IntentStatus::DiffSideBySide,
                    },
                )
            } else {
                (IntentEffect::Nothing, IntentStatus::Unchanged)
            }
        },
        AppIntent::ToggleToolRunCollapse => {
            if screen.pane == Pane::Chat {
                screen.tool_calls_collapsed = !screen.tool_calls_collapsed;
                (
                    IntentEffect::ChatCacheDirty,
                    if screen.tool_calls_collapsed {
                        IntentStatus::ToolCallsCollapsed
                    } else {
                        IntentStatus::ToolCallsExpanded
                    },
                )
            } else {
                (IntentEffect::Nothing, IntentStatus::Unchanged)
            }
        },
        AppIntent::PrevUserMessage | AppIntent::NextUserMessage => (
            IntentEffect::Nothing,
            IntentStatus::Unchanged,
        ),
        AppIntent::Enter => (IntentEffect::Enter, IntentStatus::Unchanged),
        AppIntent::JumpToStart => (IntentEffect::Jump { to_end: false }, IntentStatus::Unchanged),
        AppIntent::JumpToEnd => (IntentEffect::Jump { to_end: true }, IntentStatus::Unchanged),
        AppIntent::MoveSelection(d) => (IntentEffect::MoveSelection(d), IntentStatus::Unchanged),
        AppIntent::PageSelection(d) => (IntentEffect::MoveSelection(d * page), IntentStatus::Unchanged),
        AppIntent::EnterTerminalInputMode => (
            IntentEffect::EnterTerminalInputMode,
            IntentStatus::Unchanged,
        ),
    }
}

/// The fixed status message of a report, if it has one. (The message for a
/// maximized panel names the panel's region and is not fixed.)
pub open spec fn status_message(status: IntentStatus, editor_mode: ComposerEditorMode) -> Option<Seq<char>> {
    match status {
        IntentStatus::Unchanged | IntentStatus::Maximized => None,
        IntentStatus::Restored => Some("Restored multi-panel layout"@),
        IntentStatus::Help => Some(HELP_TEXT@),
        IntentStatus::EditorMode => Some(
            match editor_mode {
                ComposerEditorMode::Standard => "Editor mode: standard"@,
                ComposerEditorMode::Vim(VimMode::Insert) => "Editor mode: vim insert"@,
                ComposerEditorMode::Vim(VimMode::Normal) => "Editor mode: vim normal"@,
            },
        ),
        IntentStatus::WorkspaceCreationActive => Some("Workspace creation is active"@),
        IntentStatus::NewSession => Some("New session: type a prompt and press Enter"@),
        IntentStatus::DiffUnified => Some("Diff view: unified"@),
        IntentStatus::DiffSideBySide => Some("Diff view: side by side"@),
        IntentStatus::ToolCallsExpanded => Some("Tool calls: expanded"@),
        IntentStatus::ToolCallsCollapsed => Some("Tool calls: collapsed runs"@),
    }
}

/// The key help shown by `?`.
pub const HELP_TEXT: &'static str = "Keys: Tab focus, Ctrl+W maximize active panel, / search or filter, F workspace project filter, t focus todos, n/N next/prev chat match, [/ ] user turns, T compact tool runs, j/k nav, 1-6 panes, i edit, Enter open/send, r rename session, E executor (new session only), V variant, M model, R reasoning, A agent menu, P permission, p pin, x archive, v stop execution, n new session, s start dev, c cleanup, e editor, create mode: a add repo, Enter branch, d remove, Esc cancel, Esc/C-]/C-g leave terminal";

/// The status text for a command's report, when it is a fixed message.
pub fn intent_status_text(status: IntentStatus, editor_mode: ComposerEditorMode) -> (r: Option<String>)
    ensures
        match status_message(status, editor_mode) {
            None => r is None,
            Some(text) => r matches Some(t) && t@ == text,
        },
{
    match status {
        IntentStatus::Unchanged | IntentStatus::Maximized => None,
        IntentStatus::Restored => Some(String::from_str("Restored multi-panel layout")),
        IntentStatus::Help => Some(String::from_str(HELP_TEXT)),
        IntentStatus::EditorMode => Some(
            String::from_str(
                match editor_mode {
                    ComposerEditorMode::Standard => "Editor mode: standard",
                    ComposerEditorMode::Vim(VimMode::Insert) => "Editor mode: vim insert",
                    ComposerEditorMode::Vim(VimMode::Normal) => "Editor mode: vim normal",
                },
            ),
        ),
        IntentStatus::WorkspaceCreationActive => Some(String::from_str("Workspace creation is active")),
        IntentStatus::NewSession => Some(String::from_str("New session: type a prompt and press Enter")),
        IntentStatus::DiffUnified => Some(String::from_str("Diff view: unified")),
        IntentStatus::DiffSideBySide => Some(String::from_str("Diff view: side by side")),
        IntentStatus::ToolCallsExpanded => Some(String::from_str("Tool calls: expanded")),
        IntentStatus::ToolCallsCollapsed => Some(String::from_str("Tool calls: collapsed runs")),
    }
}

} // verus!
