//! Panes, focus targets and view modes of the workspace screen.
use vstd::prelude::*;

verus! {

#[derive(Debug, Clone, Copy, PartialEq, Eq, Structural)]
pub enum DiffViewMode {
    Unified,
    SideBySide,
}

impl DiffViewMode {
    /// The default view shows diffs unified.
    pub fn default_mode() -> (r: DiffViewMode)
        ensures
            r == DiffViewMode::Unified,
    {
        DiffViewMode::Unified
    }
}

#[derive(Debug, Clone, Copy, PartialEq, Eq, Structural)]
pub enum Pane {
    Chat,
    Changes,
    Logs,
    Git,
    Terminal,
    Notes,
}

/// The title shown for a pane.
pub open spec fn pane_title(p: Pane) -> Seq<char> {
    match p {
        Pane::Chat => "Chat"@,
        Pane::Changes => "Changes"@,
        Pane::Logs => "Logs"@,
        Pane::Git => "Git"@,
        Pane::Terminal => "Terminal"@,
        Pane::Notes => "Notes"@,
    }
}

impl Pane {
    /// Every pane, in tab order.
    pub fn all() -> (r: [Pane; 6])
        ensures
            r@ == seq![Pane::Chat, Pane::Changes, Pane::Logs, Pane::Git, Pane::Terminal, Pane::Notes],
    {
        [Pane::Chat, Pane::Changes, Pane::Logs, Pane::Git, Pane::Terminal, Pane::Notes]
    }

    pub fn title(&self) -> (r: &'static str)
        ensures
            r@ == pane_title(*self),
    {
        match self {
            Pane::Chat => "Chat",
            Pane::Changes => "Changes",
            Pane::Logs => "Logs",
            Pane::Git => "Git",
            Pane::Terminal => "Terminal",
            Pane::Notes => "Notes",
        }
    }
}

#[derive(Debug, Clone, Copy, PartialEq, Eq, Structural)]
pub enum Focus {
    WorkspaceList,
    Main,
    Detail,
    Composer,
}

} // verus!
