//! The workspace actions whose completion the backend reports.
use vstd::prelude::*;

verus! {

/// A workspace action that runs in the background.
#[derive(Debug, Clone, Copy, PartialEq, Eq, Structural)]
pub enum WorkspaceActionKind {
    TogglePinned,
    ToggleArchived,
    StopExecution,
    StartDevServer,
    RunCleanup,
    OpenEditor,
}

} // verus!
