pub mod domain;
pub mod dto;
pub mod entry;
pub mod event;
pub mod format;
pub mod process;

pub use domain::{DiffViewMode, Focus, Pane};
pub use dto::{
    ApiEnvelope, BranchStatus, DiffChangeKind, LocalDiff, Merge, MergeStatus, OpenEditorRequest,
    PrMerge, PullRequestInfo, RepoBranchStatus, UpdateSessionRequest, UpdateWorkspaceRequest,
    WorkspaceSummaryRequest,
};
pub use event::WorkspaceActionKind;
pub use format::{diff_title, display_permission, display_variant, workspace_title, PermissionPolicy};
pub use process::{active_process, ProcessAction, ProcessInfo, ProcessStatus};
