//! The records exchanged with the backend, as plain values. Ids are UUIDs
//! held as their 128-bit values; serialization lives with the program that
//! talks to the backend.
use vstd::prelude::*;

use crate::model::process::ProcessStatus;

verus! {

/// The envelope around every API response.
#[derive(Debug, Clone)]
pub struct ApiEnvelope<T> {
    pub success: bool,
    pub data: Option<T>,
    pub message: Option<String>,
}

/// Asks for the summaries of archived or active workspaces.
#[derive(Debug, Clone, Copy, PartialEq, Eq, Structural)]
pub struct WorkspaceSummaryRequest {
    pub archived: bool,
}

/// Changes to a workspace; fields left `None` stay as they are.
#[derive(Debug, Clone)]
pub struct UpdateWorkspaceRequest {
    pub archived: Option<bool>,
    pub pinned: Option<bool>,
    pub name: Option<String>,
}

/// Renames a session.
#[derive(Debug, Clone)]
pub struct UpdateSessionRequest {
    pub name: Option<String>,
}

/// Opens a workspace (or one file in it) in an editor.
#[derive(Debug, Clone)]
pub struct OpenEditorRequest {
    pub editor_type: Option<String>,
    pub file_path: Option<String>,
}

/// The state of a pull request.
#[derive(Debug, Clone, Copy, PartialEq, Eq, Structural)]
pub enum MergeStatus {
    Open,
    Merged,
    Closed,
    Unknown,
}

/// A pull request of a repository's branch.
#[derive(Debug, Clone)]
pub struct PullRequestInfo {
    pub status: MergeStatus,
    pub pr_number: i64,
    pub pr_url: String,
}

/// A merge through a pull request.
#[derive(Debug, Clone)]
pub struct PrMerge {
    pub pr_info: PullRequestInfo,
}

/// How a branch was (or is being) merged.
#[derive(Debug, Clone)]
pub enum Merge {
    Direct,
    Pr(PrMerge),
}

/// The git state of a workspace's branch in one repository.
#[derive(Debug, Clone)]
pub struct BranchStatus {
    pub commits_behind: Option<usize>,
    pub commits_ahead: Option<usize>,
    pub has_uncommitted_changes: Option<bool>,
    pub head_oid: Option<String>,
    pub uncommitted_count: Option<usize>,
    pub untracked_count: Option<usize>,
    pub target_branch_name: String,
    pub remote_commits_behind: Option<usize>,
    pub remote_commits_ahead: Option<usize>,
    pub merges: Vec<Merge>,
    pub is_rebase_in_progress: bool,
    pub conflict_op: Option<String>,
    pub conflicted_files: Vec<String>,
    pub is_target_remote: bool,
}

/// The branch status of one repository of a workspace.
#[derive(Debug, Clone)]
pub struct RepoBranchStatus {
    pub repo_id: u128,
    pub repo_name: String,
    pub status: BranchStatus,
}

/// What happened to a file in a diff.
#[derive(Debug, Clone, Copy, PartialEq, Eq, Structural)]
pub enum DiffChangeKind {
    Added,
    Deleted,
    Modified,
    Renamed,
    Copied,
    PermissionChange,
}

/// One file of a workspace's diff.
#[derive(Debug, Clone)]
pub struct LocalDiff {
    pub change: DiffChangeKind,
    pub old_path: Option<String>,
    pub new_path: Option<String>,
    pub old_content: Option<String>,
    pub new_content: Option<String>,
    pub content_omitted: bool,
    pub additions: Option<usize>,
    pub deletions: Option<usize>,
    pub repo_id: Option<u128>,
}

/// What the workspace list shows of a workspace.
#[derive(Debug, Clone)]
pub struct WorkspaceSummary {
    pub workspace_id: u128,
    pub project_id: Option<u128>,
    pub project_name: Option<String>,
    pub remote_project_id: Option<u128>,
    pub latest_session_id: Option<u128>,
    pub has_pending_approval: bool,
    pub files_changed: Option<usize>,
    pub lines_added: Option<usize>,
    pub lines_removed: Option<usize>,
    /// When the latest process completed: seconds since the epoch, and
    /// nanoseconds.
    pub latest_process_completed_at: Option<(i64, u32)>,
    pub latest_process_status: Option<ProcessStatus>,
    pub has_running_dev_server: bool,
    pub has_unseen_turns: bool,
    pub pr_status: Option<MergeStatus>,
    pub pr_number: Option<i64>,
    pub pr_url: Option<String>,
}

/// The text of an optional string.
pub open spec fn opt_text(s: Option<String>) -> Option<Seq<char>> {
    match s {
        Some(t) => Some(t@),
        None => None,
    }
}

/// Two summaries say the same.
pub open spec fn same_summary(a: WorkspaceSummary, b: WorkspaceSummary) -> bool {
    &&& a.workspace_id == b.workspace_id
    &&& a.project_id == b.project_id
    &&& opt_text(a.project_name) == opt_text(b.project_name)
    &&& a.remote_project_id == b.remote_project_id
    &&& a.latest_session_id == b.latest_session_id
    &&& a.has_pending_approval == b.has_pending_approval
    &&& a.files_changed == b.files_changed
    &&& a.lines_added == b.lines_added
    &&& a.lines_removed == b.lines_removed
    &&& a.latest_process_completed_at == b.latest_process_completed_at
    &&& a.latest_process_status == b.latest_process_status
    &&& a.has_running_dev_server == b.has_running_dev_server
    &&& a.has_unseen_turns == b.has_unseen_turns
    &&& a.pr_status == b.pr_status
    &&& a.pr_number == b.pr_number
    &&& opt_text(a.pr_url) == opt_text(b.pr_url)
}

fn copy_text(s: &Option<String>) -> (r: Option<String>)
    ensures
        r == *s,
{
    match s {
        Some(t) => Some(t.clone()),
        None => None,
    }
}

impl WorkspaceSummary {
    /// A copy of the summary.
    pub fn clone_summary(&self) -> (r: WorkspaceSummary)
        ensures
            r == *self,
    {
        WorkspaceSummary {
            workspace_id: self.workspace_id,
            project_id: self.project_id,
            project_name: copy_text(&self.project_name),
            remote_project_id: self.remote_project_id,
            latest_session_id: self.latest_session_id,
            has_pending_approval: self.has_pending_approval,
            files_changed: self.files_changed,
            lines_added: self.lines_added,
            lines_removed: self.lines_removed,
            latest_process_completed_at: self.latest_process_completed_at,
            latest_process_status: self.latest_process_status,
            has_running_dev_server: self.has_running_dev_server,
            has_unseen_turns: self.has_unseen_turns,
            pr_status: self.pr_status,
            pr_number: self.pr_number,
            pr_url: copy_text(&self.pr_url),
        }
    }
}

fn same_text(a: &Option<String>, b: &Option<String>) -> (r: bool)
    ensures
        r == (opt_text(*a) == opt_text(*b)),
{
    match (a, b) {
        (Some(x), Some(y)) => *x == *y,
        (None, None) => true,
        _ => false,
    }
}

/// Whether two summaries say the same.
pub fn summaries_equal(a: &WorkspaceSummary, b: &WorkspaceSummary) -> (r: bool)
    ensures
        r == same_summary(*a, *b),
{
    a.workspace_id == b.workspace_id && a.project_id == b.project_id && same_text(
        &a.project_name,
        &b.project_name,
    ) && a.remote_project_id == b.remote_project_id && a.latest_session_id == b.latest_session_id
        && a.has_pending_approval == b.has_pending_approval && a.files_changed == b.files_changed
        && a.lines_added == b.lines_added && a.lines_removed == b.lines_removed
        && a.latest_process_completed_at == b.latest_process_completed_at
        && a.latest_process_status == b.latest_process_status && a.has_running_dev_server
        == b.has_running_dev_server && a.has_unseen_turns == b.has_unseen_turns && a.pr_status
        == b.pr_status && a.pr_number == b.pr_number && same_text(&a.pr_url, &b.pr_url)
}

} // verus!
