//! Moving the selection with the arrow, page and jump keys: which row,
//! diff or scroll position the focused panel goes to.
use vstd::prelude::*;

use crate::model::domain::{Focus, Pane};
use crate::model::dto::RepoBranchStatus;

verus! {

/// A row of the workspace list.
#[derive(Debug, Clone)]
pub enum WorkspaceRow {
    /// The row that starts creating a workspace.
    NewWorkspace,
    /// A group heading; it cannot be selected.
    Header(String),
    /// A workspace, by id.
    Workspace(u128),
}

/// Whether a workspace row can be selected.
pub open spec fn selectable(row: WorkspaceRow) -> bool {
    !(row is Header)
}

/// The indexes of the selectable rows among the first `n`, in order.
pub open spec fn selectable_prefix(rows: Seq<WorkspaceRow>, n: int) -> Seq<int>
    decreases n,
{
    if n <= 0 {
        Seq::empty()
    } else if selectable(rows[n - 1]) {
        selectable_prefix(rows, n - 1).push(n - 1)
    } else {
        selectable_prefix(rows, n - 1)
    }
}

/// The indexes of the selectable rows, in order.
pub open spec fn selectable_rows(rows: Seq<WorkspaceRow>) -> Seq<int> {
    selectable_prefix(rows, rows.len() as int)
}

/// The first new-workspace row from `i` on.
pub open spec fn first_new_row(rows: Seq<WorkspaceRow>, i: int) -> Option<int>
    decreases rows.len() - i,
{
    if i < 0 || i >= rows.len() {
        None
    } else if rows[i] is NewWorkspace {
        Some(i)
    } else {
        first_new_row(rows, i + 1)
    }
}

/// The first row of workspace `id` from `i` on.
pub open spec fn first_workspace_row(rows: Seq<WorkspaceRow>, i: int, id: u128) -> Option<int>
    decreases rows.len() - i,
{
    if i < 0 || i >= rows.len() {
        None
    } else if rows[i] == WorkspaceRow::Workspace(id) {
        Some(i)
    } else {
        first_workspace_row(rows, i + 1, id)
    }
}

/// The row the list's selection stands on: the new-workspace row while
/// creating one, else the selected workspace's row; the first selectable
/// row when that is not found.
pub open spec fn current_row(rows: Seq<WorkspaceRow>, creating: bool, selected: Option<u128>) -> int {
    let found = if creating {
        first_new_row(rows, 0)
    } else {
        match selected {
            Some(id) => first_workspace_row(rows, 0, id),
            None => None,
        }
    };
    match found {
        Some(i) => i,
        None => selectable_rows(rows)[0],
    }
}

/// The first position from `i` on where `x` stands in `s`.
pub open spec fn position_from(s: Seq<int>, x: int, i: int) -> Option<int>
    decreases s.len() - i,
{
    if i < 0 || i >= s.len() {
        None
    } else if s[i] == x {
        Some(i)
    } else {
        position_from(s, x, i + 1)
    }
}

/// `lo..=hi` clamp of `x`.
pub open spec fn clamp(x: int, lo: int, hi: int) -> int {
    if x < lo {
        lo
    } else if x > hi {
        hi
    } else {
        x
    }
}

/// Where a selection among `len` items moves from `current` by `delta`.
pub open spec fn stepped(current: int, delta: int, len: int) -> int {
    clamp(current + delta, 0, len - 1)
}

/// What a selection key asks of the screen.
#[derive(Debug, Clone, PartialEq, Eq, Structural)]
pub enum SelectionAction {
    /// Nothing changes.
    Stay,
    /// Start creating a workspace.
    CreateWorkspace,
    /// Select (and load) this workspace.
    SelectWorkspace(u128),
    /// Move the selection among the repositories of the workspace being
    /// created by this many rows.
    MoveCreateRepo(i32),
    /// Select this repository row of the workspace being created.
    SelectCreateRepo(usize),
    /// Select the session row at this index.
    SelectSessionRow(usize),
    /// Select the diff at this index (it differs from the current one).
    SelectDiff(usize),
    /// Scroll the log or git view to this line.
    ScrollLog(u16),
    /// Put the chat window this many lines above the end.
    ChatEndOffset(u16),
}

/// What the selection keys see of the screen.
#[derive(Debug, Clone)]
pub struct SelectionContext {
    pub focus: Focus,
    pub pane: Pane,
    pub creating_workspace: bool,
    pub workspace_rows: Vec<WorkspaceRow>,
    pub selected_workspace_id: Option<u128>,
    /// Repositories chosen for the workspace being created, when its form
    /// is open.
    pub create_repo_count: Option<usize>,
    pub session_row_count: usize,
    pub selected_session_row: Option<usize>,
    pub diff_count: usize,
    pub selected_diff_index: usize,
    pub log_scroll: u16,
    pub chat_end_offset: u16,
    /// The last line the log or git view can scroll to.
    pub max_scroll: u16,
}

/// The action a workspace row stands for.
pub open spec fn row_action(row: WorkspaceRow) -> SelectionAction {
    match row {
        WorkspaceRow::Workspace(id) => SelectionAction::SelectWorkspace(id),
        WorkspaceRow::NewWorkspace => SelectionAction::CreateWorkspace,
        WorkspaceRow::Header(_) => SelectionAction::Stay,
    }
}

/// The row `delta` selectable rows away from the current one.
pub open spec fn workspace_step(rows: Seq<WorkspaceRow>, creating: bool, selected: Option<u128>, delta: int) -> SelectionAction {
    let sel = selectable_rows(rows);
    if sel.len() == 0 {
        SelectionAction::Stay
    } else {
        let cur = current_row(rows, creating, selected);
        let idx = match position_from(sel, cur, 0) {
            Some(i) => i,
            None => 0,
        };
        row_action(rows[sel[stepped(idx, delta, sel.len() as int)]])
    }
}

/// What a move by `delta` does in the focused panel: the workspace list
/// steps through its selectable rows; the detail panel steps through the
/// repositories of a workspace being created, or through the session rows,
/// or scrolls the git view; the main panel steps through diffs, or scrolls
/// the chat or the log. Steps stop at the ends.
pub open spec fn move_action(ctx: SelectionContext, delta: int) -> SelectionAction {
    match ctx.focus {
        Focus::WorkspaceList => workspace_step(
            ctx.workspace_rows@,
            ctx.creating_workspace,
            ctx.selected_workspace_id,
            delta,
        ),
        Focus::Detail => match ctx.pane {
            Pane::Chat if ctx.creating_workspace => SelectionAction::MoveCreateRepo(delta as i32),
            Pane::Chat | Pane::Logs => if ctx.session_row_count == 0 {
                SelectionAction::Stay
            } else {
                let cur = match ctx.selected_session_row {
                    Some(i) => i as int,
                    None => 0,
                };
                SelectionAction::SelectSessionRow(
                    stepped(cur, delta, ctx.session_row_count as int) as usize,
                )
            },
            Pane::Git => SelectionAction::ScrollLog(clamp(ctx.log_scroll + delta, 0, 65535) as u16),
            _ => SelectionAction::Stay,
        },
        _ => match ctx.pane {
            Pane::Changes => if ctx.diff_count == 0 {
                SelectionAction::Stay
            } else {
                let next = stepped(ctx.selected_diff_index as int, delta, ctx.diff_count as int);
                if next == ctx.selected_diff_index {
                    SelectionAction::Stay
                } else {
                    SelectionAction::SelectDiff(next as usize)
                }
            },
            Pane::Chat => SelectionAction::ChatEndOffset(
                clamp(ctx.chat_end_offset - delta, 0, 65535) as u16,
            ),
            Pane::Logs => SelectionAction::ScrollLog(clamp(ctx.log_scroll + delta, 0, 65535) as u16),
            _ => SelectionAction::Stay,
        },
    }
}

proof fn lemma_selectable_prefix(rows: Seq<WorkspaceRow>, n: int)
    requires
        0 <= n <= rows.len(),
    ensures
        selectable_prefix(rows, n).len() <= n,
        forall|k: int|
            0 <= k < selectable_prefix(rows, n).len() ==> 0 <= #[trigger] selectable_prefix(rows, n)[k]
                < n,
    decreases n,
{
    if n > 0 {
        lemma_selectable_prefix(rows, n - 1);
    }
}

/// The selectable rows of the list, by index.
fn selectable_indexes(rows: &Vec<WorkspaceRow>) -> (r: Vec<usize>)
    ensures
        r@.len() == selectable_rows(rows@).len(),
        forall|k: int| 0 <= k < r@.len() ==> r@[k] == #[trigger] selectable_rows(rows@)[k],
{
    let mut r: Vec<usize> = Vec::new();
    let mut i: usize = 0;
    while i < rows.len()
        invariant
            i <= rows@.len(),
            r@.len() == selectable_prefix(rows@, i as int).len(),
            forall|k: int| 0 <= k < r@.len() ==> r@[k] == #[trigger] selectable_prefix(rows@, i as int)[k],
        decreases rows@.len() - i,
    {
        match &rows[i] {
            WorkspaceRow::Header(_) => {},
            _ => {
                r.push(i);
            },
        }
        i = i + 1;
    }
    r
}

/// Index of the first new-workspace row (`id` None) or row of workspace
/// `id`.
fn find_row(rows: &Vec<WorkspaceRow>, id: Option<u128>) -> (r: Option<usize>)
    ensures
        ({
            let f = match id {
                None => first_new_row(rows@, 0),
                Some(x) => first_workspace_row(rows@, 0, x),
            };
            match r {
                Some(i) => f == Some(i as int),
                None => f is None,
            }
        }),
{
    let mut i: usize = 0;
    while i < rows.len()
        invariant
            i <= rows@.len(),
            match id {
                None => first_new_row(rows@, 0) == first_new_row(rows@, i as int),
                Some(x) => first_workspace_row(rows@, 0, x) == first_workspace_row(rows@, i as int, x),
            },
        decreases rows@.len() - i,
    {
        let hit = match (&rows[i], id) {
            (WorkspaceRow::NewWorkspace, None) => true,
            (WorkspaceRow::Workspace(w), Some(x)) => *w == x,
            _ => false,
        };
        if hit {
            return Some(i);
        }
        i = i + 1;
    }
    None
}

/// `clamp(current + delta, 0, len - 1)` for a selection among `len` items.
pub fn step_index(current: usize, delta: i32, len: usize) -> (r: usize)
    requires
        len > 0,
        current < len,
    ensures
        r == stepped(current as int, delta as int, len as int),
{
    if delta < 0 {
        let back = (0i64 - delta as i64) as usize;
        if back >= current {
            0
        } else {
            current - back
        }
    } else {
        let ahead = delta as usize;
        if ahead >= len - 1 - current {
            len - 1
        } else {
            current + ahead
        }
    }
}

/// `clamp(value + delta, 0, u16::MAX)`.
fn clamp_u16(value: u16, delta: i64) -> (r: u16)
    requires
        -0x1_0000_0000 <= delta <= 0x1_0000_0000,
    ensures
        r == clamp(value + delta, 0, 65535),
{
    let v = value as i64 + delta;
    if v < 0 {
        0
    } else if v > 65535 {
        65535
    } else {
        v as u16
    }
}

/// The action a workspace row stands for.
fn action_of_row(row: &WorkspaceRow) -> (r: SelectionAction)
    ensures
        r == row_action(*row),
{
    match row {
        WorkspaceRow::Workspace(id) => SelectionAction::SelectWorkspace(*id),
        WorkspaceRow::NewWorkspace => SelectionAction::CreateWorkspace,
        WorkspaceRow::Header(_) => SelectionAction::Stay,
    }
}

/// Where a move by `delta` takes the focused panel's selection.
pub fn selection_after_move(ctx: &SelectionContext, delta: i32) -> (r: SelectionAction)
    requires
        ctx.workspace_rows@.len() < i32::MAX,
        ctx.session_row_count < i32::MAX,
        ctx.diff_count < i32::MAX,
        ctx.selected_diff_index < i32::MAX,
        ctx.selected_session_row matches Some(i) ==> i < ctx.session_row_count,
    ensures
        r == move_action(*ctx, delta as int),
{
    match ctx.focus {
        Focus::WorkspaceList => {
            let rows = &ctx.workspace_rows;
            let sel = selectable_indexes(rows);
            proof {
                lemma_selectable_prefix(rows@, rows@.len() as int);
            }
            if sel.len() == 0 {
                return SelectionAction::Stay;
            }
            let found = if ctx.creating_workspace {
                find_row(rows, None)
            } else {
                match ctx.selected_workspace_id {
                    Some(id) => find_row(rows, Some(id)),
                    None => None,
                }
            };
            let cur = match found {
                Some(i) => i,
                None => sel[0],
            };
            let mut k: usize = 0;
            let ghost s = selectable_rows(rows@);
            while k < sel.len()
                invariant
                    k <= sel@.len(),
                    sel@.len() == s.len(),
                    forall|j: int| 0 <= j < sel@.len() ==> sel@[j] == #[trigger] s[j],
                    position_from(s, cur as int, 0) == position_from(s, cur as int, k as int),
                ensures
                    k <= sel@.len(),
                    k < sel@.len() ==> s[k as int] == cur,
                    position_from(s, cur as int, 0) == position_from(s, cur as int, k as int),
                decreases sel@.len() - k,
            {
                if sel[k] == cur {
                    break;
                }
                k = k + 1;
            }
            proof {
                assert(cur == current_row(rows@, ctx.creating_workspace, ctx.selected_workspace_id));
                if k < sel.len() {
                    assert(position_from(s, cur as int, k as int) == Some(k as int));
                } else {
                    assert(position_from(s, cur as int, k as int) is None);
                }
            }
            let idx = if k < sel.len() {
                k
            } else {
                0
            };
            let next = step_index(idx, delta, sel.len());
            proof {
                assert(0 <= s[next as int] < rows@.len());
            }
            action_of_row(&rows[sel[next]])
        },
        Focus::Detail => match ctx.pane {
            Pane::Chat if ctx.creating_workspace => SelectionAction::MoveCreateRepo(delta),
            Pane::Chat | Pane::Logs => {
                if ctx.session_row_count == 0 {
                    SelectionAction::Stay
                } else {
                    let cur = match ctx.selected_session_row {
                        Some(i) => i,
                        None => 0,
                    };
                    SelectionAction::SelectSessionRow(step_index(cur, delta, ctx.session_row_count))
                }
            },
            Pane::Git => SelectionAction::ScrollLog(clamp_u16(ctx.log_scroll, delta as i64)),
            _ => SelectionAction::Stay,
        },
        _ => match ctx.pane {
            Pane::Changes => {
                if ctx.diff_count == 0 {
                    SelectionAction::Stay
                } else {
                    let step = ctx.selected_diff_index as i64 + delta as i64;
                    let next = if step < 0 {
                        0
                    } else if step >= ctx.diff_count as i64 {
                        ctx.diff_count - 1
                    } else {
                        step as usize
                    };
                    if next == ctx.selected_diff_index {
                        SelectionAction::Stay
                    } else {
                        SelectionAction::SelectDiff(next)
                    }
                }
            },
            Pane::Chat => SelectionAction::ChatEndOffset(
                clamp_u16(ctx.chat_end_offset, 0i64 - delta as i64),
            ),
            Pane::Logs => SelectionAction::ScrollLog(clamp_u16(ctx.log_scroll, delta as i64)),
            _ => SelectionAction::Stay,
        },
    }
}

/// What a jump to the start or (`to_end`) the end does in the focused
/// panel: the first or last selectable workspace row, repository of the
/// workspace being created, session row or diff; the top or bottom of the
/// log, git view or chat.
pub open spec fn boundary_action(ctx: SelectionContext, to_end: bool) -> SelectionAction {
    match ctx.focus {
        Focus::WorkspaceList => {
            let sel = selectable_rows(ctx.workspace_rows@);
            if sel.len() == 0 {
                SelectionAction::Stay
            } else {
                row_action(ctx.workspace_rows@[if to_end { sel.last() } else { sel[0] }])
            }
        },
        Focus::Detail => match ctx.pane {
            Pane::Chat if ctx.creating_workspace => match ctx.create_repo_count {
                Some(n) if n > 0 => SelectionAction::SelectCreateRepo(
                    if to_end {
                        (n - 1) as usize
                    } else {
                        0
                    },
                ),
                _ => SelectionAction::Stay,
            },
            Pane::Chat | Pane::Logs => if ctx.session_row_count == 0 {
                SelectionAction::Stay
            } else {
                SelectionAction::SelectSessionRow(
                    if to_end {
                        (ctx.session_row_count - 1) as usize
                    } else {
                        0
                    },
                )
            },
            Pane::Git => SelectionAction::ScrollLog(
                if to_end {
                    ctx.max_scroll
                } else {
                    0
                },
            ),
            _ => SelectionAction::Stay,
        },
        _ => match ctx.pane {
            Pane::Changes => if ctx.diff_count == 0 {
                SelectionAction::Stay
            } else {
                let next = if to_end {
                    ctx.diff_count - 1
                } else {
                    0
                };
                if next == ctx.selected_diff_index {
                    SelectionAction::Stay
                } else {
                    SelectionAction::SelectDiff(next as usize)
                }
            },
            Pane::Chat => SelectionAction::ChatEndOffset(
                if to_end {
                    0
                } else {
                    65535
                },
            ),
            Pane::Logs | Pane::Git => SelectionAction::ScrollLog(
                if to_end {
                    ctx.max_scroll
                } else {
                    0
                },
            ),
            _ => SelectionAction::Stay,
        },
    }
}

/// Where a jump to the start or end takes the focused panel's selection.
pub fn selection_at_boundary(ctx: &SelectionContext, to_end: bool) -> (r: SelectionAction)
    ensures
        r == boundary_action(*ctx, to_end),
{
    match ctx.focus {
        Focus::WorkspaceList => {
            let rows = &ctx.workspace_rows;
            let sel = selectable_indexes(rows);
            proof {
                lemma_selectable_prefix(rows@, rows@.len() as int);
            }
            if sel.len() == 0 {
                return SelectionAction::Stay;
            }
            let at = if to_end {
                sel[sel.len() - 1]
            } else {
                sel[0]
            };
            action_of_row(&rows[at])
        },
        Focus::Detail => match ctx.pane {
            Pane::Chat if ctx.creating_workspace => match ctx.create_repo_count {
                Some(n) if n > 0 => SelectionAction::SelectCreateRepo(
                    if to_end {
                        n - 1
                    } else {
                        0
                    },
                ),
                _ => SelectionAction::Stay,
            },
            Pane::Chat | Pane::Logs => {
                if ctx.session_row_count == 0 {
                    SelectionAction::Stay
                } else {
                    SelectionAction::SelectSessionRow(
                        if to_end {
                            ctx.session_row_count - 1
                        } else {
                            0
                        },
                    )
                }
            },
            Pane::Git => SelectionAction::ScrollLog(
                if to_end {
                    ctx.max_scroll
                } else {
                    0
                },
            ),
            _ => SelectionAction::Stay,
        },
        _ => match ctx.pane {
            Pane::Changes => {
                if ctx.diff_count == 0 {
                    SelectionAction::Stay
                } else {
                    let next = if to_end {
                        ctx.diff_count - 1
                    } else {
                        0
                    };
                    if next == ctx.selected_diff_index {
                        SelectionAction::Stay
                    } else {
                        SelectionAction::SelectDiff(next)
                    }
                }
            },
            Pane::Chat => SelectionAction::ChatEndOffset(
                if to_end {
                    0
                } else {
                    65535
                },
            ),
            Pane::Logs | Pane::Git => SelectionAction::ScrollLog(
                if to_end {
                    ctx.max_scroll
                } else {
                    0
                },
            ),
            _ => SelectionAction::Stay,
        },
    }
}

/// How many rows a page key moves: a third of the list's height (less
/// four rows of chrome) in the workspace list, five rows in the detail
/// panel, the height less six rows elsewhere; at least one.
pub open spec fn page_rows(focus: Focus, height: int) -> int {
    match focus {
        Focus::WorkspaceList => {
            let rows = if height > 4 {
                (height - 4) / 3
            } else {
                0
            };
            if rows < 1 {
                1
            } else {
                rows
            }
        },
        Focus::Detail => 5,
        _ => if height > 7 {
            height - 6
        } else {
            1
        },
    }
}

/// The page size for the focused panel on a screen `height` rows high.
pub fn page_step(focus: &Focus, height: u16) -> (r: i32)
    ensures
        r == page_rows(*focus, height as int),
{
    match focus {
        Focus::WorkspaceList => {
            let rows = height.saturating_sub(4) / 3;
            if rows < 1 {
                1
            } else {
                rows as i32
            }
        },
        Focus::Detail => 5,
        _ => {
            let rows = height.saturating_sub(6);
            if rows < 1 {
                1
            } else {
                rows as i32
            }
        },
    }
}

/// The last line a view of `lines` lines can scroll to, capped at
/// `u16::MAX`.
pub fn max_scroll_for_lines(lines: usize) -> (r: u16)
    ensures
        r == clamp(lines - 1, 0, 65535),
{
    if lines == 0 {
        0
    } else if lines - 1 > 65535 {
        65535
    } else {
        (lines - 1) as u16
    }
}

/// Lines the git view takes for the statuses: three per repository, and one
/// more while a rebase is in progress.
pub open spec fn git_lines(statuses: Seq<RepoBranchStatus>) -> int
    decreases statuses.len(),
{
    if statuses.len() == 0 {
        0
    } else {
        git_lines(statuses.drop_last()) + 3 + if statuses.last().status.is_rebase_in_progress {
            1int
        } else {
            0
        }
    }
}

/// The number of lines the git view shows.
pub fn git_status_line_count(statuses: &[RepoBranchStatus]) -> (r: usize)
    requires
        statuses@.len() <= usize::MAX / 4,
    ensures
        r == git_lines(statuses@),
{
    let mut total: usize = 0;
    let mut i: usize = 0;
    while i < statuses.len()
        invariant
            i <= statuses@.len(),
            statuses@.len() <= usize::MAX / 4,
            total == git_lines(statuses@.take(i as int)),
            total <= 4 * i,
        decreases statuses@.len() - i,
    {
        proof {
            assert(statuses@.take(i + 1).drop_last() =~= statuses@.take(i as int));
        }
        total = total + 3 + if statuses[i].status.is_rebase_in_progress {
            1
        } else {
            0
        };
        i = i + 1;
    }
    proof {
        assert(statuses@.take(statuses@.len() as int) =~= statuses@);
    }
    total
}

/// What enter does where the focus is.
#[derive(Debug, Clone, Copy, PartialEq, Eq, Structural)]
pub enum EnterAction {
    /// Open the new-workspace form.
    CreateWorkspace,
    /// Select the workspace and load it.
    SelectWorkspace(u128),
    /// Let the terminal take keys ("Terminal input mode enabled").
    TerminalInput,
    /// Switch to the session or process highlighted in the detail panel.
    SwitchSessionOrProcess,
    Nothing,
}

/// Enter: on the workspace list, acts on the current row (the new-workspace
/// row while creating one, else the selected workspace's; the first row
/// when not found); on the main panel's terminal, starts terminal input; in
/// the detail panel, switches to the highlighted session or process.
pub open spec fn enter_of(
    focus: Focus,
    pane: Pane,
    rows: Seq<WorkspaceRow>,
    creating: bool,
    selected: Option<u128>,
) -> EnterAction {
    match focus {
        Focus::WorkspaceList => {
            let found = if creating {
                first_new_row(rows, 0)
            } else {
                match selected {
                    Some(id) => first_workspace_row(rows, 0, id),
                    None => None,
                }
            };
            let index = match found {
                Some(i) => i,
                None => 0,
            };
            if index < rows.len() {
                match rows[index] {
                    WorkspaceRow::NewWorkspace => EnterAction::CreateWorkspace,
                    WorkspaceRow::Header(_) => EnterAction::Nothing,
                    WorkspaceRow::Workspace(id) => EnterAction::SelectWorkspace(id),
                }
            } else {
                EnterAction::Nothing
            }
        },
        Focus::Main => if pane == Pane::Terminal {
            EnterAction::TerminalInput
        } else {
            EnterAction::Nothing
        },
        Focus::Detail => EnterAction::SwitchSessionOrProcess,
        Focus::Composer => EnterAction::Nothing,
    }
}

/// What enter does.
pub fn enter_action(
    focus: Focus,
    pane: Pane,
    rows: &Vec<WorkspaceRow>,
    creating: bool,
    selected: Option<u128>,
) -> (r: EnterAction)
    ensures
        r == enter_of(focus, pane, rows@, creating, selected),
{
    match focus {
        Focus::WorkspaceList => {
            let found = if creating {
                find_row(rows, None)
            } else {
                match selected {
                    Some(id) => find_row(rows, Some(id)),
                    None => None,
                }
            };
            let index = match found {
                Some(i) => i,
                None => 0,
            };
            if index < rows.len() {
                match &rows[index] {
                    WorkspaceRow::NewWorkspace => EnterAction::CreateWorkspace,
                    WorkspaceRow::Header(_) => EnterAction::Nothing,
                    WorkspaceRow::Workspace(id) => EnterAction::SelectWorkspace(*id),
                }
            } else {
                EnterAction::Nothing
            }
        },
        Focus::Main => if pane == Pane::Terminal {
            EnterAction::TerminalInput
        } else {
            EnterAction::Nothing
        },
        Focus::Detail => EnterAction::SwitchSessionOrProcess,
        Focus::Composer => EnterAction::Nothing,
    }
}

/// A branch of a repository, as the branch picker lists it.
#[derive(Debug, Clone)]
pub struct BranchInfo {
    pub name: String,
    pub is_current: bool,
}

/// The first index from `i` on of a branch named `name`.
pub open spec fn branch_named_from(branches: Seq<BranchInfo>, name: Seq<char>, i: int) -> Option<int>
    decreases branches.len() - i,
{
    if i < 0 || i >= branches.len() {
        None
    } else if branches[i].name@ == name {
        Some(i)
    } else {
        branch_named_from(branches, name, i + 1)
    }
}

/// The first index from `i` on of the checked-out branch.
pub open spec fn current_branch_from(branches: Seq<BranchInfo>, i: int) -> Option<int>
    decreases branches.len() - i,
{
    if i < 0 || i >= branches.len() {
        None
    } else if branches[i].is_current {
        Some(i)
    } else {
        current_branch_from(branches, i + 1)
    }
}

/// The branch the picker starts on: the first one named as the repository's
/// target branch, else the first checked-out one, else the first.
pub open spec fn default_branch(branches: Seq<BranchInfo>, target_branch: Seq<char>) -> int {
    match branch_named_from(branches, target_branch, 0) {
        Some(i) => i,
        None => match current_branch_from(branches, 0) {
            Some(i) => i,
            None => 0,
        },
    }
}

/// Where the branch picker starts when a repository's branches arrive.
pub fn default_branch_index(branches: &[BranchInfo], target_branch: &String) -> (r: usize)
    ensures
        r == default_branch(branches@, target_branch@),
{
    let mut i: usize = 0;
    while i < branches.len()
        invariant
            i <= branches@.len(),
            branch_named_from(branches@, target_branch@, 0) == branch_named_from(
                branches@,
                target_branch@,
                i as int,
            ),
        decreases branches@.len() - i,
    {
        if branches[i].name == *target_branch {
            return i;
        }
        i = i + 1;
    }
    let mut j: usize = 0;
    while j < branches.len()
        invariant
            j <= branches@.len(),
            branch_named_from(branches@, target_branch@, 0) is None,
            current_branch_from(branches@, 0) == current_branch_from(branches@, j as int),
        decreases branches@.len() - j,
    {
        if branches[j].is_current {
            return j;
        }
        j = j + 1;
    }
    0
}

} // verus!
