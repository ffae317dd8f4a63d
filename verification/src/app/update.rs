//! What the screen does with each event from the backend. The state that
//! the events decide on is held here; what they carry beyond it (workspace
//! records, logs, diffs) is stored by the program when the outcome says so.
use vstd::prelude::*;

use crate::model::domain::Focus;
use crate::model::dto::{same_summary, summaries_equal, WorkspaceSummary};
use crate::model::event::WorkspaceActionKind;
use crate::model::process::{
    active_process, active_process_id, any_running, contains_process, has_process,
    has_running_process, ProcessInfo,
};
use crate::text::{byte_len, chars_of, contains, contains_chars, string_of, sub_chars};

verus! {

/// Background requests whose answer is awaited.
#[derive(Debug, Clone, Copy, PartialEq, Eq, Structural)]
pub struct ActionsInFlight {
    pub prompt_submit: bool,
    pub queue_mutation: bool,
    pub pin_toggle: bool,
    pub archive_toggle: bool,
    pub stop_execution: bool,
    pub dev_server: bool,
    pub cleanup: bool,
    pub open_editor: bool,
}

/// What is selected on the screen.
#[derive(Debug, Clone, Copy, PartialEq, Eq, Structural)]
pub struct Selection {
    pub workspace_id: Option<u128>,
    pub creating_workspace: bool,
    /// The form for a new workspace is open.
    pub workspace_create_open: bool,
    /// The repository whose branches the branch picker of the new-workspace
    /// form waits for.
    pub branch_picker_repo: Option<u128>,
    pub creating_new_session: bool,
    pub session_id: Option<u128>,
    pub process_id: Option<u128>,
}

/// The selected workspace's sessions, processes and diffs, and the
/// summaries of all workspaces.
#[derive(Debug, Clone)]
pub struct WorkspaceData {
    pub session_ids: Vec<u128>,
    pub processes: Vec<ProcessInfo>,
    pub summaries: Vec<WorkspaceSummary>,
    pub diff_count: usize,
    pub selected_diff_index: usize,
}

/// The workspace's notes and their saving.
#[derive(Debug, Clone)]
pub struct NotesSync {
    pub text: String,
    pub cursor: usize,
    pub dirty: bool,
    /// An edit waits to be saved.
    pub edited: bool,
    pub edit_revision: u64,
    pub save_in_flight: bool,
}

/// The composer's draft and its saving.
#[derive(Debug, Clone, Copy, PartialEq, Eq, Structural)]
pub struct ComposerSync {
    pub scratch_loaded: bool,
    pub dirty: bool,
    /// An edit waits to be saved.
    pub edited: bool,
    pub edit_revision: u64,
    pub queue_conflict: bool,
    pub draft_save_in_flight: bool,
}

/// The follow-up queue of the session.
#[derive(Debug, Clone, Copy, PartialEq, Eq, Structural)]
pub struct QueueSync {
    pub session_id: Option<u128>,
    /// A follow-up is queued.
    pub queued: bool,
    pub pending: bool,
}

/// Which processes make up the conversation, and how far their logs have
/// come in.
#[derive(Debug, Clone)]
pub struct ConversationSync {
    /// The processes of the conversation, oldest first.
    pub order: Vec<u128>,
    /// The processes whose logs the conversation holds.
    pub loaded: Vec<u128>,
    pub bootstrapping: bool,
    pub backfilling: bool,
}

/// The status line and the last error.
#[derive(Debug, Clone)]
pub struct Feedback {
    pub status: String,
    pub error: Option<String>,
}

/// The terminal's connection.
#[derive(Debug, Clone)]
pub struct TerminalSync {
    pub connected: bool,
    pub error: Option<String>,
}

/// The state that backend events read and change.
#[derive(Debug, Clone)]
pub struct SyncState {
    pub selection: Selection,
    pub data: WorkspaceData,
    pub notes: NotesSync,
    pub composer: ComposerSync,
    pub queue: QueueSync,
    pub conversation: ConversationSync,
    pub actions: ActionsInFlight,
    pub feedback: Feedback,
    pub terminal: TerminalSync,
}

impl SyncState {
    /// The state before anything is selected or loaded.
    pub fn new() -> (r: SyncState)
        ensures
            r.selection == (Selection {
                workspace_id: None,
                creating_workspace: false,
                workspace_create_open: false,
                branch_picker_repo: None,
                creating_new_session: false,
                session_id: None,
                process_id: None,
            }),
            r.data@.session_ids.len() == 0,
            r.data@.processes.len() == 0,
            r.data@.summaries.len() == 0,
            r.data.diff_count == 0,
            r.data.selected_diff_index == 0,
            r.notes@.text.len() == 0,
            r.notes.cursor == 0,
            !r.notes.dirty && !r.notes.edited && r.notes.edit_revision == 0 && !r.notes.save_in_flight,
            r.composer == (ComposerSync {
                scratch_loaded: false,
                dirty: false,
                edited: false,
                edit_revision: 0,
                queue_conflict: false,
                draft_save_in_flight: false,
            }),
            r.queue == (QueueSync { session_id: None, queued: false, pending: false }),
            r.conversation@.order.len() == 0,
            r.conversation@.loaded.len() == 0,
            !r.conversation.bootstrapping && !r.conversation.backfilling,
            r.actions == (ActionsInFlight {
                prompt_submit: false,
                queue_mutation: false,
                pin_toggle: false,
                archive_toggle: false,
                stop_execution: false,
                dev_server: false,
                cleanup: false,
                open_editor: false,
            }),
            r.feedback@.status.len() == 0,
            r.feedback.error is None,
            !r.terminal.connected && r.terminal.error is None,
            ids_distinct(r@),
    {
        proof {
            assert(process_ids(Seq::<ProcessInfo>::empty()) =~= Seq::<u128>::empty());
            assert(summary_ids(Seq::<WorkspaceSummary>::empty()) =~= Seq::<u128>::empty());
        }
        SyncState {
            selection: Selection {
                workspace_id: None,
                creating_workspace: false,
                workspace_create_open: false,
                branch_picker_repo: None,
                creating_new_session: false,
                session_id: None,
                process_id: None,
            },
            data: WorkspaceData {
                session_ids: Vec::new(),
                processes: Vec::new(),
                summaries: Vec::new(),
                diff_count: 0,
                selected_diff_index: 0,
            },
            notes: NotesSync {
                text: String::new(),
                cursor: 0,
                dirty: false,
                edited: false,
                edit_revision: 0,
                save_in_flight: false,
            },
            composer: ComposerSync {
                scratch_loaded: false,
                dirty: false,
                edited: false,
                edit_revision: 0,
                queue_conflict: false,
                draft_save_in_flight: false,
            },
            queue: QueueSync { session_id: None, queued: false, pending: false },
            conversation: ConversationSync {
                order: Vec::new(),
                loaded: Vec::new(),
                bootstrapping: false,
                backfilling: false,
            },
            actions: ActionsInFlight {
                prompt_submit: false,
                queue_mutation: false,
                pin_toggle: false,
                archive_toggle: false,
                stop_execution: false,
                dev_server: false,
                cleanup: false,
                open_editor: false,
            },
            feedback: Feedback { status: String::new(), error: None },
            terminal: TerminalSync { connected: false, error: None },
        }
    }
}

/// The text of an optional string.
pub open spec fn text_of(s: Option<String>) -> Option<Seq<char>> {
    match s {
        Some(t) => Some(t@),
        None => None,
    }
}

pub struct DataView {
    pub session_ids: Seq<u128>,
    pub processes: Seq<ProcessInfo>,
    pub summaries: Seq<WorkspaceSummary>,
    pub diff_count: usize,
    pub selected_diff_index: usize,
}

pub struct NotesView {
    pub text: Seq<char>,
    pub cursor: usize,
    pub dirty: bool,
    pub edited: bool,
    pub edit_revision: u64,
    pub save_in_flight: bool,
}

pub struct ConversationView {
    pub order: Seq<u128>,
    pub loaded: Seq<u128>,
    pub bootstrapping: bool,
    pub backfilling: bool,
}

pub struct FeedbackView {
    pub status: Seq<char>,
    pub error: Option<Seq<char>>,
}

pub struct TerminalView {
    pub connected: bool,
    pub error: Option<Seq<char>>,
}

/// `SyncState` as values.
pub struct SyncView {
    pub selection: Selection,
    pub data: DataView,
    pub notes: NotesView,
    pub composer: ComposerSync,
    pub queue: QueueSync,
    pub conversation: ConversationView,
    pub actions: ActionsInFlight,
    pub feedback: FeedbackView,
    pub terminal: TerminalView,
}

impl View for WorkspaceData {
    type V = DataView;

    open spec fn view(&self) -> DataView {
        DataView {
            session_ids: self.session_ids@,
            processes: self.processes@,
            summaries: self.summaries@,
            diff_count: self.diff_count,
            selected_diff_index: self.selected_diff_index,
        }
    }
}

impl View for NotesSync {
    type V = NotesView;

    open spec fn view(&self) -> NotesView {
        NotesView {
            text: self.text@,
            cursor: self.cursor,
            dirty: self.dirty,
            edited: self.edited,
            edit_revision: self.edit_revision,
            save_in_flight: self.save_in_flight,
        }
    }
}

impl View for ConversationSync {
    type V = ConversationView;

    open spec fn view(&self) -> ConversationView {
        ConversationView {
            order: self.order@,
            loaded: self.loaded@,
            bootstrapping: self.bootstrapping,
            backfilling: self.backfilling,
        }
    }
}

impl View for Feedback {
    type V = FeedbackView;

    open spec fn view(&self) -> FeedbackView {
        FeedbackView { status: self.status@, error: text_of(self.error) }
    }
}

impl View for TerminalSync {
    type V = TerminalView;

    open spec fn view(&self) -> TerminalView {
        TerminalView { connected: self.connected, error: text_of(self.error) }
    }
}

impl View for SyncState {
    type V = SyncView;

    open spec fn view(&self) -> SyncView {
        SyncView {
            selection: self.selection,
            data: self.data@,
            notes: self.notes@,
            composer: self.composer,
            queue: self.queue,
            conversation: self.conversation@,
            actions: self.actions,
            feedback: self.feedback@,
            terminal: self.terminal@,
        }
    }
}

/// An event from the backend, with what the decisions need of it.
#[derive(Debug, Clone)]
pub enum NetEvent {
    UserSystemLoaded,
    ActiveWorkspaces,
    ArchivedWorkspaces,
    Summaries(Vec<WorkspaceSummary>),
    WorkspaceLoaded,
    SessionsLoaded { workspace_id: u128, session_ids: Vec<u128> },
    ReposLoaded { workspace_id: u128 },
    GitStatusLoaded { workspace_id: u128 },
    NotesLoaded { workspace_id: u128, notes: String },
    DiffsUpdated { workspace_id: u128, count: usize },
    ProcessesUpdated { session_id: u128, processes: Vec<ProcessInfo> },
    LogsUpdated { process_id: u128 },
    /// Options for an executor; whether it is the composer's executor.
    ExecutorOptionsUpdated { for_composer_executor: bool },
    ConversationHistoryLoaded { session_id: u128, process_id: u128 },
    ConversationBootstrapComplete { session_id: u128 },
    ConversationBackfillComplete { session_id: u128 },
    /// A saved follow-up draft, by its message, or none.
    DraftLoaded { scratch_id: u128, draft: Option<String> },
    WorkspaceCreateReposLoaded,
    WorkspaceCreateDraftLoaded { has_draft: bool },
    WorkspaceCreateDraftSaved { revision: u64 },
    WorkspaceCreateDraftSaveFailed { revision: u64, message: String },
    WorkspaceCreateBranchesLoaded { repo_id: u128 },
    WorkspaceCreateSubmitted { workspace_id: u128 },
    WorkspaceCreateSubmitFailed { message: String },
    DraftSaved { scratch_id: u128, revision: u64 },
    DraftSaveFailed { scratch_id: u128, revision: u64, message: String },
    QueueLoaded { session_id: u128, queued: bool },
    NotesSaved { workspace_id: u128, revision: u64 },
    NotesSaveFailed { workspace_id: u128, revision: u64, message: String },
    PromptSubmitted { workspace_id: u128, session_id: u128, workspace_scope: Option<u128> },
    /// The prompt was refused; its text goes back into the composer.
    PromptSubmissionFailed { message: String, restored_draft: String, optimistic_id: Option<u128> },
    QueuedPrompt { session_id: u128, queued: bool },
    QueuePromptFailed { message: String },
    QueueCancelled { session_id: u128, queued: bool, restored: Option<String> },
    QueueCancelFailed { message: String },
    DraftDiscarded { message: String },
    DraftDiscardFailed { message: String },
    WorkspaceActionFinished { kind: WorkspaceActionKind, success: bool, message: String },
    TerminalConnected { workspace_id: u128 },
    TerminalOutput { workspace_id: u128 },
    TerminalError { workspace_id: u128, error: String },
    Error { message: String },
}

/// What the program does after an event, in order.
#[derive(Debug, Clone, Copy, PartialEq, Eq, Structural)]
pub enum SyncEffect {
    /// Take the user's executor profiles from the event.
    UseExecutorProfiles,
    /// Keep the data the event carries.
    StorePayload,
    EnsureWorkspaceSelected,
    WorkspaceListDirty,
    DetailDirty,
    GitDirty,
    ChangesDirty,
    LogsDirty,
    TerminalDirty,
    ChatCacheDirty,
    /// Drop the logs of the selected process.
    ClearLogs,
    RebindSessionStreams,
    RebindLogs,
    RebindDiscovery,
    SyncComposerContext,
    SyncComposerExecutor,
    /// Ask the backend for the queue of this session.
    LoadQueueStatus(u128),
    RefreshConversationHistory,
    /// Remember what the chat shows, to keep it in view after the change.
    CaptureChatAnchor,
    RestoreChatAnchor,
    /// Keep the event's logs as the selected process's log.
    StoreLogs,
    /// Keep the event's logs as the process's part of the conversation.
    StoreConversationEntries,
    /// Recompute the todo list and drop optimistic messages now confirmed.
    ReconcileConversation,
    /// Put the outcome's draft text (and the event's executor settings)
    /// into the composer.
    ApplyDraft,
    ClearComposerDocument,
    ApplyWorkspaceCreateDraft,
    StopDraftLoading,
    /// Select the default branch among those the event carries.
    SelectBranch,
    CloseWorkspaceCreate,
    LoadSelectedWorkspace,
    StopCreateSubmitting,
    /// Move optimistic messages of a new session in the workspace to the
    /// session.
    RekeyOptimistic(u128, u128),
    /// Reload this workspace.
    LoadWorkspace(u128),
    MarkOptimisticFailed(u128),
    ClearComposer,
    /// Feed the event's bytes to the terminal.
    FeedTerminal,
    LogError,
}

/// The effects of an event, and the draft text to apply when they say so.
#[derive(Debug, Clone)]
pub struct SyncOutcome {
    pub effects: Vec<SyncEffect>,
    pub draft_text: Option<String>,
    /// Where the focus moves, if it moves.
    pub focus: Option<Focus>,
}

/// The draft's scratch record: the workspace's while starting a new
/// session, else the selected session's.
pub open spec fn current_scratch(s: Selection) -> Option<u128> {
    if s.creating_new_session {
        s.workspace_id
    } else {
        s.session_id
    }
}

/// The session whose queue the composer shows (none while starting a new
/// session).
pub open spec fn current_queue_session(s: Selection) -> Option<u128> {
    if s.creating_new_session {
        None
    } else {
        s.session_id
    }
}

/// The status line shows `message`, and the error is set to `error`.
pub open spec fn report(v: SyncView, message: Seq<char>, error: Option<Seq<char>>) -> SyncView {
    SyncView { feedback: FeedbackView { status: message, error: error }, ..v }
}

/// An error shown in the status line.
pub open spec fn fail(v: SyncView, message: Seq<char>) -> SyncView {
    report(v, message, Some(message))
}

/// Where the summary of workspace `id` is kept, from index `i` on.
pub open spec fn summary_slot(s: Seq<WorkspaceSummary>, id: u128, i: int) -> Option<int>
    decreases s.len() - i,
{
    if i < 0 || i >= s.len() {
        None
    } else if s[i].workspace_id == id {
        Some(i)
    } else {
        summary_slot(s, id, i + 1)
    }
}

/// The kept summaries after taking in `incoming` one by one, and whether any
/// of them said something new.
pub open spec fn summaries_after(stored: Seq<WorkspaceSummary>, incoming: Seq<WorkspaceSummary>) -> (
    Seq<WorkspaceSummary>,
    bool,
)
    decreases incoming.len(),
{
    if incoming.len() == 0 {
        (stored, false)
    } else {
        let (kept, changed) = summaries_after(stored, incoming.drop_last());
        let x = incoming.last();
        match summary_slot(kept, x.workspace_id, 0) {
            Some(i) => if same_summary(kept[i], x) {
                (kept, changed)
            } else {
                (kept.update(i, x), true)
            },
            None => (kept.push(x), true),
        }
    }
}

/// Asking for the queue again: of the current session, or, with none, an
/// empty queue.
pub open spec fn refresh_queue(sel: Selection, q: QueueSync) -> (QueueSync, Seq<SyncEffect>) {
    match current_queue_session(sel) {
        Some(s) => (QueueSync { pending: true, ..q }, seq![SyncEffect::LoadQueueStatus(s)]),
        None => (
            QueueSync { queued: false, pending: false, ..q },
            if q.queued {
                seq![SyncEffect::ChatCacheDirty]
            } else {
                Seq::empty()
            },
        ),
    }
}

/// Sessions of the selected workspace arrived: the selected session stays
/// if it is still there, else the first session is selected; a change of
/// session drops the processes and logs of the old one.
pub open spec fn sessions_loaded(v: SyncView, workspace_id: u128, ids: Seq<u128>) -> (SyncView, Seq<SyncEffect>) {
    if Some(workspace_id) != v.selection.workspace_id {
        (v, Seq::empty())
    } else {
        let next = match v.selection.session_id {
            Some(s) if ids.contains(s) => Some(s),
            _ => if ids.len() > 0 {
                Some(ids[0])
            } else {
                None
            },
        };
        let after = seq![
            SyncEffect::DetailDirty,
            SyncEffect::RebindDiscovery,
            SyncEffect::SyncComposerContext,
        ];
        if next != v.selection.session_id {
            (
                SyncView {
                    selection: Selection { session_id: next, process_id: None, ..v.selection },
                    data: DataView { session_ids: ids, processes: Seq::empty(), ..v.data },
                    ..v
                },
                seq![SyncEffect::ClearLogs, SyncEffect::RebindSessionStreams] + after,
            )
        } else {
            (SyncView { data: DataView { session_ids: ids, ..v.data }, ..v }, after)
        }
    }
}

/// The process to select among `ps`: the active one, or else the selected
/// one if it is still there.
pub open spec fn next_process(prev: Option<u128>, ps: Seq<ProcessInfo>) -> Option<u128> {
    match active_process_id(ps) {
        Some(id) => Some(id),
        None => match prev {
            Some(p) if has_process(ps, p) => Some(p),
            _ => None,
        },
    }
}

/// Processes of the selected session arrived: the process to select is
/// selected; a change of process drops its logs; the queue is asked for
/// again when a process started or stopped running or the number of
/// processes changed.
pub open spec fn processes_updated(v: SyncView, session_id: u128, ps: Seq<ProcessInfo>) -> (SyncView, Seq<SyncEffect>) {
    if Some(session_id) != v.selection.session_id {
        (v, Seq::empty())
    } else {
        let prev = v.selection.process_id;
        let next = next_process(prev, ps);
        let sel = Selection { process_id: next, ..v.selection };
        let e1 = if next != prev {
            seq![SyncEffect::ClearLogs, SyncEffect::RebindLogs, SyncEffect::SyncComposerExecutor]
        } else {
            seq![SyncEffect::SyncComposerExecutor]
        };
        let (q, e2) = if any_running(v.data.processes) != any_running(ps) || v.data.processes.len()
            != ps.len() {
            refresh_queue(sel, v.queue)
        } else {
            (v.queue, Seq::empty())
        };
        (
            SyncView {
                selection: sel,
                data: DataView { processes: ps, ..v.data },
                queue: q,
                ..v
            },
            e1 + e2 + seq![
                SyncEffect::DetailDirty,
                SyncEffect::ChatCacheDirty,
                SyncEffect::RefreshConversationHistory,
            ],
        )
    }
}

/// `ids` with `id` added when it is not there yet.
pub open spec fn with_id(ids: Seq<u128>, id: u128) -> Seq<u128> {
    if ids.contains(id) {
        ids
    } else {
        ids.push(id)
    }
}

/// The conversation now holds the logs of process `id`.
pub open spec fn conversation_loaded(v: SyncView, id: u128) -> SyncView {
    SyncView {
        conversation: ConversationView { loaded: with_id(v.conversation.loaded, id), ..v.conversation },
        ..v
    }
}

/// `s` without its trailing newlines.
pub open spec fn strip_newlines(s: Seq<char>) -> Seq<char>
    decreases s.len(),
{
    if s.len() > 0 && s.last() == '\n' {
        strip_newlines(s.drop_last())
    } else {
        s
    }
}

/// The request of `kind` is no longer awaited.
pub open spec fn clear_action(a: ActionsInFlight, kind: WorkspaceActionKind) -> ActionsInFlight {
    match kind {
        WorkspaceActionKind::TogglePinned => ActionsInFlight { pin_toggle: false, ..a },
        WorkspaceActionKind::ToggleArchived => ActionsInFlight { archive_toggle: false, ..a },
        WorkspaceActionKind::StopExecution => ActionsInFlight { stop_execution: false, ..a },
        WorkspaceActionKind::StartDevServer => ActionsInFlight { dev_server: false, ..a },
        WorkspaceActionKind::RunCleanup => ActionsInFlight { cleanup: false, ..a },
        WorkspaceActionKind::OpenEditor => ActionsInFlight { open_editor: false, ..a },
    }
}

/// The composer after its draft was saved (or reloaded).
pub open spec fn composer_clean(c: ComposerSync) -> ComposerSync {
    ComposerSync { dirty: false, edited: false, queue_conflict: false, ..c }
}

/// What an event does: the new state, the effects in order, the text of a
/// draft to apply, and where the focus moves.
pub open spec fn net_step(v: SyncView, e: NetEvent) -> (SyncView, Seq<SyncEffect>, Option<Seq<char>>, Option<Focus>) {
    let none: Seq<SyncEffect> = Seq::empty();
    let sel = v.selection;
    let here = |w: u128| Some(w) == sel.workspace_id;
    match e {
        NetEvent::UserSystemLoaded => (
            v,
            seq![SyncEffect::UseExecutorProfiles, SyncEffect::RebindDiscovery],
            None,
            None,
        ),
        NetEvent::ActiveWorkspaces | NetEvent::ArchivedWorkspaces => (
            v,
            seq![
                SyncEffect::StorePayload,
                SyncEffect::WorkspaceListDirty,
                SyncEffect::EnsureWorkspaceSelected,
            ],
            None,
            None,
        ),
        NetEvent::Summaries(incoming) => {
            let (kept, changed) = summaries_after(v.data.summaries, incoming@);
            (
                SyncView { data: DataView { summaries: kept, ..v.data }, ..v },
                if changed {
                    seq![SyncEffect::WorkspaceListDirty]
                } else {
                    none
                },
                None,
                None,
            )
        },
        NetEvent::WorkspaceLoaded => (
            v,
            seq![SyncEffect::StorePayload, SyncEffect::DetailDirty],
            None,
            None,
        ),
        NetEvent::SessionsLoaded { workspace_id, session_ids } => {
            let (v1, e1) = sessions_loaded(v, workspace_id, session_ids@);
            (v1, e1, None, None)
        },
        NetEvent::ReposLoaded { workspace_id } => (
            v,
            if here(workspace_id) {
                seq![SyncEffect::StorePayload]
            } else {
                none
            },
            None,
            None,
        ),
        NetEvent::GitStatusLoaded { workspace_id } => (
            v,
            if here(workspace_id) {
                seq![SyncEffect::StorePayload, SyncEffect::GitDirty]
            } else {
                none
            },
            None,
            None,
        ),
        NetEvent::NotesLoaded { workspace_id, notes } => (
            if here(workspace_id) && !v.notes.dirty {
                SyncView {
                    notes: NotesView { text: notes@, cursor: byte_len(notes@) as usize, ..v.notes },
                    ..v
                }
            } else {
                v
            },
            none,
            None,
            None,
        ),
        NetEvent::NotesSaved { workspace_id, revision } => (
            if here(workspace_id) {
                let n = NotesView { save_in_flight: false, ..v.notes };
                report(
                    SyncView {
                        notes: if revision == v.notes.edit_revision {
                            NotesView { dirty: false, edited: false, ..n }
                        } else {
                            n
                        },
                        ..v
                    },
                    "Notes saved"@,
                    v.feedback.error,
                )
            } else {
                v
            },
            none,
            None,
            None,
        ),
        NetEvent::NotesSaveFailed { workspace_id, revision, message } => (
            if here(workspace_id) {
                let v1 = SyncView { notes: NotesView { save_in_flight: false, ..v.notes }, ..v };
                if revision == v.notes.edit_revision {
                    fail(v1, message@)
                } else {
                    v1
                }
            } else {
                v
            },
            none,
            None,
            None,
        ),
        NetEvent::DiffsUpdated { workspace_id, count } => if here(workspace_id) {
            let index = if v.data.selected_diff_index >= count {
                if count > 0 {
                    (count - 1) as usize
                } else {
                    0
                }
            } else {
                v.data.selected_diff_index
            };
            (
                SyncView {
                    data: DataView { diff_count: count, selected_diff_index: index, ..v.data },
                    ..v
                },
                seq![SyncEffect::StorePayload, SyncEffect::ChangesDirty],
                None,
                None,
            )
        } else {
            (v, none, None, None)
        },
        NetEvent::ProcessesUpdated { session_id, processes } => {
            let (v1, e1) = processes_updated(v, session_id, processes@);
            (v1, e1, None, None)
        },
        NetEvent::LogsUpdated { process_id } => {
            let e1 = if Some(process_id) == sel.process_id {
                seq![SyncEffect::CaptureChatAnchor, SyncEffect::StoreLogs, SyncEffect::LogsDirty]
            } else {
                seq![SyncEffect::CaptureChatAnchor]
            };
            if v.conversation.order.contains(process_id) {
                (
                    conversation_loaded(v, process_id),
                    e1 + seq![
                        SyncEffect::StoreConversationEntries,
                        SyncEffect::ReconcileConversation,
                        SyncEffect::ChatCacheDirty,
                        SyncEffect::RestoreChatAnchor,
                    ],
                    None,
                    None,
                )
            } else {
                (v, e1, None, None)
            }
        },
        NetEvent::ExecutorOptionsUpdated { for_composer_executor } => (
            v,
            if for_composer_executor {
                seq![SyncEffect::StorePayload]
            } else {
                none
            },
            None,
            None,
        ),
        NetEvent::ConversationHistoryLoaded { session_id, process_id } => if Some(session_id)
            == sel.session_id {
            (
                conversation_loaded(v, process_id),
                seq![
                    SyncEffect::CaptureChatAnchor,
                    SyncEffect::StoreConversationEntries,
                    SyncEffect::ReconcileConversation,
                    SyncEffect::ChatCacheDirty,
                    SyncEffect::RestoreChatAnchor,
                ],
                None,
                None,
            )
        } else {
            (v, none, None, None)
        },
        NetEvent::ConversationBootstrapComplete { session_id } => if Some(session_id)
            == sel.session_id {
            (
                SyncView {
                    conversation: ConversationView {
                        bootstrapping: false,
                        backfilling: v.conversation.loaded.len() < v.conversation.order.len(),
                        ..v.conversation
                    },
                    ..v
                },
                seq![SyncEffect::ChatCacheDirty],
                None,
                None,
            )
        } else {
            (v, none, None, None)
        },
        NetEvent::ConversationBackfillComplete { session_id } => if Some(session_id)
            == sel.session_id {
            (
                SyncView {
                    conversation: ConversationView {
                        bootstrapping: false,
                        backfilling: false,
                        ..v.conversation
                    },
                    ..v
                },
                seq![SyncEffect::ChatCacheDirty],
                None,
                None,
            )
        } else {
            (v, none, None, None)
        },
        NetEvent::DraftLoaded { scratch_id, draft } => if Some(scratch_id) == current_scratch(sel)
            && (!v.composer.scratch_loaded || !v.composer.dirty) && !(v.queue.queued
            && draft is Some) {
            let v1 = SyncView {
                composer: ComposerSync { scratch_loaded: true, ..composer_clean(v.composer) },
                ..v
            };
            match draft {
                Some(d) => (v1, seq![SyncEffect::ApplyDraft], Some(strip_newlines(d@)), None),
                None => (v1, seq![SyncEffect::ClearComposerDocument], None, None),
            }
        } else {
            (v, none, None, None)
        },
        NetEvent::WorkspaceCreateReposLoaded => (
            v,
            if sel.workspace_create_open {
                seq![SyncEffect::StorePayload, SyncEffect::DetailDirty]
            } else {
                none
            },
            None,
            None,
        ),
        NetEvent::WorkspaceCreateDraftLoaded { has_draft } => if sel.creating_workspace {
            (
                SyncView { composer: ComposerSync { scratch_loaded: true, ..v.composer }, ..v },
                seq![
                    if has_draft {
                        SyncEffect::ApplyWorkspaceCreateDraft
                    } else {
                        SyncEffect::StopDraftLoading
                    },
                    SyncEffect::DetailDirty,
                ],
                None,
                None,
            )
        } else {
            (v, none, None, None)
        },
        NetEvent::WorkspaceCreateDraftSaved { revision } => (
            if sel.creating_workspace {
                let c = ComposerSync { draft_save_in_flight: false, ..v.composer };
                SyncView {
                    composer: if revision == v.composer.edit_revision {
                        ComposerSync { dirty: false, edited: false, ..c }
                    } else {
                        c
                    },
                    ..v
                }
            } else {
                v
            },
            none,
            None,
            None,
        ),
        NetEvent::WorkspaceCreateDraftSaveFailed { revision, message } => (
            if sel.creating_workspace {
                let v1 = SyncView {
                    composer: ComposerSync { draft_save_in_flight: false, ..v.composer },
                    ..v
                };
                if revision == v.composer.edit_revision {
                    fail(v1, message@)
                } else {
                    v1
                }
            } else {
                v
            },
            none,
            None,
            None,
        ),
        NetEvent::WorkspaceCreateBranchesLoaded { repo_id } => if sel.branch_picker_repo == Some(
            repo_id,
        ) {
            (
                report(v, "Select target branch"@, v.feedback.error),
                seq![SyncEffect::SelectBranch],
                None,
                None,
            )
        } else {
            (v, none, None, None)
        },
        NetEvent::WorkspaceCreateSubmitted { workspace_id } => (
            report(
                SyncView {
                    selection: Selection {
                        creating_workspace: false,
                        workspace_create_open: false,
                        branch_picker_repo: None,
                        workspace_id: Some(workspace_id),
                        ..sel
                    },
                    ..v
                },
                "Workspace created"@,
                None,
            ),
            seq![
                SyncEffect::CloseWorkspaceCreate,
                SyncEffect::WorkspaceListDirty,
                SyncEffect::LoadSelectedWorkspace,
            ],
            None,
            None,
        ),
        NetEvent::WorkspaceCreateSubmitFailed { message } => (
            fail(v, message@),
            if sel.workspace_create_open {
                seq![SyncEffect::StopCreateSubmitting]
            } else {
                none
            },
            None,
            Some(Focus::Composer),
        ),
        NetEvent::DraftSaved { scratch_id, revision } => (
            if Some(scratch_id) == current_scratch(sel) {
                let c = ComposerSync { draft_save_in_flight: false, ..v.composer };
                SyncView {
                    composer: if revision == v.composer.edit_revision {
                        composer_clean(c)
                    } else {
                        c
                    },
                    ..v
                }
            } else {
                v
            },
            none,
            None,
            None,
        ),
        NetEvent::DraftSaveFailed { scratch_id, revision, message } => (
            if Some(scratch_id) == current_scratch(sel) {
                let c = ComposerSync { draft_save_in_flight: false, ..v.composer };
                if revision == v.composer.edit_revision {
                    fail(
                        SyncView {
                            composer: if contains(message@, "queued"@) {
                                ComposerSync { queue_conflict: true, ..c }
                            } else {
                                c
                            },
                            ..v
                        },
                        message@,
                    )
                } else {
                    SyncView { composer: c, ..v }
                }
            } else {
                v
            },
            none,
            None,
            None,
        ),
        NetEvent::QueueLoaded { session_id, queued } => if Some(session_id) == current_queue_session(
            sel,
        ) {
            (
                SyncView {
                    queue: QueueSync { session_id: Some(session_id), queued: queued, pending: false },
                    composer: if !queued {
                        ComposerSync { queue_conflict: false, ..v.composer }
                    } else {
                        v.composer
                    },
                    ..v
                },
                seq![SyncEffect::DetailDirty, SyncEffect::ChatCacheDirty],
                None,
                None,
            )
        } else {
            (v, none, None, None)
        },
        NetEvent::PromptSubmitted { workspace_id, session_id, workspace_scope } => {
            let e1 = match workspace_scope {
                Some(w) => seq![SyncEffect::RekeyOptimistic(w, session_id)],
                None => none,
            };
            let e2 = if here(workspace_id) {
                seq![SyncEffect::DetailDirty, SyncEffect::LoadWorkspace(workspace_id)]
            } else {
                seq![SyncEffect::DetailDirty]
            };
            (
                report(
                    SyncView {
                        actions: ActionsInFlight { prompt_submit: false, ..v.actions },
                        selection: Selection {
                            creating_new_session: false,
                            session_id: Some(session_id),
                            ..sel
                        },
                        ..v
                    },
                    "Prompt sent"@,
                    None,
                ),
                e1 + e2,
                None,
                None,
            )
        },
        NetEvent::PromptSubmissionFailed { message, restored_draft, optimistic_id } => {
            let e1 = match optimistic_id {
                Some(id) => seq![SyncEffect::MarkOptimisticFailed(id)],
                None => none,
            };
            (
                fail(
                    SyncView {
                        actions: ActionsInFlight { prompt_submit: false, ..v.actions },
                        composer: ComposerSync { dirty: true, edited: true, ..v.composer },
                        ..v
                    },
                    message@,
                ),
                e1 + seq![SyncEffect::ApplyDraft],
                Some(restored_draft@),
                Some(Focus::Composer),
            )
        },
        NetEvent::QueuedPrompt { session_id, queued } => {
            let v1 = SyncView { actions: ActionsInFlight { queue_mutation: false, ..v.actions }, ..v };
            if Some(session_id) == current_queue_session(sel) {
                (
                    report(
                        SyncView {
                            queue: QueueSync { queued: queued, pending: false, ..v.queue },
                            composer: ComposerSync { dirty: false, edited: false, ..v.composer },
                            ..v1
                        },
                        "Queued follow-up"@,
                        None,
                    ),
                    seq![SyncEffect::DetailDirty, SyncEffect::ClearComposer],
                    None,
                    Some(Focus::Main),
                )
            } else {
                (v1, none, None, None)
            }
        },
        NetEvent::QueuePromptFailed { message } | NetEvent::QueueCancelFailed { message }
        | NetEvent::DraftDiscardFailed { message } => (
            fail(SyncView { actions: ActionsInFlight { queue_mutation: false, ..v.actions }, ..v }, message@),
            none,
            None,
            None,
        ),
        NetEvent::QueueCancelled { session_id, queued, restored } => {
            let v1 = SyncView { actions: ActionsInFlight { queue_mutation: false, ..v.actions }, ..v };
            if Some(session_id) == current_queue_session(sel) {
                let v2 = SyncView { queue: QueueSync { queued: queued, pending: false, ..v.queue }, ..v1 };
                match restored {
                    Some(d) => (
                        report(
                            SyncView {
                                composer: ComposerSync {
                                    dirty: true,
                                    edited: true,
                                    queue_conflict: false,
                                    ..v.composer
                                },
                                ..v2
                            },
                            "Cancelled queued follow-up"@,
                            None,
                        ),
                        seq![SyncEffect::DetailDirty, SyncEffect::ApplyDraft],
                        Some(d@),
                        None,
                    ),
                    None => (
                        report(v2, "Cancelled queued follow-up"@, None),
                        seq![SyncEffect::DetailDirty],
                        None,
                        None,
                    ),
                }
            } else {
                (v1, none, None, None)
            }
        },
        NetEvent::DraftDiscarded { message } => (
            report(
                SyncView { actions: ActionsInFlight { queue_mutation: false, ..v.actions }, ..v },
                message@,
                None,
            ),
            none,
            None,
            None,
        ),
        NetEvent::WorkspaceActionFinished { kind, success, message } => {
            let v1 = SyncView { actions: clear_action(v.actions, kind), ..v };
            (
                if success {
                    report(v1, message@, None)
                } else {
                    fail(v1, message@)
                },
                none,
                None,
                None,
            )
        },
        NetEvent::TerminalConnected { workspace_id } => if here(workspace_id) {
            (
                SyncView { terminal: TerminalView { connected: true, error: None }, ..v },
                seq![SyncEffect::TerminalDirty],
                None,
                None,
            )
        } else {
            (v, none, None, None)
        },
        NetEvent::TerminalOutput { workspace_id } => (
            v,
            if here(workspace_id) {
                seq![SyncEffect::FeedTerminal, SyncEffect::TerminalDirty]
            } else {
                none
            },
            None,
            None,
        ),
        NetEvent::TerminalError { workspace_id, error } => if here(workspace_id) {
            (
                SyncView { terminal: TerminalView { connected: false, error: Some(error@) }, ..v },
                seq![SyncEffect::TerminalDirty],
                None,
                None,
            )
        } else {
            (v, none, None, None)
        },
        NetEvent::Error { message } => (fail(v, message@), seq![SyncEffect::LogError], None, None),
    }
}

/// The flags with `kind`'s request no longer awaited.
fn action_done(a: ActionsInFlight, kind: WorkspaceActionKind) -> (r: ActionsInFlight)
    ensures
        r == clear_action(a, kind),
{
    let mut r = a;
    match kind {
        WorkspaceActionKind::TogglePinned => r.pin_toggle = false,
        WorkspaceActionKind::ToggleArchived => r.archive_toggle = false,
        WorkspaceActionKind::StopExecution => r.stop_execution = false,
        WorkspaceActionKind::StartDevServer => r.dev_server = false,
        WorkspaceActionKind::RunCleanup => r.cleanup = false,
        WorkspaceActionKind::OpenEditor => r.open_editor = false,
    }
    r
}

fn copy_text(s: &Option<String>) -> (r: Option<String>)
    ensures
        r == *s,
{
    match s {
        Some(t) => Some(t.clone()),
        None => None,
    }
}

/// Shows `message` in the status line and as the error.
fn show_failure(feedback: &mut Feedback, message: String)
    ensures
        final(feedback)@ == (FeedbackView { status: message@, error: Some(message@) }),
{
    feedback.error = Some(message.clone());
    feedback.status = message;
}

/// Shows `message` in the status line and clears the error.
fn show_success(feedback: &mut Feedback, message: String)
    ensures
        final(feedback)@ == (FeedbackView { status: message@, error: None }),
{
    feedback.error = None;
    feedback.status = message;
}

fn contains_id(ids: &Vec<u128>, id: u128) -> (r: bool)
    ensures
        r == ids@.contains(id),
{
    let mut i: usize = 0;
    while i < ids.len()
        invariant
            i <= ids@.len(),
            forall|k: int| 0 <= k < i ==> ids@[k] != id,
        decreases ids@.len() - i,
    {
        if ids[i] == id {
            return true;
        }
        i = i + 1;
    }
    false
}

/// Takes in new summaries; returns whether any said something new.
fn take_summaries(kept: &mut Vec<WorkspaceSummary>, incoming: Vec<WorkspaceSummary>) -> (changed: bool)
    ensures
        (final(kept)@, changed) == summaries_after(old(kept)@, incoming@),
{
    let mut changed = false;
    let mut i: usize = 0;
    while i < incoming.len()
        invariant
            i <= incoming@.len(),
            (kept@, changed) == summaries_after(old(kept)@, incoming@.take(i as int)),
        decreases incoming@.len() - i,
    {
        proof {
            assert(incoming@.take(i + 1).drop_last() =~= incoming@.take(i as int));
        }
        let x = &incoming[i];
        let mut j: usize = 0;
        let mut slot: Option<usize> = None;
        while j < kept.len()
            invariant_except_break
                slot is None,
            invariant
                j <= kept@.len(),
                summary_slot(kept@, x.workspace_id, 0) == summary_slot(kept@, x.workspace_id, j as int),
            ensures
                match slot {
                    Some(k) => summary_slot(kept@, x.workspace_id, 0) == Some(k as int) && k
                        < kept@.len(),
                    None => summary_slot(kept@, x.workspace_id, 0) is None,
                },
            decreases kept@.len() - j,
        {
            if kept[j].workspace_id == x.workspace_id {
                slot = Some(j);
                break;
            }
            j = j + 1;
        }
        match slot {
            Some(k) => {
                if !summaries_equal(&kept[k], x) {
                    kept.set(k, x.clone_summary());
                    changed = true;
                }
            },
            None => {
                kept.push(x.clone_summary());
                changed = true;
            },
        }
        i = i + 1;
    }
    proof {
        assert(incoming@.take(incoming@.len() as int) =~= incoming@);
    }
    changed
}

fn refresh_queue_status(sel: &Selection, queue: &mut QueueSync) -> (r: Vec<SyncEffect>)
    ensures
        (*final(queue), r@) == refresh_queue(*sel, *old(queue)),
{
    let session = if sel.creating_new_session {
        None
    } else {
        sel.session_id
    };
    let mut out: Vec<SyncEffect> = Vec::new();
    match session {
        Some(s) => {
            queue.pending = true;
            out.push(SyncEffect::LoadQueueStatus(s));
        },
        None => {
            let had_queue = queue.queued;
            queue.queued = false;
            queue.pending = false;
            if had_queue {
                out.push(SyncEffect::ChatCacheDirty);
            }
        },
    }
    proof {
        assert(out@ =~= refresh_queue(*sel, *old(queue)).1);
    }
    out
}

#[verifier::spinoff_prover]
fn take_sessions(state: &mut SyncState, workspace_id: u128, ids: Vec<u128>) -> (r: Vec<SyncEffect>)
    ensures
        (final(state)@, r@) == sessions_loaded(old(state)@, workspace_id, ids@),
{
    if Some(workspace_id) != state.selection.workspace_id {
        return Vec::new();
    }
    let previous = state.selection.session_id;
    let next = match previous {
        Some(s) if contains_id(&ids, s) => Some(s),
        _ => if ids.len() > 0 {
            Some(ids[0])
        } else {
            None
        },
    };
    let mut out: Vec<SyncEffect> = Vec::new();
    state.data.session_ids = ids;
    if next != previous {
        state.selection.session_id = next;
        state.selection.process_id = None;
        state.data.processes = Vec::new();
        out.push(SyncEffect::ClearLogs);
        out.push(SyncEffect::RebindSessionStreams);
    }
    out.push(SyncEffect::DetailDirty);
    out.push(SyncEffect::RebindDiscovery);
    out.push(SyncEffect::SyncComposerContext);
    proof {
        assert(out@ =~= sessions_loaded(old(state)@, workspace_id, ids@).1);
        assert(state.data@ =~= sessions_loaded(old(state)@, workspace_id, ids@).0.data);
    }
    out
}

/// The process to select among `ps`.
fn choose_process(previous: Option<u128>, ps: &[ProcessInfo]) -> (r: Option<u128>)
    ensures
        r == next_process(previous, ps@),
{
    match active_process(ps) {
        Some(id) => Some(id),
        None => match previous {
            Some(p) if contains_process(ps, p) => Some(p),
            _ => None,
        },
    }
}

#[verifier::spinoff_prover]
#[verifier::rlimit(30)]
fn take_processes(state: &mut SyncState, session_id: u128, ps: Vec<ProcessInfo>) -> (r: Vec<SyncEffect>)
    ensures
        (final(state)@, r@) == processes_updated(old(state)@, session_id, ps@),
{
    if Some(session_id) != state.selection.session_id {
        return Vec::new();
    }
    let had_running = has_running_process(state.data.processes.as_slice());
    let previous_count = state.data.processes.len();
    let now_running = has_running_process(ps.as_slice());
    let now_count = ps.len();
    let previous = state.selection.process_id;
    let next = choose_process(previous, ps.as_slice());
    state.data.processes = ps;
    state.selection.process_id = next;
    let mut out: Vec<SyncEffect> = Vec::new();
    if next != previous {
        out.push(SyncEffect::ClearLogs);
        out.push(SyncEffect::RebindLogs);
    }
    out.push(SyncEffect::SyncComposerExecutor);
    if had_running != now_running || previous_count != now_count {
        let mut more = refresh_queue_status(&state.selection, &mut state.queue);
        out.append(&mut more);
    }
    out.push(SyncEffect::DetailDirty);
    out.push(SyncEffect::ChatCacheDirty);
    out.push(SyncEffect::RefreshConversationHistory);
    proof {
        let spec = processes_updated(old(state)@, session_id, ps@);
        assert(out@ =~= spec.1);
        assert(state.data@ =~= spec.0.data);
    }
    out
}

/// Notes that the conversation holds the logs of process `id`.
fn note_loaded(conversation: &mut ConversationSync, id: u128)
    ensures
        final(conversation)@ == (ConversationView {
            loaded: with_id(old(conversation)@.loaded, id),
            ..old(conversation)@
        }),
{
    if !contains_id(&conversation.loaded, id) {
        conversation.loaded.push(id);
    }
}

/// `s` without its trailing newlines.
fn strip_trailing_newlines(s: &String) -> (r: String)
    ensures
        r@ == strip_newlines(s@),
{
    let v = chars_of(s.as_str());
    let mut n: usize = v.len();
    proof {
        assert(v@.take(n as int) =~= v@);
    }
    while n > 0 && v[n - 1] == '\n'
        invariant
            n <= v@.len(),
            strip_newlines(v@) == strip_newlines(v@.take(n as int)),
        decreases n,
    {
        proof {
            assert(v@.take(n as int).drop_last() =~= v@.take(n - 1));
        }
        n = n - 1;
    }
    let kept = sub_chars(&v, 0, n);
    proof {
        assert(kept@ =~= v@.take(n as int));
    }
    string_of(kept.as_slice())
}

#[verifier::spinoff_prover]
fn on_user_system_loaded(state: &mut SyncState, event: NetEvent) -> (r: SyncOutcome)
    requires
        event is UserSystemLoaded,
    ensures
        final(state)@ == net_step(old(state)@, event).0,
        r.effects@ == net_step(old(state)@, event).1,
        text_of(r.draft_text) == net_step(old(state)@, event).2,
        r.focus == net_step(old(state)@, event).3,
{
    let ghost e = event;
    let selected_workspace = state.selection.workspace_id;
    let mut effects: Vec<SyncEffect> = Vec::new();
    let mut draft_text: Option<String> = None;
    let mut focus: Option<Focus> = None;
    match event {
        NetEvent::UserSystemLoaded => {
            effects.push(SyncEffect::UseExecutorProfiles);
            effects.push(SyncEffect::RebindDiscovery);
        },
        _ => {},
    }
    proof {
        assert(effects@ =~= net_step(old(state)@, e).1);
    }
    SyncOutcome { effects, draft_text, focus }
}

#[verifier::spinoff_prover]
fn on_active_workspaces(state: &mut SyncState, event: NetEvent) -> (r: SyncOutcome)
    requires
        event is ActiveWorkspaces || event is ArchivedWorkspaces,
    ensures
        final(state)@ == net_step(old(state)@, event).0,
        r.effects@ == net_step(old(state)@, event).1,
        text_of(r.draft_text) == net_step(old(state)@, event).2,
        r.focus == net_step(old(state)@, event).3,
{
    let ghost e = event;
    let selected_workspace = state.selection.workspace_id;
    let mut effects: Vec<SyncEffect> = Vec::new();
    let mut draft_text: Option<String> = None;
    let mut focus: Option<Focus> = None;
    match event {
        NetEvent::ActiveWorkspaces | NetEvent::ArchivedWorkspaces => {
            effects.push(SyncEffect::StorePayload);
            effects.push(SyncEffect::WorkspaceListDirty);
            effects.push(SyncEffect::EnsureWorkspaceSelected);
        },
        _ => {},
    }
    proof {
        assert(effects@ =~= net_step(old(state)@, e).1);
    }
    SyncOutcome { effects, draft_text, focus }
}

#[verifier::spinoff_prover]
fn on_summaries(state: &mut SyncState, event: NetEvent) -> (r: SyncOutcome)
    requires
        event is Summaries,
    ensures
        final(state)@ == net_step(old(state)@, event).0,
        r.effects@ == net_step(old(state)@, event).1,
        text_of(r.draft_text) == net_step(old(state)@, event).2,
        r.focus == net_step(old(state)@, event).3,
{
    let ghost e = event;
    let selected_workspace = state.selection.workspace_id;
    let mut effects: Vec<SyncEffect> = Vec::new();
    let mut draft_text: Option<String> = None;
    let mut focus: Option<Focus> = None;
    match event {
        NetEvent::Summaries(incoming) => {
            if take_summaries(&mut state.data.summaries, incoming) {
                effects.push(SyncEffect::WorkspaceListDirty);
            }
        },
        _ => {},
    }
    proof {
        assert(effects@ =~= net_step(old(state)@, e).1);
    }
    SyncOutcome { effects, draft_text, focus }
}

#[verifier::spinoff_prover]
fn on_workspace_loaded(state: &mut SyncState, event: NetEvent) -> (r: SyncOutcome)
    requires
        event is WorkspaceLoaded,
    ensures
        final(state)@ == net_step(old(state)@, event).0,
        r.effects@ == net_step(old(state)@, event).1,
        text_of(r.draft_text) == net_step(old(state)@, event).2,
        r.focus == net_step(old(state)@, event).3,
{
    let ghost e = event;
    let selected_workspace = state.selection.workspace_id;
    let mut effects: Vec<SyncEffect> = Vec::new();
    let mut draft_text: Option<String> = None;
    let mut focus: Option<Focus> = None;
    match event {
        NetEvent::WorkspaceLoaded => {
            effects.push(SyncEffect::StorePayload);
            effects.push(SyncEffect::DetailDirty);
        },
        _ => {},
    }
    proof {
        assert(effects@ =~= net_step(old(state)@, e).1);
    }
    SyncOutcome { effects, draft_text, focus }
}

#[verifier::spinoff_prover]
fn on_sessions_loaded(state: &mut SyncState, event: NetEvent) -> (r: SyncOutcome)
    requires
        event is SessionsLoaded,
    ensures
        final(state)@ == net_step(old(state)@, event).0,
        r.effects@ == net_step(old(state)@, event).1,
        text_of(r.draft_text) == net_step(old(state)@, event).2,
        r.focus == net_step(old(state)@, event).3,
{
    let ghost e = event;
    let selected_workspace = state.selection.workspace_id;
    let mut effects: Vec<SyncEffect> = Vec::new();
    let mut draft_text: Option<String> = None;
    let mut focus: Option<Focus> = None;
    match event {
        NetEvent::SessionsLoaded { workspace_id, session_ids } => {
            effects = take_sessions(state, workspace_id, session_ids);
        },
        _ => {},
    }
    proof {
        assert(effects@ =~= net_step(old(state)@, e).1);
    }
    SyncOutcome { effects, draft_text, focus }
}

#[verifier::spinoff_prover]
fn on_repos_loaded(state: &mut SyncState, event: NetEvent) -> (r: SyncOutcome)
    requires
        event is ReposLoaded,
    ensures
        final(state)@ == net_step(old(state)@, event).0,
        r.effects@ == net_step(old(state)@, event).1,
        text_of(r.draft_text) == net_step(old(state)@, event).2,
        r.focus == net_step(old(state)@, event).3,
{
    let ghost e = event;
    let selected_workspace = state.selection.workspace_id;
    let mut effects: Vec<SyncEffect> = Vec::new();
    let mut draft_text: Option<String> = None;
    let mut focus: Option<Focus> = None;
    match event {
        NetEvent::ReposLoaded { workspace_id } => {
            if Some(workspace_id) == selected_workspace {
                effects.push(SyncEffect::StorePayload);
            }
        },
        _ => {},
    }
    proof {
        assert(effects@ =~= net_step(old(state)@, e).1);
    }
    SyncOutcome { effects, draft_text, focus }
}

#[verifier::spinoff_prover]
fn on_git_status_loaded(state: &mut SyncState, event: NetEvent) -> (r: SyncOutcome)
    requires
        event is GitStatusLoaded,
    ensures
        final(state)@ == net_step(old(state)@, event).0,
        r.effects@ == net_step(old(state)@, event).1,
        text_of(r.draft_text) == net_step(old(state)@, event).2,
        r.focus == net_step(old(state)@, event).3,
{
    let ghost e = event;
    let selected_workspace = state.selection.workspace_id;
    let mut effects: Vec<SyncEffect> = Vec::new();
    let mut draft_text: Option<String> = None;
    let mut focus: Option<Focus> = None;
    match event {
        NetEvent::GitStatusLoaded { workspace_id } => {
            if Some(workspace_id) == selected_workspace {
                effects.push(SyncEffect::StorePayload);
                effects.push(SyncEffect::GitDirty);
            }
        },
        _ => {},
    }
    proof {
        assert(effects@ =~= net_step(old(state)@, e).1);
    }
    SyncOutcome { effects, draft_text, focus }
}

#[verifier::spinoff_prover]
fn on_diffs_updated(state: &mut SyncState, event: NetEvent) -> (r: SyncOutcome)
    requires
        event is DiffsUpdated,
    ensures
        final(state)@ == net_step(old(state)@, event).0,
        r.effects@ == net_step(old(state)@, event).1,
        text_of(r.draft_text) == net_step(old(state)@, event).2,
        r.focus == net_step(old(state)@, event).3,
{
    let ghost e = event;
    let selected_workspace = state.selection.workspace_id;
    let mut effects: Vec<SyncEffect> = Vec::new();
    let mut draft_text: Option<String> = None;
    let mut focus: Option<Focus> = None;
    match event {
        NetEvent::DiffsUpdated { workspace_id, count } => {
            if Some(workspace_id) == selected_workspace {
                state.data.diff_count = count;
                if state.data.selected_diff_index >= count {
                    state.data.selected_diff_index = count.saturating_sub(1);
                }
                effects.push(SyncEffect::StorePayload);
                effects.push(SyncEffect::ChangesDirty);
            }
        },
        _ => {},
    }
    proof {
        assert(effects@ =~= net_step(old(state)@, e).1);
    }
    SyncOutcome { effects, draft_text, focus }
}

#[verifier::spinoff_prover]
fn on_processes_updated(state: &mut SyncState, event: NetEvent) -> (r: SyncOutcome)
    requires
        event is ProcessesUpdated,
    ensures
        final(state)@ == net_step(old(state)@, event).0,
        r.effects@ == net_step(old(state)@, event).1,
        text_of(r.draft_text) == net_step(old(state)@, event).2,
        r.focus == net_step(old(state)@, event).3,
{
    let ghost e = event;
    let selected_workspace = state.selection.workspace_id;
    let mut effects: Vec<SyncEffect> = Vec::new();
    let mut draft_text: Option<String> = None;
    let mut focus: Option<Focus> = None;
    match event {
        NetEvent::ProcessesUpdated { session_id, processes } => {
            effects = take_processes(state, session_id, processes);
        },
        _ => {},
    }
    proof {
        assert(effects@ =~= net_step(old(state)@, e).1);
    }
    SyncOutcome { effects, draft_text, focus }
}

#[verifier::spinoff_prover]
fn on_notes_loaded(state: &mut SyncState, event: NetEvent) -> (r: SyncOutcome)
    requires
        event is NotesLoaded,
    ensures
        final(state)@ == net_step(old(state)@, event).0,
        r.effects@ == net_step(old(state)@, event).1,
        text_of(r.draft_text) == net_step(old(state)@, event).2,
        r.focus == net_step(old(state)@, event).3,
{
    let ghost e = event;
    let selected_workspace = state.selection.workspace_id;
    let mut effects: Vec<SyncEffect> = Vec::new();
    let mut draft_text: Option<String> = None;
    let mut focus: Option<Focus> = None;
    match event {
        NetEvent::NotesLoaded { workspace_id, notes } => {
            if Some(workspace_id) == selected_workspace && !state.notes.dirty {
                let cursor = notes.as_str().as_bytes().len();
                proof {
                    crate::text::lemma_byte_len_is_encoded_len(notes@);
                }
                state.notes.text = notes;
                state.notes.cursor = cursor;
            }
        },
        _ => {},
    }
    proof {
        assert(effects@ =~= net_step(old(state)@, e).1);
    }
    SyncOutcome { effects, draft_text, focus }
}

#[verifier::spinoff_prover]
fn on_notes_saved(state: &mut SyncState, event: NetEvent) -> (r: SyncOutcome)
    requires
        event is NotesSaved,
    ensures
        final(state)@ == net_step(old(state)@, event).0,
        r.effects@ == net_step(old(state)@, event).1,
        text_of(r.draft_text) == net_step(old(state)@, event).2,
        r.focus == net_step(old(state)@, event).3,
{
    let ghost e = event;
    let selected_workspace = state.selection.workspace_id;
    let mut effects: Vec<SyncEffect> = Vec::new();
    let mut draft_text: Option<String> = None;
    let mut focus: Option<Focus> = None;
    match event {
        NetEvent::NotesSaved { workspace_id, revision } => {
            if Some(workspace_id) == selected_workspace {
                state.notes.save_in_flight = false;
                if revision == state.notes.edit_revision {
                    state.notes.dirty = false;
                    state.notes.edited = false;
                }
                state.feedback.status = String::from_str("Notes saved");
            }
        },
        _ => {},
    }
    proof {
        assert(effects@ =~= net_step(old(state)@, e).1);
    }
    SyncOutcome { effects, draft_text, focus }
}

#[verifier::spinoff_prover]
fn on_notes_save_failed(state: &mut SyncState, event: NetEvent) -> (r: SyncOutcome)
    requires
        event is NotesSaveFailed,
    ensures
        final(state)@ == net_step(old(state)@, event).0,
        r.effects@ == net_step(old(state)@, event).1,
        text_of(r.draft_text) == net_step(old(state)@, event).2,
        r.focus == net_step(old(state)@, event).3,
{
    let ghost e = event;
    let selected_workspace = state.selection.workspace_id;
    let mut effects: Vec<SyncEffect> = Vec::new();
    let mut draft_text: Option<String> = None;
    let mut focus: Option<Focus> = None;
    match event {
        NetEvent::NotesSaveFailed { workspace_id, revision, message } => {
            if Some(workspace_id) == selected_workspace {
                state.notes.save_in_flight = false;
                if revision == state.notes.edit_revision {
                    show_failure(&mut state.feedback, message);
                }
            }
        },
        _ => {},
    }
    proof {
        assert(effects@ =~= net_step(old(state)@, e).1);
    }
    SyncOutcome { effects, draft_text, focus }
}

#[verifier::spinoff_prover]
fn on_logs_updated(state: &mut SyncState, event: NetEvent) -> (r: SyncOutcome)
    requires
        event is LogsUpdated,
    ensures
        final(state)@ == net_step(old(state)@, event).0,
        r.effects@ == net_step(old(state)@, event).1,
        text_of(r.draft_text) == net_step(old(state)@, event).2,
        r.focus == net_step(old(state)@, event).3,
{
    let ghost e = event;
    let selected_workspace = state.selection.workspace_id;
    let mut effects: Vec<SyncEffect> = Vec::new();
    let mut draft_text: Option<String> = None;
    let mut focus: Option<Focus> = None;
    match event {
        NetEvent::LogsUpdated { process_id } => {
            effects.push(SyncEffect::CaptureChatAnchor);
            if Some(process_id) == state.selection.process_id {
                effects.push(SyncEffect::StoreLogs);
                effects.push(SyncEffect::LogsDirty);
            }
            if contains_id(&state.conversation.order, process_id) {
                note_loaded(&mut state.conversation, process_id);
                effects.push(SyncEffect::StoreConversationEntries);
                effects.push(SyncEffect::ReconcileConversation);
                effects.push(SyncEffect::ChatCacheDirty);
                effects.push(SyncEffect::RestoreChatAnchor);
            }
        },
        _ => {},
    }
    proof {
        assert(effects@ =~= net_step(old(state)@, e).1);
    }
    SyncOutcome { effects, draft_text, focus }
}

#[verifier::spinoff_prover]
fn on_executor_options_updated(state: &mut SyncState, event: NetEvent) -> (r: SyncOutcome)
    requires
        event is ExecutorOptionsUpdated,
    ensures
        final(state)@ == net_step(old(state)@, event).0,
        r.effects@ == net_step(old(state)@, event).1,
        text_of(r.draft_text) == net_step(old(state)@, event).2,
        r.focus == net_step(old(state)@, event).3,
{
    let ghost e = event;
    let selected_workspace = state.selection.workspace_id;
    let mut effects: Vec<SyncEffect> = Vec::new();
    let mut draft_text: Option<String> = None;
    let mut focus: Option<Focus> = None;
    match event {
        NetEvent::ExecutorOptionsUpdated { for_composer_executor } => {
            if for_composer_executor {
                effects.push(SyncEffect::StorePayload);
            }
        },
        _ => {},
    }
    proof {
        assert(effects@ =~= net_step(old(state)@, e).1);
    }
    SyncOutcome { effects, draft_text, focus }
}

#[verifier::spinoff_prover]
fn on_conversation_history_loaded(state: &mut SyncState, event: NetEvent) -> (r: SyncOutcome)
    requires
        event is ConversationHistoryLoaded,
    ensures
        final(state)@ == net_step(old(state)@, event).0,
        r.effects@ == net_step(old(state)@, event).1,
        text_of(r.draft_text) == net_step(old(state)@, event).2,
        r.focus == net_step(old(state)@, event).3,
{
    let ghost e = event;
    let selected_workspace = state.selection.workspace_id;
    let mut effects: Vec<SyncEffect> = Vec::new();
    let mut draft_text: Option<String> = None;
    let mut focus: Option<Focus> = None;
    match event {
        NetEvent::ConversationHistoryLoaded { session_id, process_id } => {
            if Some(session_id) == state.selection.session_id {
                note_loaded(&mut state.conversation, process_id);
                effects.push(SyncEffect::CaptureChatAnchor);
                effects.push(SyncEffect::StoreConversationEntries);
                effects.push(SyncEffect::ReconcileConversation);
                effects.push(SyncEffect::ChatCacheDirty);
                effects.push(SyncEffect::RestoreChatAnchor);
            }
        },
        _ => {},
    }
    proof {
        assert(effects@ =~= net_step(old(state)@, e).1);
    }
    SyncOutcome { effects, draft_text, focus }
}

#[verifier::spinoff_prover]
fn on_conversation_bootstrap_complete(state: &mut SyncState, event: NetEvent) -> (r: SyncOutcome)
    requires
        event is ConversationBootstrapComplete,
    ensures
        final(state)@ == net_step(old(state)@, event).0,
        r.effects@ == net_step(old(state)@, event).1,
        text_of(r.draft_text) == net_step(old(state)@, event).2,
        r.focus == net_step(old(state)@, event).3,
{
    let ghost e = event;
    let selected_workspace = state.selection.workspace_id;
    let mut effects: Vec<SyncEffect> = Vec::new();
    let mut draft_text: Option<String> = None;
    let mut focus: Option<Focus> = None;
    match event {
        NetEvent::ConversationBootstrapComplete { session_id } => {
            if Some(session_id) == state.selection.session_id {
                state.conversation.bootstrapping = false;
                state.conversation.backfilling = state.conversation.loaded.len()
                    < state.conversation.order.len();
                effects.push(SyncEffect::ChatCacheDirty);
            }
        },
        _ => {},
    }
    proof {
        assert(effects@ =~= net_step(old(state)@, e).1);
    }
    SyncOutcome { effects, draft_text, focus }
}

#[verifier::spinoff_prover]
fn on_conversation_backfill_complete(state: &mut SyncState, event: NetEvent) -> (r: SyncOutcome)
    requires
        event is ConversationBackfillComplete,
    ensures
        final(state)@ == net_step(old(state)@, event).0,
        r.effects@ == net_step(old(state)@, event).1,
        text_of(r.draft_text) == net_step(old(state)@, event).2,
        r.focus == net_step(old(state)@, event).3,
{
    let ghost e = event;
    let selected_workspace = state.selection.workspace_id;
    let mut effects: Vec<SyncEffect> = Vec::new();
    let mut draft_text: Option<String> = None;
    let mut focus: Option<Focus> = None;
    match event {
        NetEvent::ConversationBackfillComplete { session_id } => {
            if Some(session_id) == state.selection.session_id {
                state.conversation.bootstrapping = false;
                state.conversation.backfilling = false;
                effects.push(SyncEffect::ChatCacheDirty);
            }
        },
        _ => {},
    }
    proof {
        assert(effects@ =~= net_step(old(state)@, e).1);
    }
    SyncOutcome { effects, draft_text, focus }
}

#[verifier::spinoff_prover]
fn on_draft_loaded(state: &mut SyncState, event: NetEvent) -> (r: SyncOutcome)
    requires
        event is DraftLoaded,
    ensures
        final(state)@ == net_step(old(state)@, event).0,
        r.effects@ == net_step(old(state)@, event).1,
        text_of(r.draft_text) == net_step(old(state)@, event).2,
        r.focus == net_step(old(state)@, event).3,
{
    let ghost e = event;
    let selected_workspace = state.selection.workspace_id;
    let mut effects: Vec<SyncEffect> = Vec::new();
    let mut draft_text: Option<String> = None;
    let mut focus: Option<Focus> = None;
    match event {
        NetEvent::DraftLoaded { scratch_id, draft } => {
            let scratch = if state.selection.creating_new_session {
                state.selection.workspace_id
            } else {
                state.selection.session_id
            };
            if Some(scratch_id) == scratch && (!state.composer.scratch_loaded
                || !state.composer.dirty) && !(state.queue.queued && draft.is_some()) {
                match draft {
                    Some(d) => {
                        draft_text = Some(strip_trailing_newlines(&d));
                        effects.push(SyncEffect::ApplyDraft);
                    },
                    None => {
                        effects.push(SyncEffect::ClearComposerDocument);
                    },
                }
                state.composer.scratch_loaded = true;
                state.composer.dirty = false;
                state.composer.edited = false;
                state.composer.queue_conflict = false;
            }
        },
        _ => {},
    }
    proof {
        assert(effects@ =~= net_step(old(state)@, e).1);
    }
    SyncOutcome { effects, draft_text, focus }
}

#[verifier::spinoff_prover]
fn on_workspace_create_repos_loaded(state: &mut SyncState, event: NetEvent) -> (r: SyncOutcome)
    requires
        event is WorkspaceCreateReposLoaded,
    ensures
        final(state)@ == net_step(old(state)@, event).0,
        r.effects@ == net_step(old(state)@, event).1,
        text_of(r.draft_text) == net_step(old(state)@, event).2,
        r.focus == net_step(old(state)@, event).3,
{
    let ghost e = event;
    let selected_workspace = state.selection.workspace_id;
    let mut effects: Vec<SyncEffect> = Vec::new();
    let mut draft_text: Option<String> = None;
    let mut focus: Option<Focus> = None;
    match event {
        NetEvent::WorkspaceCreateReposLoaded => {
            if state.selection.workspace_create_open {
                effects.push(SyncEffect::StorePayload);
                effects.push(SyncEffect::DetailDirty);
            }
        },
        _ => {},
    }
    proof {
        assert(effects@ =~= net_step(old(state)@, e).1);
    }
    SyncOutcome { effects, draft_text, focus }
}

#[verifier::spinoff_prover]
fn on_workspace_create_draft_loaded(state: &mut SyncState, event: NetEvent) -> (r: SyncOutcome)
    requires
        event is WorkspaceCreateDraftLoaded,
    ensures
        final(state)@ == net_step(old(state)@, event).0,
        r.effects@ == net_step(old(state)@, event).1,
        text_of(r.draft_text) == net_step(old(state)@, event).2,
        r.focus == net_step(old(state)@, event).3,
{
    let ghost e = event;
    let selected_workspace = state.selection.workspace_id;
    let mut effects: Vec<SyncEffect> = Vec::new();
    let mut draft_text: Option<String> = None;
    let mut focus: Option<Focus> = None;
    match event {
        NetEvent::WorkspaceCreateDraftLoaded { has_draft } => {
            if state.selection.creating_workspace {
                effects.push(
                    if has_draft {
                        SyncEffect::ApplyWorkspaceCreateDraft
                    } else {
                        SyncEffect::StopDraftLoading
                    },
                );
                state.composer.scratch_loaded = true;
                effects.push(SyncEffect::DetailDirty);
            }
        },
        _ => {},
    }
    proof {
        assert(effects@ =~= net_step(old(state)@, e).1);
    }
    SyncOutcome { effects, draft_text, focus }
}

#[verifier::spinoff_prover]
fn on_workspace_create_draft_saved(state: &mut SyncState, event: NetEvent) -> (r: SyncOutcome)
    requires
        event is WorkspaceCreateDraftSaved,
    ensures
        final(state)@ == net_step(old(state)@, event).0,
        r.effects@ == net_step(old(state)@, event).1,
        text_of(r.draft_text) == net_step(old(state)@, event).2,
        r.focus == net_step(old(state)@, event).3,
{
    let ghost e = event;
    let selected_workspace = state.selection.workspace_id;
    let mut effects: Vec<SyncEffect> = Vec::new();
    let mut draft_text: Option<String> = None;
    let mut focus: Option<Focus> = None;
    match event {
        NetEvent::WorkspaceCreateDraftSaved { revision } => {
            if state.selection.creating_workspace {
                state.composer.draft_save_in_flight = false;
                if revision == state.composer.edit_revision {
                    state.composer.dirty = false;
                    state.composer.edited = false;
                }
            }
        },
        _ => {},
    }
    proof {
        assert(effects@ =~= net_step(old(state)@, e).1);
    }
    SyncOutcome { effects, draft_text, focus }
}

#[verifier::spinoff_prover]
fn on_workspace_create_draft_save_failed(state: &mut SyncState, event: NetEvent) -> (r: SyncOutcome)
    requires
        event is WorkspaceCreateDraftSaveFailed,
    ensures
        final(state)@ == net_step(old(state)@, event).0,
        r.effects@ == net_step(old(state)@, event).1,
        text_of(r.draft_text) == net_step(old(state)@, event).2,
        r.focus == net_step(old(state)@, event).3,
{
    let ghost e = event;
    let selected_workspace = state.selection.workspace_id;
    let mut effects: Vec<SyncEffect> = Vec::new();
    let mut draft_text: Option<String> = None;
    let mut focus: Option<Focus> = None;
    match event {
        NetEvent::WorkspaceCreateDraftSaveFailed { revision, message } => {
            if state.selection.creating_workspace {
                state.composer.draft_save_in_flight = false;
                if revision == state.composer.edit_revision {
                    show_failure(&mut state.feedback, message);
                }
            }
        },
        _ => {},
    }
    proof {
        assert(effects@ =~= net_step(old(state)@, e).1);
    }
    SyncOutcome { effects, draft_text, focus }
}

#[verifier::spinoff_prover]
fn on_workspace_create_branches_loaded(state: &mut SyncState, event: NetEvent) -> (r: SyncOutcome)
    requires
        event is WorkspaceCreateBranchesLoaded,
    ensures
        final(state)@ == net_step(old(state)@, event).0,
        r.effects@ == net_step(old(state)@, event).1,
        text_of(r.draft_text) == net_step(old(state)@, event).2,
        r.focus == net_step(old(state)@, event).3,
{
    let ghost e = event;
    let selected_workspace = state.selection.workspace_id;
    let mut effects: Vec<SyncEffect> = Vec::new();
    let mut draft_text: Option<String> = None;
    let mut focus: Option<Focus> = None;
    match event {
        NetEvent::WorkspaceCreateBranchesLoaded { repo_id } => {
            if state.selection.branch_picker_repo == Some(repo_id) {
                effects.push(SyncEffect::SelectBranch);
                state.feedback.status = String::from_str("Select target branch");
            }
        },
        _ => {},
    }
    proof {
        assert(effects@ =~= net_step(old(state)@, e).1);
    }
    SyncOutcome { effects, draft_text, focus }
}

#[verifier::spinoff_prover]
fn on_workspace_create_submitted(state: &mut SyncState, event: NetEvent) -> (r: SyncOutcome)
    requires
        event is WorkspaceCreateSubmitted,
    ensures
        final(state)@ == net_step(old(state)@, event).0,
        r.effects@ == net_step(old(state)@, event).1,
        text_of(r.draft_text) == net_step(old(state)@, event).2,
        r.focus == net_step(old(state)@, event).3,
{
    let ghost e = event;
    let selected_workspace = state.selection.workspace_id;
    let mut effects: Vec<SyncEffect> = Vec::new();
    let mut draft_text: Option<String> = None;
    let mut focus: Option<Focus> = None;
    match event {
        NetEvent::WorkspaceCreateSubmitted { workspace_id } => {
            state.selection.creating_workspace = false;
            state.selection.workspace_create_open = false;
            state.selection.branch_picker_repo = None;
            state.selection.workspace_id = Some(workspace_id);
            effects.push(SyncEffect::CloseWorkspaceCreate);
            effects.push(SyncEffect::WorkspaceListDirty);
            effects.push(SyncEffect::LoadSelectedWorkspace);
            show_success(&mut state.feedback, String::from_str("Workspace created"));
        },
        _ => {},
    }
    proof {
        assert(effects@ =~= net_step(old(state)@, e).1);
    }
    SyncOutcome { effects, draft_text, focus }
}

#[verifier::spinoff_prover]
fn on_workspace_create_submit_failed(state: &mut SyncState, event: NetEvent) -> (r: SyncOutcome)
    requires
        event is WorkspaceCreateSubmitFailed,
    ensures
        final(state)@ == net_step(old(state)@, event).0,
        r.effects@ == net_step(old(state)@, event).1,
        text_of(r.draft_text) == net_step(old(state)@, event).2,
        r.focus == net_step(old(state)@, event).3,
{
    let ghost e = event;
    let selected_workspace = state.selection.workspace_id;
    let mut effects: Vec<SyncEffect> = Vec::new();
    let mut draft_text: Option<String> = None;
    let mut focus: Option<Focus> = None;
    match event {
        NetEvent::WorkspaceCreateSubmitFailed { message } => {
            if state.selection.workspace_create_open {
                effects.push(SyncEffect::StopCreateSubmitting);
            }
            show_failure(&mut state.feedback, message);
            focus = Some(Focus::Composer);
        },
        _ => {},
    }
    proof {
        assert(effects@ =~= net_step(old(state)@, e).1);
    }
    SyncOutcome { effects, draft_text, focus }
}

#[verifier::spinoff_prover]
fn on_draft_saved(state: &mut SyncState, event: NetEvent) -> (r: SyncOutcome)
    requires
        event is DraftSaved,
    ensures
        final(state)@ == net_step(old(state)@, event).0,
        r.effects@ == net_step(old(state)@, event).1,
        text_of(r.draft_text) == net_step(old(state)@, event).2,
        r.focus == net_step(old(state)@, event).3,
{
    let ghost e = event;
    let selected_workspace = state.selection.workspace_id;
    let mut effects: Vec<SyncEffect> = Vec::new();
    let mut draft_text: Option<String> = None;
    let mut focus: Option<Focus> = None;
    match event {
        NetEvent::DraftSaved { scratch_id, revision } => {
            let scratch = if state.selection.creating_new_session {
                state.selection.workspace_id
            } else {
                state.selection.session_id
            };
            if Some(scratch_id) == scratch {
                state.composer.draft_save_in_flight = false;
                if revision == state.composer.edit_revision {
                    state.composer.dirty = false;
                    state.composer.edited = false;
                    state.composer.queue_conflict = false;
                }
            }
        },
        _ => {},
    }
    proof {
        assert(effects@ =~= net_step(old(state)@, e).1);
    }
    SyncOutcome { effects, draft_text, focus }
}

#[verifier::spinoff_prover]
fn on_draft_save_failed(state: &mut SyncState, event: NetEvent) -> (r: SyncOutcome)
    requires
        event is DraftSaveFailed,
    ensures
        final(state)@ == net_step(old(state)@, event).0,
        r.effects@ == net_step(old(state)@, event).1,
        text_of(r.draft_text) == net_step(old(state)@, event).2,
        r.focus == net_step(old(state)@, event).3,
{
    let ghost e = event;
    let selected_workspace = state.selection.workspace_id;
    let mut effects: Vec<SyncEffect> = Vec::new();
    let mut draft_text: Option<String> = None;
    let mut focus: Option<Focus> = None;
    match event {
        NetEvent::DraftSaveFailed { scratch_id, revision, message } => {
            let scratch = if state.selection.creating_new_session {
                state.selection.workspace_id
            } else {
                state.selection.session_id
            };
            if Some(scratch_id) == scratch {
                state.composer.draft_save_in_flight = false;
                if revision == state.composer.edit_revision {
                    let v = chars_of(message.as_str());
                    let queued_word = chars_of("queued");
                    proof {
                        reveal_strlit("queued");
                    }
                    if contains_chars(&v, &queued_word) {
                        state.composer.queue_conflict = true;
                    }
                    show_failure(&mut state.feedback, message);
                }
            }
        },
        _ => {},
    }
    proof {
        assert(effects@ =~= net_step(old(state)@, e).1);
    }
    SyncOutcome { effects, draft_text, focus }
}

#[verifier::spinoff_prover]
fn on_queue_loaded(state: &mut SyncState, event: NetEvent) -> (r: SyncOutcome)
    requires
        event is QueueLoaded,
    ensures
        final(state)@ == net_step(old(state)@, event).0,
        r.effects@ == net_step(old(state)@, event).1,
        text_of(r.draft_text) == net_step(old(state)@, event).2,
        r.focus == net_step(old(state)@, event).3,
{
    let ghost e = event;
    let selected_workspace = state.selection.workspace_id;
    let mut effects: Vec<SyncEffect> = Vec::new();
    let mut draft_text: Option<String> = None;
    let mut focus: Option<Focus> = None;
    match event {
        NetEvent::QueueLoaded { session_id, queued } => {
            let current = if state.selection.creating_new_session {
                None
            } else {
                state.selection.session_id
            };
            if Some(session_id) == current {
                state.queue.session_id = Some(session_id);
                state.queue.queued = queued;
                state.queue.pending = false;
                if !queued {
                    state.composer.queue_conflict = false;
                }
                effects.push(SyncEffect::DetailDirty);
                effects.push(SyncEffect::ChatCacheDirty);
            }
        },
        _ => {},
    }
    proof {
        assert(effects@ =~= net_step(old(state)@, e).1);
    }
    SyncOutcome { effects, draft_text, focus }
}

#[verifier::spinoff_prover]
fn on_prompt_submitted(state: &mut SyncState, event: NetEvent) -> (r: SyncOutcome)
    requires
        event is PromptSubmitted,
    ensures
        final(state)@ == net_step(old(state)@, event).0,
        r.effects@ == net_step(old(state)@, event).1,
        text_of(r.draft_text) == net_step(old(state)@, event).2,
        r.focus == net_step(old(state)@, event).3,
{
    let ghost e = event;
    let selected_workspace = state.selection.workspace_id;
    let mut effects: Vec<SyncEffect> = Vec::new();
    let mut draft_text: Option<String> = None;
    let mut focus: Option<Focus> = None;
    match event {
        NetEvent::PromptSubmitted { workspace_id, session_id, workspace_scope } => {
            state.actions.prompt_submit = false;
            if let Some(w) = workspace_scope {
                effects.push(SyncEffect::RekeyOptimistic(w, session_id));
            }
            let reload = Some(workspace_id) == selected_workspace;
            state.selection.creating_new_session = false;
            state.selection.session_id = Some(session_id);
            effects.push(SyncEffect::DetailDirty);
            if reload {
                effects.push(SyncEffect::LoadWorkspace(workspace_id));
            }
            show_success(&mut state.feedback, String::from_str("Prompt sent"));
        },
        _ => {},
    }
    proof {
        assert(effects@ =~= net_step(old(state)@, e).1);
    }
    SyncOutcome { effects, draft_text, focus }
}

#[verifier::spinoff_prover]
fn on_prompt_submission_failed(state: &mut SyncState, event: NetEvent) -> (r: SyncOutcome)
    requires
        event is PromptSubmissionFailed,
    ensures
        final(state)@ == net_step(old(state)@, event).0,
        r.effects@ == net_step(old(state)@, event).1,
        text_of(r.draft_text) == net_step(old(state)@, event).2,
        r.focus == net_step(old(state)@, event).3,
{
    let ghost e = event;
    let selected_workspace = state.selection.workspace_id;
    let mut effects: Vec<SyncEffect> = Vec::new();
    let mut draft_text: Option<String> = None;
    let mut focus: Option<Focus> = None;
    match event {
        NetEvent::PromptSubmissionFailed { message, restored_draft, optimistic_id } => {
            state.actions.prompt_submit = false;
            if let Some(id) = optimistic_id {
                effects.push(SyncEffect::MarkOptimisticFailed(id));
            }
            effects.push(SyncEffect::ApplyDraft);
            draft_text = Some(restored_draft);
            state.composer.dirty = true;
            state.composer.edited = true;
            focus = Some(Focus::Composer);
            show_failure(&mut state.feedback, message);
        },
        _ => {},
    }
    proof {
        assert(effects@ =~= net_step(old(state)@, e).1);
    }
    SyncOutcome { effects, draft_text, focus }
}

#[verifier::spinoff_prover]
fn on_queued_prompt(state: &mut SyncState, event: NetEvent) -> (r: SyncOutcome)
    requires
        event is QueuedPrompt,
    ensures
        final(state)@ == net_step(old(state)@, event).0,
        r.effects@ == net_step(old(state)@, event).1,
        text_of(r.draft_text) == net_step(old(state)@, event).2,
        r.focus == net_step(old(state)@, event).3,
{
    let ghost e = event;
    let selected_workspace = state.selection.workspace_id;
    let mut effects: Vec<SyncEffect> = Vec::new();
    let mut draft_text: Option<String> = None;
    let mut focus: Option<Focus> = None;
    match event {
        NetEvent::QueuedPrompt { session_id, queued } => {
            state.actions.queue_mutation = false;
            let current = if state.selection.creating_new_session {
                None
            } else {
                state.selection.session_id
            };
            if Some(session_id) == current {
                state.queue.queued = queued;
                state.queue.pending = false;
                effects.push(SyncEffect::DetailDirty);
                effects.push(SyncEffect::ClearComposer);
                state.composer.dirty = false;
                state.composer.edited = false;
                focus = Some(Focus::Main);
                show_success(&mut state.feedback, String::from_str("Queued follow-up"));
            }
        },
        _ => {},
    }
    proof {
        assert(effects@ =~= net_step(old(state)@, e).1);
    }
    SyncOutcome { effects, draft_text, focus }
}

#[verifier::spinoff_prover]
fn on_queue_prompt_failed(state: &mut SyncState, event: NetEvent) -> (r: SyncOutcome)
    requires
        event is QueuePromptFailed || event is QueueCancelFailed || event is DraftDiscardFailed,
    ensures
        final(state)@ == net_step(old(state)@, event).0,
        r.effects@ == net_step(old(state)@, event).1,
        text_of(r.draft_text) == net_step(old(state)@, event).2,
        r.focus == net_step(old(state)@, event).3,
{
    let ghost e = event;
    let selected_workspace = state.selection.workspace_id;
    let mut effects: Vec<SyncEffect> = Vec::new();
    let mut draft_text: Option<String> = None;
    let mut focus: Option<Focus> = None;
    match event {
        NetEvent::QueuePromptFailed { message } | NetEvent::QueueCancelFailed { message }
        | NetEvent::DraftDiscardFailed { message } => {
            state.actions.queue_mutation = false;
            show_failure(&mut state.feedback, message);
        },
        _ => {},
    }
    proof {
        assert(effects@ =~= net_step(old(state)@, e).1);
    }
    SyncOutcome { effects, draft_text, focus }
}

#[verifier::spinoff_prover]
fn on_queue_cancelled(state: &mut SyncState, event: NetEvent) -> (r: SyncOutcome)
    requires
        event is QueueCancelled,
    ensures
        final(state)@ == net_step(old(state)@, event).0,
        r.effects@ == net_step(old(state)@, event).1,
        text_of(r.draft_text) == net_step(old(state)@, event).2,
        r.focus == net_step(old(state)@, event).3,
{
    let ghost e = event;
    let selected_workspace = state.selection.workspace_id;
    let mut effects: Vec<SyncEffect> = Vec::new();
    let mut draft_text: Option<String> = None;
    let mut focus: Option<Focus> = None;
    match event {
        NetEvent::QueueCancelled { session_id, queued, restored } => {
            state.actions.queue_mutation = false;
            let current = if state.selection.creating_new_session {
                None
            } else {
                state.selection.session_id
            };
            if Some(session_id) == current {
                state.queue.queued = queued;
                state.queue.pending = false;
                effects.push(SyncEffect::DetailDirty);
                if let Some(d) = restored {
                    effects.push(SyncEffect::ApplyDraft);
                    draft_text = Some(d);
                    state.composer.dirty = true;
                    state.composer.edited = true;
                    state.composer.queue_conflict = false;
                }
                show_success(&mut state.feedback, String::from_str("Cancelled queued follow-up"));
            }
        },
        _ => {},
    }
    proof {
        assert(effects@ =~= net_step(old(state)@, e).1);
    }
    SyncOutcome { effects, draft_text, focus }
}

#[verifier::spinoff_prover]
fn on_draft_discarded(state: &mut SyncState, event: NetEvent) -> (r: SyncOutcome)
    requires
        event is DraftDiscarded,
    ensures
        final(state)@ == net_step(old(state)@, event).0,
        r.effects@ == net_step(old(state)@, event).1,
        text_of(r.draft_text) == net_step(old(state)@, event).2,
        r.focus == net_step(old(state)@, event).3,
{
    let ghost e = event;
    let selected_workspace = state.selection.workspace_id;
    let mut effects: Vec<SyncEffect> = Vec::new();
    let mut draft_text: Option<String> = None;
    let mut focus: Option<Focus> = None;
    match event {
        NetEvent::DraftDiscarded { message } => {
            state.actions.queue_mutation = false;
            show_success(&mut state.feedback, message);
        },
        _ => {},
    }
    proof {
        assert(effects@ =~= net_step(old(state)@, e).1);
    }
    SyncOutcome { effects, draft_text, focus }
}

#[verifier::spinoff_prover]
fn on_workspace_action_finished(state: &mut SyncState, event: NetEvent) -> (r: SyncOutcome)
    requires
        event is WorkspaceActionFinished,
    ensures
        final(state)@ == net_step(old(state)@, event).0,
        r.effects@ == net_step(old(state)@, event).1,
        text_of(r.draft_text) == net_step(old(state)@, event).2,
        r.focus == net_step(old(state)@, event).3,
{
    let ghost e = event;
    let selected_workspace = state.selection.workspace_id;
    let mut effects: Vec<SyncEffect> = Vec::new();
    let mut draft_text: Option<String> = None;
    let mut focus: Option<Focus> = None;
    match event {
        NetEvent::WorkspaceActionFinished { kind, success, message } => {
            state.actions = action_done(state.actions, kind);
            if success {
                show_success(&mut state.feedback, message);
            } else {
                show_failure(&mut state.feedback, message);
            }
        },
        _ => {},
    }
    proof {
        assert(effects@ =~= net_step(old(state)@, e).1);
    }
    SyncOutcome { effects, draft_text, focus }
}

#[verifier::spinoff_prover]
fn on_terminal_connected(state: &mut SyncState, event: NetEvent) -> (r: SyncOutcome)
    requires
        event is TerminalConnected,
    ensures
        final(state)@ == net_step(old(state)@, event).0,
        r.effects@ == net_step(old(state)@, event).1,
        text_of(r.draft_text) == net_step(old(state)@, event).2,
        r.focus == net_step(old(state)@, event).3,
{
    let ghost e = event;
    let selected_workspace = state.selection.workspace_id;
    let mut effects: Vec<SyncEffect> = Vec::new();
    let mut draft_text: Option<String> = None;
    let mut focus: Option<Focus> = None;
    match event {
        NetEvent::TerminalConnected { workspace_id } => {
            if Some(workspace_id) == selected_workspace {
                state.terminal.connected = true;
                state.terminal.error = None;
                effects.push(SyncEffect::TerminalDirty);
            }
        },
        _ => {},
    }
    proof {
        assert(effects@ =~= net_step(old(state)@, e).1);
    }
    SyncOutcome { effects, draft_text, focus }
}

#[verifier::spinoff_prover]
fn on_terminal_output(state: &mut SyncState, event: NetEvent) -> (r: SyncOutcome)
    requires
        event is TerminalOutput,
    ensures
        final(state)@ == net_step(old(state)@, event).0,
        r.effects@ == net_step(old(state)@, event).1,
        text_of(r.draft_text) == net_step(old(state)@, event).2,
        r.focus == net_step(old(state)@, event).3,
{
    let ghost e = event;
    let selected_workspace = state.selection.workspace_id;
    let mut effects: Vec<SyncEffect> = Vec::new();
    let mut draft_text: Option<String> = None;
    let mut focus: Option<Focus> = None;
    match event {
        NetEvent::TerminalOutput { workspace_id } => {
            if Some(workspace_id) == selected_workspace {
                effects.push(SyncEffect::FeedTerminal);
                effects.push(SyncEffect::TerminalDirty);
            }
        },
        _ => {},
    }
    proof {
        assert(effects@ =~= net_step(old(state)@, e).1);
    }
    SyncOutcome { effects, draft_text, focus }
}

#[verifier::spinoff_prover]
fn on_terminal_error(state: &mut SyncState, event: NetEvent) -> (r: SyncOutcome)
    requires
        event is TerminalError,
    ensures
        final(state)@ == net_step(old(state)@, event).0,
        r.effects@ == net_step(old(state)@, event).1,
        text_of(r.draft_text) == net_step(old(state)@, event).2,
        r.focus == net_step(old(state)@, event).3,
{
    let ghost e = event;
    let selected_workspace = state.selection.workspace_id;
    let mut effects: Vec<SyncEffect> = Vec::new();
    let mut draft_text: Option<String> = None;
    let mut focus: Option<Focus> = None;
    match event {
        NetEvent::TerminalError { workspace_id, error } => {
            if Some(workspace_id) == selected_workspace {
                state.terminal.error = Some(error);
                state.terminal.connected = false;
                effects.push(SyncEffect::TerminalDirty);
            }
        },
        _ => {},
    }
    proof {
        assert(effects@ =~= net_step(old(state)@, e).1);
    }
    SyncOutcome { effects, draft_text, focus }
}

#[verifier::spinoff_prover]
fn on_error(state: &mut SyncState, event: NetEvent) -> (r: SyncOutcome)
    requires
        event is Error,
    ensures
        final(state)@ == net_step(old(state)@, event).0,
        r.effects@ == net_step(old(state)@, event).1,
        text_of(r.draft_text) == net_step(old(state)@, event).2,
        r.focus == net_step(old(state)@, event).3,
{
    let ghost e = event;
    let selected_workspace = state.selection.workspace_id;
    let mut effects: Vec<SyncEffect> = Vec::new();
    let mut draft_text: Option<String> = None;
    let mut focus: Option<Focus> = None;
    match event {
        NetEvent::Error { message } => {
            effects.push(SyncEffect::LogError);
            show_failure(&mut state.feedback, message);
        },
        _ => {},
    }
    proof {
        assert(effects@ =~= net_step(old(state)@, e).1);
    }
    SyncOutcome { effects, draft_text, focus }
}

/// No id occurs twice.
pub open spec fn distinct_ids(ids: Seq<u128>) -> bool {
    forall|i: int, j: int| 0 <= i < j < ids.len() ==> ids[i] != ids[j]
}

/// The ids of processes.
pub open spec fn process_ids(ps: Seq<ProcessInfo>) -> Seq<u128> {
    ps.map_values(|p: ProcessInfo| p.id)
}

/// The workspaces that summaries are of.
pub open spec fn summary_ids(s: Seq<WorkspaceSummary>) -> Seq<u128> {
    s.map_values(|x: WorkspaceSummary| x.workspace_id)
}

/// The sessions, the processes and the summaries are each kept at most once
/// per id, as maps keyed by id would keep them.
pub open spec fn ids_distinct(v: SyncView) -> bool {
    &&& distinct_ids(v.data.session_ids)
    &&& distinct_ids(process_ids(v.data.processes))
    &&& distinct_ids(summary_ids(v.data.summaries))
}

/// The sessions and processes an event brings name each id once, as the
/// backend's lists and maps of them do.
pub open spec fn event_ids_distinct(e: NetEvent) -> bool {
    match e {
        NetEvent::SessionsLoaded { session_ids, .. } => distinct_ids(session_ids@),
        NetEvent::ProcessesUpdated { processes, .. } => distinct_ids(process_ids(processes@)),
        _ => true,
    }
}

proof fn lemma_summary_slot(s: Seq<WorkspaceSummary>, id: u128, i: int)
    requires
        0 <= i,
    ensures
        match summary_slot(s, id, i) {
            Some(k) => i <= k < s.len() && s[k].workspace_id == id,
            None => forall|k: int| i <= k < s.len() ==> s[k].workspace_id != id,
        },
    decreases s.len() - i,
{
    if i < s.len() && s[i].workspace_id != id {
        lemma_summary_slot(s, id, i + 1);
    }
}

proof fn lemma_summaries_stay_distinct(stored: Seq<WorkspaceSummary>, incoming: Seq<WorkspaceSummary>)
    requires
        distinct_ids(summary_ids(stored)),
    ensures
        distinct_ids(summary_ids(summaries_after(stored, incoming).0)),
    decreases incoming.len(),
{
    if incoming.len() > 0 {
        lemma_summaries_stay_distinct(stored, incoming.drop_last());
        let kept = summaries_after(stored, incoming.drop_last()).0;
        let x = incoming.last();
        lemma_summary_slot(kept, x.workspace_id, 0);
        match summary_slot(kept, x.workspace_id, 0) {
            Some(i) => {
                assert(summary_ids(kept.update(i, x)) =~= summary_ids(kept));
            },
            None => {
                let ids = summary_ids(kept.push(x));
                assert(ids =~= summary_ids(kept).push(x.workspace_id));
                assert forall|a: int, b: int| 0 <= a < b < ids.len() implies ids[a] != ids[b] by {
                    if b == ids.len() - 1 {
                        assert(kept[a].workspace_id != x.workspace_id);
                    } else {
                        assert(summary_ids(kept)[a] != summary_ids(kept)[b]);
                    }
                }
            },
        }
    }
}

/// Ids stay distinct: when the sessions, processes and summaries each hold
/// an id at most once, and the event's sessions or processes do too, then
/// after the event they still each hold an id at most once. Summaries of a
/// workspace already kept replace it in place.
pub proof fn lemma_ids_stay_distinct(v: SyncView, e: NetEvent)
    requires
        ids_distinct(v),
        event_ids_distinct(e),
    ensures
        ids_distinct(net_step(v, e).0),
{
    assert(distinct_ids(Seq::<u128>::empty()));
    assert(process_ids(Seq::<ProcessInfo>::empty()) =~= Seq::<u128>::empty());
    match e {
        NetEvent::Summaries(incoming) => {
            lemma_summaries_stay_distinct(v.data.summaries, incoming@);
        },
        _ => {},
    }
}

/// Takes in an event from the backend: updates the state and says what
/// the program has to do about it.
pub fn handle_net_event(state: &mut SyncState, event: NetEvent) -> (r: SyncOutcome)
    ensures
        final(state)@ == net_step(old(state)@, event).0,
        r.effects@ == net_step(old(state)@, event).1,
        text_of(r.draft_text) == net_step(old(state)@, event).2,
        r.focus == net_step(old(state)@, event).3,
        ids_distinct(old(state)@) && event_ids_distinct(event) ==> ids_distinct(final(state)@),
{
    proof {
        if ids_distinct(state@) && event_ids_distinct(event) {
            lemma_ids_stay_distinct(state@, event);
        }
    }
    match &event {
        NetEvent::UserSystemLoaded => on_user_system_loaded(state, event),
        NetEvent::ActiveWorkspaces | NetEvent::ArchivedWorkspaces => on_active_workspaces(state, event),
        NetEvent::Summaries(..) => on_summaries(state, event),
        NetEvent::WorkspaceLoaded => on_workspace_loaded(state, event),
        NetEvent::SessionsLoaded { .. } => on_sessions_loaded(state, event),
        NetEvent::ReposLoaded { .. } => on_repos_loaded(state, event),
        NetEvent::GitStatusLoaded { .. } => on_git_status_loaded(state, event),
        NetEvent::DiffsUpdated { .. } => on_diffs_updated(state, event),
        NetEvent::ProcessesUpdated { .. } => on_processes_updated(state, event),
        NetEvent::NotesLoaded { .. } => on_notes_loaded(state, event),
        NetEvent::NotesSaved { .. } => on_notes_saved(state, event),
        NetEvent::NotesSaveFailed { .. } => on_notes_save_failed(state, event),
        NetEvent::LogsUpdated { .. } => on_logs_updated(state, event),
        NetEvent::ExecutorOptionsUpdated { .. } => on_executor_options_updated(state, event),
        NetEvent::ConversationHistoryLoaded { .. } => on_conversation_history_loaded(state, event),
        NetEvent::ConversationBootstrapComplete { .. } => on_conversation_bootstrap_complete(state, event),
        NetEvent::ConversationBackfillComplete { .. } => on_conversation_backfill_complete(state, event),
        NetEvent::DraftLoaded { .. } => on_draft_loaded(state, event),
        NetEvent::WorkspaceCreateReposLoaded => on_workspace_create_repos_loaded(state, event),
        NetEvent::WorkspaceCreateDraftLoaded { .. } => on_workspace_create_draft_loaded(state, event),
        NetEvent::WorkspaceCreateDraftSaved { .. } => on_workspace_create_draft_saved(state, event),
        NetEvent::WorkspaceCreateDraftSaveFailed { .. } => on_workspace_create_draft_save_failed(state, event),
        NetEvent::WorkspaceCreateBranchesLoaded { .. } => on_workspace_create_branches_loaded(state, event),
        NetEvent::WorkspaceCreateSubmitted { .. } => on_workspace_create_submitted(state, event),
        NetEvent::WorkspaceCreateSubmitFailed { .. } => on_workspace_create_submit_failed(state, event),
        NetEvent::DraftSaved { .. } => on_draft_saved(state, event),
        NetEvent::DraftSaveFailed { .. } => on_draft_save_failed(state, event),
        NetEvent::QueueLoaded { .. } => on_queue_loaded(state, event),
        NetEvent::PromptSubmitted { .. } => on_prompt_submitted(state, event),
        NetEvent::PromptSubmissionFailed { .. } => on_prompt_submission_failed(state, event),
        NetEvent::QueuedPrompt { .. } => on_queued_prompt(state, event),
        NetEvent::QueuePromptFailed { .. } | NetEvent::QueueCancelFailed { .. }
        | NetEvent::DraftDiscardFailed { .. } => on_queue_prompt_failed(state, event),
        NetEvent::QueueCancelled { .. } => on_queue_cancelled(state, event),
        NetEvent::DraftDiscarded { .. } => on_draft_discarded(state, event),
        NetEvent::WorkspaceActionFinished { .. } => on_workspace_action_finished(state, event),
        NetEvent::TerminalConnected { .. } => on_terminal_connected(state, event),
        NetEvent::TerminalOutput { .. } => on_terminal_output(state, event),
        NetEvent::TerminalError { .. } => on_terminal_error(state, event),
        NetEvent::Error { .. } => on_error(state, event),
    }
}

/// An event about a workspace other than the selected one changes
/// nothing and asks for nothing.
pub proof fn lemma_other_workspace_events_ignored(v: SyncView, e: NetEvent)
    requires
        match e {
            NetEvent::ReposLoaded { workspace_id }
            | NetEvent::GitStatusLoaded { workspace_id }
            | NetEvent::NotesLoaded { workspace_id, .. }
            | NetEvent::NotesSaved { workspace_id, .. }
            | NetEvent::NotesSaveFailed { workspace_id, .. }
            | NetEvent::DiffsUpdated { workspace_id, .. }
            | NetEvent::SessionsLoaded { workspace_id, .. }
            | NetEvent::TerminalConnected { workspace_id }
            | NetEvent::TerminalOutput { workspace_id }
            | NetEvent::TerminalError { workspace_id, .. } => Some(workspace_id)
                != v.selection.workspace_id,
            _ => false,
        },
    ensures
        net_step(v, e).0 == v,
        net_step(v, e).1 == Seq::<SyncEffect>::empty(),
        net_step(v, e).2 is None,
        net_step(v, e).3 is None,
{
}

/// An event about a session other than the selected one changes
/// nothing and asks for nothing.
pub proof fn lemma_other_session_events_ignored(v: SyncView, e: NetEvent)
    requires
        match e {
            NetEvent::ProcessesUpdated { session_id, .. }
            | NetEvent::ConversationHistoryLoaded { session_id, .. }
            | NetEvent::ConversationBootstrapComplete { session_id }
            | NetEvent::ConversationBackfillComplete { session_id } => Some(session_id)
                != v.selection.session_id,
            _ => false,
        },
    ensures
        net_step(v, e).0 == v,
        net_step(v, e).1 == Seq::<SyncEffect>::empty(),
        net_step(v, e).2 is None,
        net_step(v, e).3 is None,
{
}

/// A draft loaded from the backend never overwrites unsaved local
/// edits: with the draft already loaded and edited, it changes nothing.
pub proof fn lemma_loaded_draft_keeps_local_edits(v: SyncView, scratch_id: u128, draft: Option<String>)
    requires
        v.composer.scratch_loaded,
        v.composer.dirty,
    ensures
        net_step(v, NetEvent::DraftLoaded { scratch_id, draft }).0 == v,
        net_step(v, NetEvent::DraftLoaded { scratch_id, draft }).1 == Seq::<SyncEffect>::empty(),
        net_step(v, NetEvent::DraftLoaded { scratch_id, draft }).2 is None,
{
}

/// The backend's confirmation that the current revision of the draft
/// was saved leaves the composer clean, with no save in flight.
pub proof fn lemma_saved_draft_is_clean(v: SyncView, revision: u64)
    requires
        current_scratch(v.selection) is Some,
        revision == v.composer.edit_revision,
    ensures
        ({
            let c = net_step(
                v,
                NetEvent::DraftSaved { scratch_id: current_scratch(v.selection)->0, revision },
            ).0.composer;
            !c.dirty && !c.edited && !c.queue_conflict && !c.draft_save_in_flight
        }),
{
}

/// A save confirmed for another revision of the draft than the current
/// one (an older save returning after more typing) leaves the newer edits
/// unsaved: whether the draft is dirty, edited or blocked by a queued
/// follow-up, and its revision, stay as they were; at most the save in
/// flight ends. The rest of the state is untouched.
pub proof fn lemma_stale_draft_save_keeps_edits(v: SyncView, scratch_id: u128, revision: u64)
    requires
        revision != v.composer.edit_revision,
    ensures
        ({
            let w = net_step(v, NetEvent::DraftSaved { scratch_id, revision }).0;
            &&& w.composer.dirty == v.composer.dirty
            &&& w.composer.edited == v.composer.edited
            &&& w.composer.queue_conflict == v.composer.queue_conflict
            &&& w.composer.edit_revision == v.composer.edit_revision
            &&& w.composer.scratch_loaded == v.composer.scratch_loaded
            &&& w.selection == v.selection
            &&& w.notes == v.notes
            &&& w.queue == v.queue
            &&& Some(scratch_id) == (if v.selection.creating_new_session {
                v.selection.workspace_id
            } else {
                v.selection.session_id
            }) ==> !w.composer.draft_save_in_flight
        }),
{
}

/// After the selected workspace's sessions arrive, the selected session
/// is one of them (none when there are none), and a selected session that
/// is still there stays selected, with its processes.
pub proof fn lemma_sessions_keep_valid_selection(v: SyncView, workspace_id: u128, ids: Seq<u128>)
    requires
        Some(workspace_id) == v.selection.workspace_id,
    ensures
        ({
            let w = sessions_loaded(v, workspace_id, ids).0;
            &&& w.data.session_ids == ids
            &&& match w.selection.session_id {
                Some(s) => ids.contains(s),
                None => ids.len() == 0,
            }
            &&& (v.selection.session_id matches Some(s) && ids.contains(s)) ==> (
            w.selection == v.selection && w.data.processes == v.data.processes)
        }),
{
    if ids.len() > 0 {
        assert(ids.contains(ids[0]));
    }
}

/// After the selected session's processes arrive, the selected
/// process is one of them, or none.
pub proof fn lemma_processes_keep_valid_selection(v: SyncView, session_id: u128, ps: Seq<ProcessInfo>)
    requires
        Some(session_id) == v.selection.session_id,
    ensures
        match processes_updated(v, session_id, ps).0.selection.process_id {
            Some(p) => has_process(ps, p),
            None => true,
        },
{
    crate::model::process::lemma_latest_among(ps, ps.len() as int);
    match crate::model::process::latest_among(ps, ps.len() as int) {
        Some(i) => {
            assert(ps[i].id == active_process_id(ps)->0);
        },
        None => {},
    }
}

/// Summaries that all say what is already kept change nothing and do
/// not invalidate the workspace list.
pub proof fn lemma_identical_summaries_change_nothing(stored: Seq<WorkspaceSummary>, incoming: Seq<WorkspaceSummary>)
    requires
        forall|k: int|
            0 <= k < incoming.len() ==> ((#[trigger] summary_slot(stored, incoming[k].workspace_id, 0)) matches Some(
                i,
            ) && same_summary(stored[i], incoming[k])),
    ensures
        summaries_after(stored, incoming) == (stored, false),
    decreases incoming.len(),
{
    if incoming.len() > 0 {
        let rest = incoming.drop_last();
        assert forall|k: int| 0 <= k < rest.len() implies ((#[trigger] summary_slot(
            stored,
            rest[k].workspace_id,
            0,
        )) matches Some(i) && same_summary(stored[i], rest[k])) by {
            assert(rest[k] == incoming[k]);
        }
        lemma_identical_summaries_change_nothing(stored, rest);
        let _ = summary_slot(stored, incoming[incoming.len() - 1].workspace_id, 0);
    }
}

} // verus!
