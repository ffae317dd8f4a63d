//! When the composer's draft, the workspace notes and prompts go to the
//! backend: the decisions, and what each changes of the composer's state.
//! The requests themselves are made by the caller.
use vstd::prelude::*;

use crate::app::update::{
    current_queue_session, current_scratch, ActionsInFlight, ComposerSync, NotesSync, QueueSync,
    Selection,
};
use crate::editor::keys::EditorTarget;
use crate::text::{chars_of, string_of, trim, trim_chars};

verus! {

/// A draft is saved once the user has paused typing for this long.
pub const DRAFT_SAVE_DELAY_MS: u64 = 500;

/// Notes are saved once the user has paused typing for this long.
pub const NOTES_SAVE_DELAY_MS: u64 = 900;

/// Where the composer's draft is kept: the new session's workspace while
/// one is being started, else the selected session.
pub fn current_composer_scratch_id(sel: &Selection) -> (r: Option<u128>)
    ensures
        r == current_scratch(*sel),
{
    if sel.creating_new_session {
        sel.workspace_id
    } else {
        sel.session_id
    }
}

/// The session whose follow-up queue the composer uses: none while a new
/// session is being started.
pub fn current_queue_session_id(sel: &Selection) -> (r: Option<u128>)
    ensures
        r == current_queue_session(*sel),
{
    if sel.creating_new_session {
        None
    } else {
        sel.session_id
    }
}

/// What keeping the composer in step with the selection asks of the caller.
#[derive(Debug, Clone, Copy, PartialEq, Eq, Structural)]
pub struct ContextSync {
    /// The draft's scratch changed: empty the composer's text and follow the
    /// new scratch's draft.
    pub scratch_changed: bool,
    /// Load the queue status of this session.
    pub load_queue: Option<u128>,
    /// A shown queued follow-up was dropped: the chat's rendering is out of
    /// date.
    pub queue_cleared: bool,
}

/// The queue after following the selection: a new session starts with no
/// queue known; then a session's queue is being loaded, and without a
/// session there is none.
pub open spec fn synced_queue(q: QueueSync, session: Option<u128>) -> QueueSync {
    let q1 = if session != q.session_id {
        QueueSync { session_id: session, queued: false, pending: false }
    } else {
        q
    };
    if session is Some {
        QueueSync { pending: true, ..q1 }
    } else {
        QueueSync { queued: false, pending: false, ..q1 }
    }
}

/// Keeps the composer's draft and queue in step with the selection.
pub fn sync_composer_context(
    sel: &Selection,
    composer_scratch: &mut Option<u128>,
    composer: &mut ComposerSync,
    queue: &mut QueueSync,
) -> (r: ContextSync)
    ensures
        r.scratch_changed == (current_scratch(*sel) != *old(composer_scratch)),
        *final(composer_scratch) == current_scratch(*sel),
        *final(composer) == if r.scratch_changed {
            ComposerSync {
                scratch_loaded: current_scratch(*sel) is None,
                dirty: false,
                edited: false,
                draft_save_in_flight: false,
                queue_conflict: false,
                ..*old(composer)
            }
        } else {
            *old(composer)
        },
        *final(queue) == synced_queue(*old(queue), current_queue_session(*sel)),
        r.load_queue == current_queue_session(*sel),
        r.queue_cleared == (current_queue_session(*sel) is None && (if current_queue_session(*sel)
            != old(queue).session_id {
            false
        } else {
            old(queue).queued
        })),
{
    let scratch = current_composer_scratch_id(sel);
    let scratch_changed = scratch != *composer_scratch;
    if scratch_changed {
        *composer_scratch = scratch;
        composer.scratch_loaded = scratch.is_none();
        composer.dirty = false;
        composer.edited = false;
        composer.draft_save_in_flight = false;
        composer.queue_conflict = false;
    }
    let session = current_queue_session_id(sel);
    if session != queue.session_id {
        queue.session_id = session;
        queue.queued = false;
        queue.pending = false;
    }
    let queue_cleared = match session {
        Some(_) => {
            queue.pending = true;
            false
        },
        None => {
            let had_queue = queue.queued;
            queue.queued = false;
            queue.pending = false;
            had_queue
        },
    };
    ContextSync { scratch_changed, load_queue: session, queue_cleared }
}

/// What flushing the draft does: the new bookkeeping, whether anything
/// changed that the screen shows, and the scratch to save the draft to.
/// Without a scratch the bookkeeping is reset; otherwise a dirty draft
/// that is not being saved is saved once the user has paused typing
/// (`since_last_edit_ms` after the last edit), unless a follow-up is queued
/// (which marks a conflict) or no config is loaded.
pub open spec fn flush_step(
    s: ComposerSync,
    scratch: Option<u128>,
    since_last_edit_ms: u64,
    queue_present: bool,
    has_config: bool,
) -> (ComposerSync, bool, Option<u128>) {
    match scratch {
        None => (
            ComposerSync {
                dirty: false,
                draft_save_in_flight: false,
                edited: false,
                scratch_loaded: true,
                ..s
            },
            s.dirty || s.draft_save_in_flight || s.edited || !s.scratch_loaded,
            None,
        ),
        Some(id) => if !s.dirty || s.draft_save_in_flight || !s.edited || since_last_edit_ms
            < DRAFT_SAVE_DELAY_MS {
            (s, false, None)
        } else if queue_present {
            (ComposerSync { queue_conflict: true, ..s }, !s.queue_conflict, None)
        } else if !has_config {
            (s, false, None)
        } else {
            (ComposerSync { draft_save_in_flight: true, ..s }, true, Some(id))
        },
    }
}

impl ComposerSync {
    /// Flushes the draft: returns whether anything shown changed, and the
    /// scratch to save the draft to, if it is to be saved now.
    pub fn flush_draft_if_needed(
        &mut self,
        scratch: Option<u128>,
        since_last_edit_ms: u64,
        queue_present: bool,
        has_config: bool,
    ) -> (r: (bool, Option<u128>))
        ensures
            (*final(self), r.0, r.1) == flush_step(
                *old(self),
                scratch,
                since_last_edit_ms,
                queue_present,
                has_config,
            ),
    {
        let id = match scratch {
            None => {
                let changed = self.dirty || self.draft_save_in_flight || self.edited
                    || !self.scratch_loaded;
                self.dirty = false;
                self.draft_save_in_flight = false;
                self.edited = false;
                self.scratch_loaded = true;
                return (changed, None);
            },
            Some(id) => id,
        };
        if !self.dirty || self.draft_save_in_flight || !self.edited || since_last_edit_ms
            < DRAFT_SAVE_DELAY_MS {
            return (false, None);
        }
        if queue_present {
            let changed = !self.queue_conflict;
            self.queue_conflict = true;
            return (changed, None);
        }
        if !has_config {
            return (false, None);
        }
        self.draft_save_in_flight = true;
        (true, Some(id))
    }
}

/// Right after a flush, flushing again under the same conditions
/// changes nothing and saves nothing.
pub proof fn lemma_flush_settles(
    s: ComposerSync,
    scratch: Option<u128>,
    since_last_edit_ms: u64,
    queue_present: bool,
    has_config: bool,
)
    ensures
        ({
            let s1 = flush_step(s, scratch, since_last_edit_ms, queue_present, has_config).0;
            flush_step(s1, scratch, since_last_edit_ms, queue_present, has_config) == (s1, false, None::<u128>)
        }),
{
}

impl NotesSync {
    /// Whether to save the notes of `workspace` now: they are dirty, not
    /// being saved, and the user has paused typing (`since_last_edit_ms`
    /// after the last edit). Saving marks them in flight.
    pub fn flush_notes_if_needed(&mut self, workspace: Option<u128>, since_last_edit_ms: u64) -> (r: bool)
        ensures
            r == (workspace is Some && old(self).dirty && !old(self).save_in_flight && old(self).edited
                && since_last_edit_ms >= NOTES_SAVE_DELAY_MS),
            final(self).save_in_flight == (old(self).save_in_flight || r),
            final(self).text@ == old(self).text@,
            final(self).cursor == old(self).cursor,
            final(self).dirty == old(self).dirty,
            final(self).edited == old(self).edited,
            final(self).edit_revision == old(self).edit_revision,
    {
        if workspace.is_none() || !self.dirty || self.save_in_flight || !self.edited
            || since_last_edit_ms < NOTES_SAVE_DELAY_MS {
            return false;
        }
        self.save_in_flight = true;
        true
    }
}

fn trimmed(s: &str) -> (r: String)
    ensures
        r@ == trim(s@),
{
    string_of(trim_chars(&chars_of(s)).as_slice())
}

/// What sending the composer's prompt leads to.
#[derive(Debug, Clone, PartialEq, Eq)]
pub enum SubmitPlan {
    /// The new-workspace form is open: create the workspace instead.
    CreateWorkspace,
    /// "No workspace selected".
    NoWorkspace,
    /// "Prompt submission already in progress".
    Busy,
    /// The prompt is blank: nothing happens.
    Blank,
    /// A process of the session is running: queue the prompt instead.
    Queue,
    /// "Composer config is still loading".
    ConfigLoading,
    /// Send `prompt` to the workspace ("Sending prompt"). `workspace_scope`
    /// is the workspace when a new session is being started in it.
    Send { workspace_id: u128, prompt: String, workspace_scope: Option<u128> },
}

/// Decides what sending the prompt (the composer's text with its pastes
/// expanded) does, in this order: the new-workspace form, no workspace, a
/// submission in flight, a blank prompt, a running process of an existing
/// session, no config; else the trimmed prompt is sent and the submission
/// is marked in flight.
pub fn plan_submit_prompt(
    actions: &mut ActionsInFlight,
    creating_workspace: bool,
    selected_workspace_id: Option<u128>,
    expanded: &str,
    running_process: bool,
    creating_new_session: bool,
    has_config: bool,
) -> (r: SubmitPlan)
    ensures
        creating_workspace ==> r == SubmitPlan::CreateWorkspace,
        !creating_workspace && selected_workspace_id is None ==> r == SubmitPlan::NoWorkspace,
        !creating_workspace && selected_workspace_id is Some && old(actions).prompt_submit ==> r
            == SubmitPlan::Busy,
        !creating_workspace && selected_workspace_id is Some && !old(actions).prompt_submit && trim(
            expanded@,
        ).len() == 0 ==> r == SubmitPlan::Blank,
        !creating_workspace && selected_workspace_id is Some && !old(actions).prompt_submit && trim(
            expanded@,
        ).len() > 0 && running_process && !creating_new_session ==> r == SubmitPlan::Queue,
        !creating_workspace && selected_workspace_id is Some && !old(actions).prompt_submit && trim(
            expanded@,
        ).len() > 0 && !(running_process && !creating_new_session) && !has_config ==> r
            == SubmitPlan::ConfigLoading,
        !creating_workspace && selected_workspace_id is Some && !old(actions).prompt_submit && trim(
            expanded@,
        ).len() > 0 && !(running_process && !creating_new_session) && has_config ==> (r matches SubmitPlan::Send {
            workspace_id,
            prompt,
            workspace_scope,
        } && workspace_id == selected_workspace_id->0 && prompt@ == trim(expanded@) && workspace_scope
            == if creating_new_session {
            selected_workspace_id
        } else {
            None
        }),
        *final(actions) == if r is Send {
            ActionsInFlight { prompt_submit: true, ..*old(actions) }
        } else {
            *old(actions)
        },
{
    if creating_workspace {
        return SubmitPlan::CreateWorkspace;
    }
    let workspace_id = match selected_workspace_id {
        None => {
            return SubmitPlan::NoWorkspace;
        },
        Some(w) => w,
    };
    if actions.prompt_submit {
        return SubmitPlan::Busy;
    }
    let prompt = trimmed(expanded);
    if chars_of(prompt.as_str()).len() == 0 {
        return SubmitPlan::Blank;
    }
    if running_process && !creating_new_session {
        return SubmitPlan::Queue;
    }
    if !has_config {
        return SubmitPlan::ConfigLoading;
    }
    actions.prompt_submit = true;
    let workspace_scope = if creating_new_session {
        Some(workspace_id)
    } else {
        None
    };
    SubmitPlan::Send { workspace_id, prompt, workspace_scope }
}

/// What queueing the composer's prompt leads to.
#[derive(Debug, Clone, PartialEq, Eq)]
pub enum QueuePlan {
    /// "Queue action already in progress".
    Busy,
    /// "Queueing is only available for an existing session".
    NoSession,
    /// "Composer is empty".
    Empty,
    /// "Composer config is still loading".
    ConfigLoading,
    /// Queue `prompt` as the session's follow-up ("Queueing follow-up"). The
    /// draft is saved to `scratch_id` first and deleted once queued.
    Queue { session_id: u128, prompt: String, scratch_id: Option<u128> },
}

/// Decides what queueing the prompt does, in this order: a queue action in
/// flight, no session, a blank composer, no config; else the trimmed text
/// is queued and the queue action is marked in flight.
pub fn plan_queue_prompt(
    actions: &mut ActionsInFlight,
    queue_session_id: Option<u128>,
    composer: &str,
    has_config: bool,
    scratch_id: Option<u128>,
) -> (r: QueuePlan)
    ensures
        old(actions).queue_mutation ==> r == QueuePlan::Busy,
        !old(actions).queue_mutation && queue_session_id is None ==> r == QueuePlan::NoSession,
        !old(actions).queue_mutation && queue_session_id is Some && trim(composer@).len() == 0 ==> r
            == QueuePlan::Empty,
        !old(actions).queue_mutation && queue_session_id is Some && trim(composer@).len() > 0
            && !has_config ==> r == QueuePlan::ConfigLoading,
        !old(actions).queue_mutation && queue_session_id is Some && trim(composer@).len() > 0
            && has_config ==> (r matches QueuePlan::Queue { session_id, prompt, scratch_id: s }
            && session_id == queue_session_id->0 && prompt@ == trim(composer@) && s == scratch_id),
        *final(actions) == if r is Queue {
            ActionsInFlight { queue_mutation: true, ..*old(actions) }
        } else {
            *old(actions)
        },
{
    if actions.queue_mutation {
        return QueuePlan::Busy;
    }
    let session_id = match queue_session_id {
        None => {
            return QueuePlan::NoSession;
        },
        Some(s) => s,
    };
    let prompt = trimmed(composer);
    if chars_of(prompt.as_str()).len() == 0 {
        return QueuePlan::Empty;
    }
    if !has_config {
        return QueuePlan::ConfigLoading;
    }
    actions.queue_mutation = true;
    QueuePlan::Queue { session_id, prompt, scratch_id }
}

/// What cancelling the queued follow-up leads to.
#[derive(Debug, Clone, Copy, PartialEq, Eq, Structural)]
pub enum CancelPlan {
    /// "Queue action already in progress".
    Busy,
    /// "No session queue to cancel".
    NoSession,
    /// Cancel the session's queued follow-up ("Cancelling queued
    /// follow-up").
    Cancel { session_id: u128 },
}

/// Decides what cancelling the queued follow-up does; a cancel marks the
/// queue action in flight.
pub fn plan_cancel_queued_prompt(actions: &mut ActionsInFlight, queue_session_id: Option<u128>) -> (r: CancelPlan)
    ensures
        r == if old(actions).queue_mutation {
            CancelPlan::Busy
        } else {
            match queue_session_id {
                None => CancelPlan::NoSession,
                Some(s) => CancelPlan::Cancel { session_id: s },
            }
        },
        *final(actions) == if r is Cancel {
            ActionsInFlight { queue_mutation: true, ..*old(actions) }
        } else {
            *old(actions)
        },
{
    if actions.queue_mutation {
        return CancelPlan::Busy;
    }
    match queue_session_id {
        None => CancelPlan::NoSession,
        Some(s) => {
            actions.queue_mutation = true;
            CancelPlan::Cancel { session_id: s }
        },
    }
}

/// What discarding the draft leads to.
#[derive(Debug, Clone, Copy, PartialEq, Eq, Structural)]
pub enum DiscardPlan {
    /// "Queue action already in progress": nothing is discarded.
    Busy,
    /// The composer is emptied; there is no stored draft to delete.
    Cleared,
    /// The composer is emptied and the stored draft is deleted
    /// ("Discarding follow-up draft").
    Delete { scratch_id: u128 },
}

/// Decides what discarding the draft does. Unless a queue action is in
/// flight, the composer is emptied and its draft bookkeeping reset; with a
/// scratch, its stored draft is deleted and the queue action marked in
/// flight.
pub fn plan_discard_draft(actions: &mut ActionsInFlight, composer: &mut ComposerSync, scratch_id: Option<u128>) -> (r: DiscardPlan)
    ensures
        r == if old(actions).queue_mutation {
            DiscardPlan::Busy
        } else {
            match scratch_id {
                None => DiscardPlan::Cleared,
                Some(s) => DiscardPlan::Delete { scratch_id: s },
            }
        },
        *final(actions) == if r is Delete {
            ActionsInFlight { queue_mutation: true, ..*old(actions) }
        } else {
            *old(actions)
        },
        *final(composer) == if r is Busy {
            *old(composer)
        } else {
            ComposerSync { dirty: false, edited: false, queue_conflict: false, ..*old(composer) }
        },
{
    if actions.queue_mutation {
        return DiscardPlan::Busy;
    }
    composer.dirty = false;
    composer.edited = false;
    composer.queue_conflict = false;
    match scratch_id {
        None => DiscardPlan::Cleared,
        Some(s) => {
            actions.queue_mutation = true;
            DiscardPlan::Delete { scratch_id: s }
        },
    }
}

/// Records an edit in the composer or the notes: they become dirty with
/// an edit waiting to be saved, and their edit revision counts up
/// (saturating). The rename field keeps no such record.
pub fn mark_editor_dirty(target: EditorTarget, composer: &mut ComposerSync, notes: &mut NotesSync)
    ensures
        *final(composer) == if target == EditorTarget::Composer {
            ComposerSync {
                dirty: true,
                edited: true,
                edit_revision: if old(composer).edit_revision < u64::MAX {
                    (old(composer).edit_revision + 1) as u64
                } else {
                    u64::MAX
                },
                ..*old(composer)
            }
        } else {
            *old(composer)
        },
        target == EditorTarget::Notes ==> final(notes).dirty && final(notes).edited
            && final(notes).edit_revision == (if old(notes).edit_revision < u64::MAX {
            (old(notes).edit_revision + 1) as u64
        } else {
            u64::MAX
        }),
        target != EditorTarget::Notes ==> final(notes).dirty == old(notes).dirty && final(notes).edited
            == old(notes).edited && final(notes).edit_revision == old(notes).edit_revision,
        final(notes).text@ == old(notes).text@,
        final(notes).cursor == old(notes).cursor,
        final(notes).save_in_flight == old(notes).save_in_flight,
{
    match target {
        EditorTarget::Composer => {
            composer.dirty = true;
            composer.edited = true;
            composer.edit_revision = composer.edit_revision.saturating_add(1);
        },
        EditorTarget::Notes => {
            notes.dirty = true;
            notes.edited = true;
            notes.edit_revision = notes.edit_revision.saturating_add(1);
        },
        EditorTarget::SessionRename => {},
    }
}

} // verus!
