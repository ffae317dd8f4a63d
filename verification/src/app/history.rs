//! Keeping the conversation in step with the selected session's processes:
//! which processes it shows, and which logs to load first.
use vstd::prelude::*;

use crate::app::update::{ConversationSync, ConversationView, SyncState, SyncView};
use crate::conversation::state::OptimisticEntries;
use crate::conversation::history::{initial_conversation_process_ids, initial_ids};
use crate::conversation::order::{conversation_order, conversation_order_of};

verus! {

/// What the program does to the conversation's logs after a refresh.
#[derive(Debug, Clone)]
pub enum ConversationPlan {
    /// No session is selected: all logs are dropped.
    Cleared,
    /// The conversation is complete: nothing to do.
    Unchanged,
    /// Stop the loader and keep only the logs of the conversation's
    /// processes; there are none to load.
    Emptied,
    /// Stop the loader, keep only the logs of the conversation's processes,
    /// then load the logs of `recent` and after them those of `remaining`
    /// (each list oldest first; the loader takes them newest first).
    Reload { recent: Vec<u128>, remaining: Vec<u128> },
}

/// The ids of `a` that are in `keep`, in order.
pub open spec fn kept_ids(a: Seq<u128>, keep: Seq<u128>) -> Seq<u128>
    decreases a.len(),
{
    if a.len() == 0 {
        Seq::empty()
    } else if keep.contains(a.last()) {
        kept_ids(a.drop_last(), keep).push(a.last())
    } else {
        kept_ids(a.drop_last(), keep)
    }
}

/// The ids of `a` that are not in `drop`, in order.
pub open spec fn other_ids(a: Seq<u128>, drop: Seq<u128>) -> Seq<u128>
    decreases a.len(),
{
    if a.len() == 0 {
        Seq::empty()
    } else if drop.contains(a.last()) {
        other_ids(a.drop_last(), drop)
    } else {
        other_ids(a.drop_last(), drop).push(a.last())
    }
}

/// The conversation already shows these processes and holds all their logs.
pub open spec fn conversation_complete(v: SyncView, order: Seq<u128>) -> bool {
    order == v.conversation.order && forall|k: int|
        0 <= k < order.len() ==> v.conversation.loaded.contains(#[trigger] order[k])
}

/// The conversation after a refresh: empty with no session selected;
/// unchanged while it is complete; otherwise the new order, with the logs
/// of the processes that stay, bootstrapping when there is anything to load.
pub open spec fn refreshed(v: SyncView) -> ConversationView {
    match v.selection.session_id {
        None => ConversationView {
            order: Seq::empty(),
            loaded: Seq::empty(),
            bootstrapping: false,
            backfilling: false,
        },
        Some(_) => {
            let order = conversation_order_of(v.data.processes);
            if conversation_complete(v, order) {
                v.conversation
            } else {
                ConversationView {
                    order: order,
                    loaded: kept_ids(v.conversation.loaded, order),
                    bootstrapping: order.len() > 0,
                    backfilling: false,
                }
            }
        },
    }
}

fn has_id(ids: &Vec<u128>, id: u128) -> (r: bool)
    ensures
        r == ids@.contains(id),
{
    let mut i: usize = 0;
    while i < ids.len()
        invariant
            i <= ids@.len(),
            forall|k: int| 0 <= k < i ==> ids@[k] != id,
        decreases ids@.len() - i,
    {
        if ids[i] == id {
            return true;
        }
        i = i + 1;
    }
    false
}

/// The ids of `a` in `keep` (or, with `keep_them` false, not in it).
fn filter_ids(a: &Vec<u128>, keep: &Vec<u128>, keep_them: bool) -> (r: Vec<u128>)
    ensures
        r@ == if keep_them {
            kept_ids(a@, keep@)
        } else {
            other_ids(a@, keep@)
        },
{
    let mut r: Vec<u128> = Vec::new();
    let mut i: usize = 0;
    while i < a.len()
        invariant
            i <= a@.len(),
            r@ == if keep_them {
                kept_ids(a@.take(i as int), keep@)
            } else {
                other_ids(a@.take(i as int), keep@)
            },
        decreases a@.len() - i,
    {
        proof {
            assert(a@.take(i + 1).drop_last() =~= a@.take(i as int));
        }
        if has_id(keep, a[i]) == keep_them {
            r.push(a[i]);
        }
        i = i + 1;
    }
    proof {
        assert(a@.take(a@.len() as int) =~= a@);
    }
    r
}

/// Brings the conversation in step with the selected session's processes,
/// and says what to do with its logs.
pub fn refresh_conversation_history(state: &mut SyncState) -> (r: ConversationPlan)
    ensures
        final(state)@ == (SyncView { conversation: refreshed(old(state)@), ..old(state)@ }),
        match r {
            ConversationPlan::Cleared => old(state).selection.session_id is None,
            ConversationPlan::Unchanged => old(state).selection.session_id is Some
                && conversation_complete(old(state)@, conversation_order_of(old(state)@.data.processes)),
            ConversationPlan::Emptied => old(state).selection.session_id is Some
                && !conversation_complete(old(state)@, conversation_order_of(old(state)@.data.processes))
                && conversation_order_of(old(state)@.data.processes).len() == 0,
            ConversationPlan::Reload { recent, remaining } => {
                let order = conversation_order_of(old(state)@.data.processes);
                &&& old(state).selection.session_id is Some
                &&& !conversation_complete(old(state)@, order)
                &&& order.len() > 0
                &&& recent@ == initial_ids(order, old(state)@.data.processes)
                &&& remaining@ == other_ids(order, recent@)
            },
        },
{
    if state.selection.session_id.is_none() {
        state.conversation.order = Vec::new();
        state.conversation.loaded = Vec::new();
        state.conversation.bootstrapping = false;
        state.conversation.backfilling = false;
        return ConversationPlan::Cleared;
    }
    let order = conversation_order(state.data.processes.as_slice());
    let mut same = order.len() == state.conversation.order.len();
    let mut i: usize = 0;
    while same && i < order.len()
        invariant
            i <= order@.len(),
            same ==> order@.len() == state.conversation.order@.len(),
            same ==> forall|k: int|
                0 <= k < i ==> order@[k] == state.conversation.order@[k]
                    && state.conversation.loaded@.contains(#[trigger] order@[k]),
            !same ==> !conversation_complete(state@, order@),
        decreases order@.len() - i,
    {
        if order[i] != state.conversation.order[i] || !has_id(&state.conversation.loaded, order[i]) {
            same = false;
        }
        i = i + 1;
    }
    if same {
        proof {
            assert(order@ =~= state.conversation.order@);
        }
        return ConversationPlan::Unchanged;
    }
    let kept = filter_ids(&state.conversation.loaded, &order, true);
    let empty = order.len() == 0;
    let recent = if empty {
        Vec::new()
    } else {
        initial_conversation_process_ids(order.as_slice(), state.data.processes.as_slice())
    };
    let remaining = filter_ids(&order, &recent, false);
    state.conversation.loaded = kept;
    state.conversation.bootstrapping = !empty;
    state.conversation.backfilling = false;
    state.conversation.order = order;
    if empty {
        ConversationPlan::Emptied
    } else {
        ConversationPlan::Reload { recent, remaining }
    }
}

/// Forgets the conversation: its processes, which logs came in, the
/// loading flags and the prompts shown ahead of the backend. The chat must
/// then be drawn anew.
pub fn reset_conversation_state(conversation: &mut ConversationSync, optimistic: &mut OptimisticEntries)
    ensures
        final(conversation).order@.len() == 0,
        final(conversation).loaded@.len() == 0,
        !final(conversation).bootstrapping,
        !final(conversation).backfilling,
        final(optimistic).entries@.len() == 0,
        final(optimistic).cache_dirty,
{
    conversation.order = Vec::new();
    conversation.loaded = Vec::new();
    conversation.bootstrapping = false;
    conversation.backfilling = false;
    optimistic.clear();
}

} // verus!
