//! Which processes' logs a conversation loads first, and the prompt a
//! process was started with.
use vstd::prelude::*;

use crate::model::process::{ProcessAction, ProcessInfo, ProcessStatus};
use crate::text::{chars_of, string_of, trim, trim_chars};

verus! {

/// Each process's log is assumed to hold about this many entries.
pub const ENTRIES_PER_PROCESS: usize = 4;

/// The first load aims for at least this many entries.
pub const MIN_INITIAL_ENTRIES: usize = 10;

/// The first process with id `id` from index `i` on.
pub open spec fn process_index_from(ps: Seq<ProcessInfo>, id: u128, i: int) -> Option<int>
    decreases ps.len() - i,
{
    if i < 0 || i >= ps.len() {
        None
    } else if ps[i].id == id {
        Some(i)
    } else {
        process_index_from(ps, id, i + 1)
    }
}

/// The process with id `id`, if there is one.
pub open spec fn process_index(ps: Seq<ProcessInfo>, id: u128) -> Option<int> {
    process_index_from(ps, id, 0)
}

/// Walking the order from its newest end, after looking at `n` ids: the
/// ids taken so far (newest first) and whether the walk has stopped. Ids of
/// unknown processes are passed over; each known one is taken, and the walk
/// stops once the estimate reaches the budget, except right after taking
/// a running newest process.
pub open spec fn recent_walk(order: Seq<u128>, ps: Seq<ProcessInfo>, n: int) -> (Seq<u128>, bool)
    decreases n,
{
    if n <= 0 {
        (Seq::empty(), false)
    } else {
        let (taken, stopped) = recent_walk(order, ps, n - 1);
        if stopped {
            (taken, true)
        } else {
            let id = order[order.len() - n];
            match process_index(ps, id) {
                None => (taken, false),
                Some(k) => {
                    let more = taken.push(id);
                    if ps[k].status == ProcessStatus::Running && more.len() == 1 {
                        (more, false)
                    } else {
                        (more, ENTRIES_PER_PROCESS * more.len() >= MIN_INITIAL_ENTRIES)
                    }
                },
            }
        }
    }
}

/// The processes to load first, oldest first.
pub open spec fn initial_ids(order: Seq<u128>, ps: Seq<ProcessInfo>) -> Seq<u128> {
    recent_walk(order, ps, order.len() as int).0.reverse()
}

proof fn lemma_recent_walk_small(order: Seq<u128>, ps: Seq<ProcessInfo>, n: int)
    requires
        0 <= n <= order.len(),
    ensures
        recent_walk(order, ps, n).0.len() <= 3,
        !recent_walk(order, ps, n).1 ==> recent_walk(order, ps, n).0.len() <= 2,
    decreases n,
{
    if n > 0 {
        lemma_recent_walk_small(order, ps, n - 1);
    }
}

/// Index of the process with id `id`.
pub(crate) fn find_process(ps: &[ProcessInfo], id: u128) -> (r: Option<usize>)
    ensures
        match r {
            Some(k) => process_index(ps@, id) == Some(k as int) && k < ps@.len(),
            None => process_index(ps@, id) is None,
        },
{
    let mut i: usize = 0;
    while i < ps.len()
        invariant
            i <= ps@.len(),
            process_index(ps@, id) == process_index_from(ps@, id, i as int),
        decreases ps@.len() - i,
    {
        if ps[i].id == id {
            return Some(i);
        }
        i = i + 1;
    }
    None
}

/// The processes whose logs a conversation loads first: from the newest
/// back, until about `MIN_INITIAL_ENTRIES` entries are expected (a running
/// newest process does not count toward the budget on its own); returned
/// oldest first. Ids without a known process are skipped.
pub fn initial_conversation_process_ids(process_order: &[u128], processes: &[ProcessInfo]) -> (r:
    Vec<u128>)
    ensures
        r@ == initial_ids(process_order@, processes@),
{
    let mut taken: Vec<u128> = Vec::new();
    let mut n: usize = 0;
    let len = process_order.len();
    let mut stopped = false;
    while n < len && !stopped
        invariant
            n <= len == process_order@.len(),
            (taken@, stopped) == recent_walk(process_order@, processes@, n as int),
        decreases len - n,
    {
        proof {
            lemma_recent_walk_small(process_order@, processes@, n as int);
        }
        let id = process_order[len - 1 - n];
        match find_process(processes, id) {
            None => {},
            Some(k) => {
                taken.push(id);
                if processes[k].status == ProcessStatus::Running && taken.len() == 1 {
                } else if 4 * taken.len() >= 10 {
                    stopped = true;
                }
            },
        }
        n = n + 1;
    }
    proof {
        if n < len {
            assert forall|m: int| n <= m <= len implies #[trigger] recent_walk(
                process_order@,
                processes@,
                m,
            ) == recent_walk(process_order@, processes@, n as int) by {
                lemma_walk_stays_stopped(process_order@, processes@, n as int, m);
            }
        }
    }
    let mut out: Vec<u128> = Vec::new();
    let mut i: usize = taken.len();
    while i > 0
        invariant
            i <= taken@.len(),
            out@ == taken@.subrange(i as int, taken@.len() as int).reverse(),
        decreases i,
    {
        i = i - 1;
        out.push(taken[i]);
        proof {
            assert(out@ =~= taken@.subrange(i as int, taken@.len() as int).reverse());
        }
    }
    proof {
        assert(taken@.subrange(0, taken@.len() as int) =~= taken@);
    }
    out
}

proof fn lemma_walk_stays_stopped(order: Seq<u128>, ps: Seq<ProcessInfo>, n: int, m: int)
    requires
        0 <= n <= m,
        recent_walk(order, ps, n).1,
    ensures
        recent_walk(order, ps, m) == recent_walk(order, ps, n),
    decreases m - n,
{
    if m > n {
        lemma_walk_stays_stopped(order, ps, n, m - 1);
    }
}

/// The prompt a process carries: the trimmed prompt of an agent request,
/// follow-up or review, unless it is blank.
pub open spec fn prompt_of(p: ProcessInfo) -> Option<Seq<char>> {
    let raw = match p.action {
        ProcessAction::CodingAgentInitialRequest(s) => Some(s@),
        ProcessAction::CodingAgentFollowUpRequest(s) => Some(s@),
        ProcessAction::ReviewRequest(s) => Some(s@),
        _ => None,
    };
    match raw {
        Some(s) => if trim(s).len() == 0 {
            None
        } else {
            Some(trim(s))
        },
        None => None,
    }
}

/// The prompt that started a process, trimmed; none for scripts and blank
/// prompts.
pub fn process_prompt(process: &ProcessInfo) -> (r: Option<String>)
    ensures
        match r {
            Some(s) => prompt_of(*process) == Some(s@),
            None => prompt_of(*process) is None,
        },
{
    let prompt = match &process.action {
        ProcessAction::CodingAgentInitialRequest(s) => s,
        ProcessAction::CodingAgentFollowUpRequest(s) => s,
        ProcessAction::ReviewRequest(s) => s,
        _ => {
            return None;
        },
    };
    let v = chars_of(prompt.as_str());
    let t = trim_chars(&v);
    if t.len() == 0 {
        None
    } else {
        Some(string_of(t.as_slice()))
    }
}

} // verus!
