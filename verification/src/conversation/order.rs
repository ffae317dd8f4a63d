//! The order of a conversation's processes: those that are neither dropped
//! nor running the dev server, oldest first (processes created at the same
//! moment keep the order they were listed in).
use vstd::prelude::*;

use crate::model::process::{created_no_later, ProcessInfo};

verus! {

/// Whether a process takes part in the conversation.
pub open spec fn in_conversation(p: ProcessInfo) -> bool {
    !p.dropped && !p.dev_server
}

/// The processes that take part in the conversation, in their order.
pub open spec fn conversation_members(ps: Seq<ProcessInfo>) -> Seq<ProcessInfo>
    decreases ps.len(),
{
    if ps.len() == 0 {
        Seq::empty()
    } else if in_conversation(ps.last()) {
        conversation_members(ps.drop_last()).push(ps.last())
    } else {
        conversation_members(ps.drop_last())
    }
}

/// `p` put into the sorted `sorted` after every process created no later
/// than it.
pub open spec fn insert_by_created(sorted: Seq<ProcessInfo>, p: ProcessInfo) -> Seq<ProcessInfo>
    decreases sorted.len(),
{
    if sorted.len() == 0 {
        seq![p]
    } else if created_no_later(sorted.last(), p) {
        sorted.push(p)
    } else {
        insert_by_created(sorted.drop_last(), p).push(sorted.last())
    }
}

/// `ps` sorted by creation time, stably (by insertion).
pub open spec fn sort_by_created(ps: Seq<ProcessInfo>) -> Seq<ProcessInfo>
    decreases ps.len(),
{
    if ps.len() == 0 {
        Seq::empty()
    } else {
        insert_by_created(sort_by_created(ps.drop_last()), ps.last())
    }
}

/// The ids of the processes, in order.
pub open spec fn ids_of(ps: Seq<ProcessInfo>) -> Seq<u128> {
    ps.map_values(|p: ProcessInfo| p.id)
}

/// The conversation's processes, oldest first.
pub open spec fn conversation_order_of(ps: Seq<ProcessInfo>) -> Seq<u128> {
    ids_of(sort_by_created(conversation_members(ps)))
}

/// Sorted by creation time.
pub open spec fn sorted_by_created(s: Seq<ProcessInfo>) -> bool {
    forall|i: int, j: int| 0 <= i < j < s.len() ==> created_no_later(#[trigger] s[i], #[trigger] s[j])
}

/// Where scanning `sorted` from its end stops for `p`: just after the last
/// process created no later than `p`.
pub open spec fn insert_position(sorted: Seq<ProcessInfo>, p: ProcessInfo) -> int
    decreases sorted.len(),
{
    if sorted.len() == 0 {
        0
    } else if created_no_later(sorted.last(), p) {
        sorted.len() as int
    } else {
        insert_position(sorted.drop_last(), p)
    }
}

pub proof fn lemma_insert_at_position(sorted: Seq<ProcessInfo>, p: ProcessInfo)
    ensures
        0 <= insert_position(sorted, p) <= sorted.len(),
        insert_by_created(sorted, p) == sorted.take(insert_position(sorted, p)) + seq![p]
            + sorted.skip(insert_position(sorted, p)),
    decreases sorted.len(),
{
    if sorted.len() == 0 {
        assert(sorted.take(0) + seq![p] + sorted.skip(0) =~= seq![p]);
    } else if created_no_later(sorted.last(), p) {
        assert(sorted.take(sorted.len() as int) + seq![p] + sorted.skip(sorted.len() as int)
            =~= sorted.push(p));
    } else {
        let d = sorted.drop_last();
        lemma_insert_at_position(d, p);
        let k = insert_position(d, p);
        assert(d.take(k) + seq![p] + d.skip(k) + seq![sorted.last()] =~= sorted.take(k) + seq![p]
            + sorted.skip(k));
    }
}

/// Insertion keeps a sorted sequence sorted.
pub proof fn lemma_insert_keeps_sorted(sorted: Seq<ProcessInfo>, p: ProcessInfo)
    requires
        sorted_by_created(sorted),
    ensures
        sorted_by_created(insert_by_created(sorted, p)),
        insert_by_created(sorted, p).len() == sorted.len() + 1,
    decreases sorted.len(),
{
    if sorted.len() > 0 {
        let d = sorted.drop_last();
        assert(sorted_by_created(d)) by {
            assert forall|i: int, j: int| 0 <= i < j < d.len() implies created_no_later(
                #[trigger] d[i],
                #[trigger] d[j],
            ) by {
                assert(d[i] == sorted[i] && d[j] == sorted[j]);
            }
        }
        if !created_no_later(sorted.last(), p) {
            lemma_insert_keeps_sorted(d, p);
            lemma_insert_at_position(d, p);
            let r = insert_by_created(d, p);
            let s = r.push(sorted.last());
            assert forall|i: int, j: int| 0 <= i < j < s.len() implies created_no_later(
                #[trigger] s[i],
                #[trigger] s[j],
            ) by {
                if j == s.len() - 1 {
                    let k = insert_position(d, p);
                    if i < k {
                        assert(s[i] == sorted[i]);
                        assert(sorted[i] == sorted[i]);
                        assert(created_no_later(sorted[i], sorted[sorted.len() - 1]));
                    } else if i == k {
                        assert(s[i] == p);
                    } else {
                        assert(s[i] == sorted[i - 1]);
                        assert(created_no_later(sorted[i - 1], sorted[sorted.len() - 1]));
                    }
                }
            }
        }
    }
}

/// The conversation order lists processes oldest first.
pub proof fn lemma_sorted_by_created(ps: Seq<ProcessInfo>)
    ensures
        sorted_by_created(sort_by_created(ps)),
        sort_by_created(ps).len() == ps.len(),
    decreases ps.len(),
{
    if ps.len() > 0 {
        lemma_sorted_by_created(ps.drop_last());
        lemma_insert_keeps_sorted(sort_by_created(ps.drop_last()), ps.last());
    }
}

/// The processes that take part in the conversation.
fn members(ps: &[ProcessInfo]) -> (r: Vec<ProcessInfo>)
    ensures
        r@ == conversation_members(ps@),
{
    let mut r: Vec<ProcessInfo> = Vec::new();
    let mut i: usize = 0;
    while i < ps.len()
        invariant
            i <= ps@.len(),
            r@ == conversation_members(ps@.take(i as int)),
        decreases ps@.len() - i,
    {
        proof {
            assert(ps@.take(i + 1).drop_last() =~= ps@.take(i as int));
        }
        if !ps[i].dropped && !ps[i].dev_server {
            r.push(ps[i].clone_process());
        }
        i = i + 1;
    }
    proof {
        assert(ps@.take(ps@.len() as int) =~= ps@);
    }
    r
}

/// `ps` sorted by creation time, stably.
fn sort_processes(ps: Vec<ProcessInfo>) -> (r: Vec<ProcessInfo>)
    ensures
        r@ == sort_by_created(ps@),
{
    let mut sorted: Vec<ProcessInfo> = Vec::new();
    let mut i: usize = 0;
    while i < ps.len()
        invariant
            i <= ps@.len(),
            sorted@ == sort_by_created(ps@.take(i as int)),
        decreases ps@.len() - i,
    {
        proof {
            assert(ps@.take(i + 1).drop_last() =~= ps@.take(i as int));
        }
        let p = ps[i].clone_process();
        let mut j: usize = sorted.len();
        proof {
            assert(sorted@.take(j as int) =~= sorted@);
        }
        while j > 0 && !(sorted[j - 1].created_secs < p.created_secs || (sorted[j - 1].created_secs
            == p.created_secs && sorted[j - 1].created_nanos <= p.created_nanos))
            invariant
                j <= sorted@.len(),
                insert_position(sorted@, p) == insert_position(sorted@.take(j as int), p),
            decreases j,
        {
            proof {
                assert(sorted@.take(j as int).drop_last() =~= sorted@.take(j - 1));
            }
            j = j - 1;
        }
        proof {
            lemma_insert_at_position(sorted@, p);
            assert(insert_position(sorted@, p) == j);
        }
        sorted.insert(j, p);
        proof {
            assert(sorted@ =~= sort_by_created(ps@.take(i + 1)));
        }
        i = i + 1;
    }
    proof {
        assert(ps@.take(ps@.len() as int) =~= ps@);
    }
    sorted
}

/// The ids of the conversation's processes, oldest first.
pub fn conversation_order(processes: &[ProcessInfo]) -> (r: Vec<u128>)
    ensures
        r@ == conversation_order_of(processes@),
{
    let sorted = sort_processes(members(processes));
    let mut ids: Vec<u128> = Vec::new();
    let mut i: usize = 0;
    while i < sorted.len()
        invariant
            i <= sorted@.len(),
            ids@ == ids_of(sorted@.take(i as int)),
        decreases sorted@.len() - i,
    {
        ids.push(sorted[i].id);
        i = i + 1;
        proof {
            assert(ids@ =~= ids_of(sorted@.take(i as int)));
        }
    }
    proof {
        assert(sorted@.take(sorted@.len() as int) =~= sorted@);
    }
    ids
}

} // verus!
