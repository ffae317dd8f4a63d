//! Execution processes of a session, as the screen sees them, and which of
//! them is the active one.
use vstd::prelude::*;

verus! {

/// Where an execution process stands.
#[derive(Debug, Clone, Copy, PartialEq, Eq, Structural)]
pub enum ProcessStatus {
    Running,
    Completed,
    Failed,
    Killed,
}

/// What a process was started to do, with the prompt of those that carry
/// one.
#[derive(Debug, Clone)]
pub enum ProcessAction {
    CodingAgentInitialRequest(String),
    CodingAgentFollowUpRequest(String),
    ReviewRequest(String),
    ScriptRequest,
    /// An action record that could not be read.
    Unrecognized,
}

/// An execution process.
#[derive(Debug, Clone)]
pub struct ProcessInfo {
    pub id: u128,
    /// Creation time: whole seconds since the epoch, and nanoseconds.
    pub created_secs: i64,
    pub created_nanos: u32,
    /// Whether it runs the workspace's dev server.
    pub dev_server: bool,
    pub status: ProcessStatus,
    pub dropped: bool,
    pub action: ProcessAction,
}

impl ProcessAction {
    /// A copy of the action.
    pub fn clone_action(&self) -> (r: ProcessAction)
        ensures
            r == *self,
    {
        match self {
            ProcessAction::CodingAgentInitialRequest(s) => ProcessAction::CodingAgentInitialRequest(s.clone()),
            ProcessAction::CodingAgentFollowUpRequest(s) => ProcessAction::CodingAgentFollowUpRequest(s.clone()),
            ProcessAction::ReviewRequest(s) => ProcessAction::ReviewRequest(s.clone()),
            ProcessAction::ScriptRequest => ProcessAction::ScriptRequest,
            ProcessAction::Unrecognized => ProcessAction::Unrecognized,
        }
    }
}

impl ProcessInfo {
    /// A copy of the process record.
    pub fn clone_process(&self) -> (r: ProcessInfo)
        ensures
            r == *self,
    {
        ProcessInfo {
            id: self.id,
            created_secs: self.created_secs,
            created_nanos: self.created_nanos,
            dev_server: self.dev_server,
            status: self.status,
            dropped: self.dropped,
            action: self.action.clone_action(),
        }
    }
}

/// `a` was created no later than `b`.
pub open spec fn created_no_later(a: ProcessInfo, b: ProcessInfo) -> bool {
    a.created_secs < b.created_secs || (a.created_secs == b.created_secs && a.created_nanos
        <= b.created_nanos)
}

/// Among the first `n` processes, the index of the latest one that does not
/// run the dev server; of equally late ones, the last.
pub open spec fn latest_among(ps: Seq<ProcessInfo>, n: int) -> Option<int>
    decreases n,
{
    if n <= 0 {
        None
    } else {
        let prev = latest_among(ps, n - 1);
        if ps[n - 1].dev_server {
            prev
        } else {
            match prev {
                None => Some(n - 1),
                Some(j) => if created_no_later(ps[j], ps[n - 1]) {
                    Some(n - 1)
                } else {
                    Some(j)
                },
            }
        }
    }
}

/// The id of the active process: the latest one that does not run the dev
/// server.
pub open spec fn active_process_id(ps: Seq<ProcessInfo>) -> Option<u128> {
    match latest_among(ps, ps.len() as int) {
        Some(i) => Some(ps[i].id),
        None => None,
    }
}

pub proof fn lemma_latest_among(ps: Seq<ProcessInfo>, n: int)
    requires
        0 <= n <= ps.len(),
    ensures
        match latest_among(ps, n) {
            None => forall|k: int| 0 <= k < n ==> #[trigger] ps[k].dev_server,
            Some(i) => {
                &&& 0 <= i < n
                &&& !ps[i].dev_server
                &&& forall|k: int| 0 <= k < n && !ps[k].dev_server ==> created_no_later(#[trigger] ps[k], ps[i])
            },
        },
    decreases n,
{
    if n > 0 {
        lemma_latest_among(ps, n - 1);
    }
}

/// The id of the latest process that does not run the dev server, if any;
/// of equally late ones, the one that comes last.
pub fn active_process(processes: &[ProcessInfo]) -> (r: Option<u128>)
    ensures
        r == active_process_id(processes@),
{
    let mut best: Option<usize> = None;
    let mut i: usize = 0;
    while i < processes.len()
        invariant
            i <= processes@.len(),
            match best {
                Some(b) => latest_among(processes@, i as int) == Some(b as int),
                None => latest_among(processes@, i as int) is None,
            },
        decreases processes@.len() - i,
    {
        proof {
            lemma_latest_among(processes@, i as int);
        }
        let p = &processes[i];
        if !p.dev_server {
            best = match best {
                None => Some(i),
                Some(b) => {
                    let q = &processes[b];
                    if q.created_secs < p.created_secs || (q.created_secs == p.created_secs
                        && q.created_nanos <= p.created_nanos) {
                        Some(i)
                    } else {
                        Some(b)
                    }
                },
            };
        }
        i = i + 1;
    }
    proof {
        lemma_latest_among(processes@, processes@.len() as int);
    }
    match best {
        Some(b) => Some(processes[b].id),
        None => None,
    }
}

/// Whether any process is running.
pub open spec fn any_running(ps: Seq<ProcessInfo>) -> bool {
    exists|k: int| 0 <= k < ps.len() && #[trigger] ps[k].status == ProcessStatus::Running
}

/// Whether any of the processes is running.
pub fn has_running_process(processes: &[ProcessInfo]) -> (r: bool)
    ensures
        r == any_running(processes@),
{
    let mut i: usize = 0;
    while i < processes.len()
        invariant
            i <= processes@.len(),
            forall|k: int| 0 <= k < i ==> #[trigger] processes@[k].status != ProcessStatus::Running,
        decreases processes@.len() - i,
    {
        if processes[i].status == ProcessStatus::Running {
            return true;
        }
        i = i + 1;
    }
    false
}

/// Whether a process with this id is among the processes.
pub open spec fn has_process(ps: Seq<ProcessInfo>, id: u128) -> bool {
    exists|k: int| 0 <= k < ps.len() && #[trigger] ps[k].id == id
}

/// Whether a process with id `id` is among the processes.
pub fn contains_process(processes: &[ProcessInfo], id: u128) -> (r: bool)
    ensures
        r == has_process(processes@, id),
{
    let mut i: usize = 0;
    while i < processes.len()
        invariant
            i <= processes@.len(),
            forall|k: int| 0 <= k < i ==> #[trigger] processes@[k].id != id,
        decreases processes@.len() - i,
    {
        if processes[i].id == id {
            return true;
        }
        i = i + 1;
    }
    false
}

} // verus!
