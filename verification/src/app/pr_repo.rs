//! The Git pane's repository and its pull requests: which repository is
//! selected, its pull request, opening the creation form, submitting it,
//! and recording a pull request that was created or attached.
use vstd::prelude::*;

use crate::app::pr::{PrCreateField, PrCreateState};
use crate::model::domain::{Focus, Pane};
use crate::model::dto::{BranchStatus, Merge, MergeStatus, PrMerge, PullRequestInfo, RepoBranchStatus, WorkspaceSummary};
use crate::text::{
    byte_len, chars_of, contains, contains_chars, push_signed, push_str, signed_decimal, str_len,
    string_of, trim, trim_chars,
};

verus! {

/// A repository of the workspace, with the branch its pull requests target.
#[derive(Debug, Clone, PartialEq, Eq)]
pub struct RepoRef {
    pub id: u128,
    pub display_name: String,
    pub target_branch: String,
}

/// The selected index kept within `len` items (none when there are none).
pub open spec fn clamped_index(selected: usize, len: nat) -> Option<int> {
    if len == 0 {
        None
    } else if selected < len {
        Some(selected as int)
    } else {
        Some(len - 1)
    }
}

fn clamp_index(selected: usize, len: usize) -> (r: Option<usize>)
    ensures
        match clamped_index(selected, len as nat) {
            Some(k) => r == Some(k as usize),
            None => r is None,
        },
{
    if len == 0 {
        None
    } else if selected < len {
        Some(selected)
    } else {
        Some(len - 1)
    }
}

/// The selected repository's id: from the Git statuses, else from the
/// workspace's repositories, at the selected index.
pub open spec fn selected_repo_id(statuses: Seq<RepoBranchStatus>, repos: Seq<RepoRef>, selected: usize) -> Option<u128> {
    match clamped_index(selected, statuses.len()) {
        Some(k) => Some(statuses[k].repo_id),
        None => match clamped_index(selected, repos.len()) {
            Some(k) => Some(repos[k].id),
            None => None,
        },
    }
}

/// The selected repository's id.
pub fn current_git_repo_id(statuses: &Vec<RepoBranchStatus>, repos: &Vec<RepoRef>, selected: usize) -> (r: Option<u128>)
    ensures
        r == selected_repo_id(statuses@, repos@, selected),
{
    match clamp_index(selected, statuses.len()) {
        Some(k) => Some(statuses[k].repo_id),
        None => match clamp_index(selected, repos.len()) {
            Some(k) => Some(repos[k].id),
            None => None,
        },
    }
}

/// The first pull request among `merges` from index `i` on (an open one
/// only, with `open_only`).
pub open spec fn pr_index(merges: Seq<Merge>, open_only: bool, i: int) -> Option<int>
    decreases merges.len() - i,
{
    if i < 0 || i >= merges.len() {
        None
    } else if (match merges[i] {
        Merge::Pr(p) => !open_only || p.pr_info.status == MergeStatus::Open,
        Merge::Direct => false,
    }) {
        Some(i)
    } else {
        pr_index(merges, open_only, i + 1)
    }
}

/// The selected repository's first (open, with `open_only`) pull request.
pub open spec fn selected_pr(statuses: Seq<RepoBranchStatus>, selected: usize, open_only: bool) -> Option<PullRequestInfo> {
    match clamped_index(selected, statuses.len()) {
        Some(k) => match pr_index(statuses[k].status.merges@, open_only, 0) {
            Some(j) => match statuses[k].status.merges@[j] {
                Merge::Pr(p) => Some(p.pr_info),
                Merge::Direct => None,
            },
            None => None,
        },
        None => None,
    }
}

fn copy_pr(p: &PullRequestInfo) -> (r: PullRequestInfo)
    ensures
        r == *p,
{
    PullRequestInfo { status: p.status, pr_number: p.pr_number, pr_url: p.pr_url.clone() }
}

/// The selected repository's first pull request (only an open one, with
/// `open_only`).
pub fn selected_repo_pr(statuses: &Vec<RepoBranchStatus>, selected: usize, open_only: bool) -> (r: Option<PullRequestInfo>)
    ensures
        r == selected_pr(statuses@, selected, open_only),
{
    let k = match clamp_index(selected, statuses.len()) {
        None => {
            return None;
        },
        Some(k) => k,
    };
    let merges = &statuses[k].status.merges;
    let mut i: usize = 0;
    while i < merges.len()
        invariant
            i <= merges@.len(),
            merges@ == statuses@[k as int].status.merges@,
            clamped_index(selected, statuses@.len()) == Some(k as int),
            pr_index(merges@, open_only, 0) == pr_index(merges@, open_only, i as int),
        decreases merges@.len() - i,
    {
        match &merges[i] {
            Merge::Pr(p) => {
                if !open_only || p.pr_info.status == MergeStatus::Open {
                    return Some(copy_pr(&p.pr_info));
                }
            },
            Merge::Direct => {},
        }
        i = i + 1;
    }
    None
}

/// What the Git pane's main pull-request key does.
#[derive(Debug, Clone, Copy, PartialEq, Eq, Structural)]
pub enum PrAction {
    /// Only on the main panel's Git pane.
    Nothing,
    /// Open the selected repository's open pull request.
    OpenPr,
    /// Open the creation form.
    CreatePr,
}

/// The Git pane's main pull-request key: open the open pull request, or
/// create one.
pub fn primary_pr_action(focus: Focus, pane: Pane, statuses: &Vec<RepoBranchStatus>, selected: usize) -> (r: PrAction)
    ensures
        r == if focus != Focus::Main || pane != Pane::Git {
            PrAction::Nothing
        } else if selected_pr(statuses@, selected, true) is Some {
            PrAction::OpenPr
        } else {
            PrAction::CreatePr
        },
{
    if focus != Focus::Main || pane != Pane::Git {
        return PrAction::Nothing;
    }
    if selected_repo_pr(statuses, selected, true).is_some() {
        PrAction::OpenPr
    } else {
        PrAction::CreatePr
    }
}

/// What opening the selected pull request leads to.
#[derive(Debug, Clone, PartialEq, Eq)]
pub enum OpenPr {
    /// "No linked pull request".
    NoPr,
    /// Open `url` in the browser ("Opening PR #" and the number).
    Open { url: String, status: String },
}

/// Opens the selected repository's open pull request, else its first one.
pub fn open_selected_pull_request(statuses: &Vec<RepoBranchStatus>, selected: usize) -> (r: OpenPr)
    ensures
        ({
            let pr = match selected_pr(statuses@, selected, true) {
                Some(p) => Some(p),
                None => selected_pr(statuses@, selected, false),
            };
            match pr {
                None => r == OpenPr::NoPr,
                Some(p) => r matches OpenPr::Open { url, status } && url@ == p.pr_url@ && status@
                    == "Opening PR #"@ + signed_decimal(p.pr_number as int),
            }
        }),
{
    let pr = match selected_repo_pr(statuses, selected, true) {
        Some(p) => p,
        None => match selected_repo_pr(statuses, selected, false) {
            Some(p) => p,
            None => {
                return OpenPr::NoPr;
            },
        },
    };
    let mut status = String::from_str("Opening PR #");
    push_signed(&mut status, pr.pr_number);
    OpenPr::Open { url: pr.pr_url, status }
}

/// The first repository from index `i` on with id `id`.
pub open spec fn repo_index(repos: Seq<RepoRef>, id: u128, i: int) -> Option<int>
    decreases repos.len() - i,
{
    if i < 0 || i >= repos.len() {
        None
    } else if repos[i].id == id {
        Some(i)
    } else {
        repo_index(repos, id, i + 1)
    }
}

fn find_repo(repos: &Vec<RepoRef>, id: u128) -> (r: Option<usize>)
    ensures
        match r {
            Some(k) => repo_index(repos@, id, 0) == Some(k as int) && k < repos@.len(),
            None => repo_index(repos@, id, 0) is None,
        },
{
    let mut i: usize = 0;
    while i < repos.len()
        invariant
            i <= repos@.len(),
            repo_index(repos@, id, 0) == repo_index(repos@, id, i as int),
        decreases repos@.len() - i,
    {
        if repos[i].id == id {
            return Some(i);
        }
        i = i + 1;
    }
    None
}

/// The selected repository's name and target branch: from its Git status,
/// else from the workspace's repository with its id ("Repository" and no
/// branch when neither is known).
pub open spec fn repo_facts(statuses: Seq<RepoBranchStatus>, repos: Seq<RepoRef>, selected: usize, id: u128) -> (Seq<char>, Seq<char>) {
    match clamped_index(selected, statuses.len()) {
        Some(k) => (statuses[k].repo_name@, statuses[k].status.target_branch_name@),
        None => match repo_index(repos, id, 0) {
            Some(j) => (repos[j].display_name@, repos[j].target_branch@),
            None => ("Repository"@, Seq::empty()),
        },
    }
}

/// The form's initial title: the workspace's name (else its branch; with
/// no workspace, the repository's name), with the repository's name added
/// in brackets when the workspace has several repositories and the title
/// does not already say it.
pub open spec fn initial_title(workspace: Option<(Option<Seq<char>>, Seq<char>)>, repo_name: Seq<char>, repo_count: nat) -> Seq<char> {
    let base = match workspace {
        Some((name, branch)) => match name {
            Some(n) => n,
            None => branch,
        },
        None => repo_name,
    };
    if repo_count > 1 && !contains(base, repo_name) {
        base + " ("@ + repo_name + ")"@
    } else {
        base
    }
}

/// What opening the pull-request form leads to.
#[derive(Debug, Clone)]
pub enum OpenPrForm {
    /// "No repository available for pull request".
    NoRepo,
    /// The form opens ("Create pull request").
    Open(PrCreateState),
}

/// Opens the pull-request form for the selected repository, on the
/// workspace (`workspace`: its name and branch) with empty body, the cursors
/// at the ends of the title and the target branch, and the title selected.
pub fn open_pr_create(
    statuses: &Vec<RepoBranchStatus>,
    repos: &Vec<RepoRef>,
    selected: usize,
    workspace: Option<(Option<String>, String)>,
) -> (r: OpenPrForm)
    ensures
        match selected_repo_id(statuses@, repos@, selected) {
            None => r is NoRepo,
            Some(id) => r matches OpenPrForm::Open(f) && f.repo_id == id && (f.repo_name@, f.target_branch@)
                == repo_facts(statuses@, repos@, selected, id) && f.title@ == initial_title(
                match workspace {
                    Some((n, b)) => Some(
                        (
                            match n {
                                Some(t) => Some(t@),
                                None => None,
                            },
                            b@,
                        ),
                    ),
                    None => None,
                },
                f.repo_name@,
                repos@.len(),
            ) && f.title_cursor == byte_len(f.title@) && f.body@.len() == 0 && f.body_cursor == 0
                && f.target_branch_cursor == byte_len(f.target_branch@) && !f.draft
                && !f.auto_generate_description && f.selected_field == PrCreateField::Title
                && !f.submitting,
        },
{
    let repo_id = match current_git_repo_id(statuses, repos, selected) {
        None => {
            return OpenPrForm::NoRepo;
        },
        Some(id) => id,
    };
    let (repo_name, target_branch) = match clamp_index(selected, statuses.len()) {
        Some(k) => (statuses[k].repo_name.clone(), statuses[k].status.target_branch_name.clone()),
        None => match find_repo(repos, repo_id) {
            Some(j) => (repos[j].display_name.clone(), repos[j].target_branch.clone()),
            None => (String::from_str("Repository"), String::new()),
        },
    };
    let base = match workspace {
        Some((name, branch)) => match name {
            Some(n) => n,
            None => branch,
        },
        None => repo_name.clone(),
    };
    let title = if repos.len() > 1 && !contains_chars(&chars_of(base.as_str()), &chars_of(repo_name.as_str())) {
        let mut t = base;
        push_str(&mut t, " (");
        push_str(&mut t, repo_name.as_str());
        push_str(&mut t, ")");
        t
    } else {
        base
    };
    let title_cursor = str_len(title.as_str());
    let target_branch_cursor = str_len(target_branch.as_str());
    OpenPrForm::Open(
        PrCreateState {
            repo_id,
            repo_name,
            title,
            title_cursor,
            body: String::new(),
            body_cursor: 0,
            target_branch,
            target_branch_cursor,
            draft: false,
            auto_generate_description: false,
            selected_field: PrCreateField::Title,
            submitting: false,
        },
    )
}

/// The request that creates a pull request.
#[derive(Debug, Clone, PartialEq, Eq)]
pub struct CreatePrRequest {
    pub title: String,
    pub body: Option<String>,
    pub target_branch: Option<String>,
    pub draft: Option<bool>,
    pub repo_id: u128,
    pub auto_generate_description: bool,
}

/// What submitting the pull-request form leads to.
#[derive(Debug, Clone, PartialEq, Eq)]
pub enum PrSubmit {
    /// No workspace or no form: nothing happens.
    Nothing,
    /// "Pull request title cannot be empty" (also the error).
    EmptyTitle,
    /// "Pull request target branch cannot be empty" (also the error).
    EmptyTarget,
    /// Send `request` for the workspace ("Creating PR for " and the
    /// repository's name); the form is marked as submitting.
    Create { workspace_id: u128, request: CreatePrRequest, status: String },
}

fn trimmed(s: &String) -> (r: String)
    ensures
        r@ == trim(s@),
{
    string_of(trim_chars(&chars_of(s.as_str())).as_slice())
}

/// Submits the pull-request form: title and target branch must not be
/// blank; the request carries them trimmed, the body trimmed (none when
/// blank), and the draft and description flags.
pub fn submit_pr_create(workspace: Option<u128>, form: &mut Option<PrCreateState>) -> (r: PrSubmit)
    ensures
        match (workspace, *old(form)) {
            (Some(w), Some(f)) => if trim(f.title@).len() == 0 {
                r == PrSubmit::EmptyTitle && *final(form) == *old(form)
            } else if trim(f.target_branch@).len() == 0 {
                r == PrSubmit::EmptyTarget && *final(form) == *old(form)
            } else {
                &&& *final(form) == Some(PrCreateState { submitting: true, ..f })
                &&& r matches PrSubmit::Create { workspace_id, request, status }
                &&& workspace_id == w
                &&& request.title@ == trim(f.title@)
                &&& request.body matches Some(b) ==> b@ == trim(f.body@)
                &&& (request.body is None <==> trim(f.body@).len() == 0)
                &&& request.target_branch matches Some(t) && t@ == trim(f.target_branch@)
                &&& request.draft == Some(f.draft)
                &&& request.repo_id == f.repo_id
                &&& request.auto_generate_description == f.auto_generate_description
                &&& status@ == "Creating PR for "@ + f.repo_name@
            },
            _ => r == PrSubmit::Nothing && *final(form) == *old(form),
        },
{
    let w = match workspace {
        None => {
            return PrSubmit::Nothing;
        },
        Some(w) => w,
    };
    match form {
        None => PrSubmit::Nothing,
        Some(f) => {
            let title = trimmed(&f.title);
            if chars_of(title.as_str()).len() == 0 {
                return PrSubmit::EmptyTitle;
            }
            let target = trimmed(&f.target_branch);
            if chars_of(target.as_str()).len() == 0 {
                return PrSubmit::EmptyTarget;
            }
            let body_text = trimmed(&f.body);
            let body = if chars_of(body_text.as_str()).len() == 0 {
                None
            } else {
                Some(body_text)
            };
            f.submitting = true;
            let mut status = String::from_str("Creating PR for ");
            push_str(&mut status, f.repo_name.as_str());
            let request = CreatePrRequest {
                title,
                body,
                target_branch: Some(target),
                draft: Some(f.draft),
                repo_id: f.repo_id,
                auto_generate_description: f.auto_generate_description,
            };
            PrSubmit::Create { workspace_id: w, request, status }
        },
    }
}

/// What attaching an existing pull request leads to.
#[derive(Debug, Clone, Copy, PartialEq, Eq, Structural)]
pub enum AttachPr {
    /// No workspace: nothing happens.
    Nothing,
    /// "No repository available for PR attach".
    NoRepo,
    /// Attach the pull request of the repository's branch ("Attaching
    /// existing pull request").
    Attach { workspace_id: u128, repo_id: u128 },
}

/// Decides what attaching an existing pull request does.
pub fn attach_selected_pull_request(
    workspace: Option<u128>,
    statuses: &Vec<RepoBranchStatus>,
    repos: &Vec<RepoRef>,
    selected: usize,
) -> (r: AttachPr)
    ensures
        r == match workspace {
            None => AttachPr::Nothing,
            Some(w) => match selected_repo_id(statuses@, repos@, selected) {
                None => AttachPr::NoRepo,
                Some(id) => AttachPr::Attach { workspace_id: w, repo_id: id },
            },
        },
{
    let w = match workspace {
        None => {
            return AttachPr::Nothing;
        },
        Some(w) => w,
    };
    match current_git_repo_id(statuses, repos, selected) {
        None => AttachPr::NoRepo,
        Some(id) => AttachPr::Attach { workspace_id: w, repo_id: id },
    }
}

/// The merges that are not pull requests, in order.
pub open spec fn non_pr_merges(merges: Seq<Merge>) -> Seq<Merge>
    decreases merges.len(),
{
    if merges.len() == 0 {
        Seq::empty()
    } else if merges.last() is Pr {
        non_pr_merges(merges.drop_last())
    } else {
        non_pr_merges(merges.drop_last()).push(merges.last())
    }
}

/// The first Git status from index `i` on for repository `id`.
pub open spec fn status_index(statuses: Seq<RepoBranchStatus>, id: u128, i: int) -> Option<int>
    decreases statuses.len() - i,
{
    if i < 0 || i >= statuses.len() {
        None
    } else if statuses[i].repo_id == id {
        Some(i)
    } else {
        status_index(statuses, id, i + 1)
    }
}

/// The first summary from index `i` on of workspace `id`.
pub open spec fn summary_index(summaries: Seq<WorkspaceSummary>, id: u128, i: int) -> Option<int>
    decreases summaries.len() - i,
{
    if i < 0 || i >= summaries.len() {
        None
    } else if summaries[i].workspace_id == id {
        Some(i)
    } else {
        summary_index(summaries, id, i + 1)
    }
}

fn find_status(statuses: &Vec<RepoBranchStatus>, id: u128) -> (r: Option<usize>)
    ensures
        match r {
            Some(k) => status_index(statuses@, id, 0) == Some(k as int) && k < statuses@.len(),
            None => status_index(statuses@, id, 0) is None,
        },
{
    let mut i: usize = 0;
    while i < statuses.len()
        invariant
            i <= statuses@.len(),
            status_index(statuses@, id, 0) == status_index(statuses@, id, i as int),
        decreases statuses@.len() - i,
    {
        if statuses[i].repo_id == id {
            return Some(i);
        }
        i = i + 1;
    }
    None
}

fn find_summary(summaries: &Vec<WorkspaceSummary>, id: u128) -> (r: Option<usize>)
    ensures
        match r {
            Some(k) => summary_index(summaries@, id, 0) == Some(k as int) && k < summaries@.len(),
            None => summary_index(summaries@, id, 0) is None,
        },
{
    let mut i: usize = 0;
    while i < summaries.len()
        invariant
            i <= summaries@.len(),
            summary_index(summaries@, id, 0) == summary_index(summaries@, id, i as int),
        decreases summaries@.len() - i,
    {
        if summaries[i].workspace_id == id {
            return Some(i);
        }
        i = i + 1;
    }
    None
}

fn merges_without_prs(merges: &Vec<Merge>) -> (r: Vec<Merge>)
    ensures
        r@ == non_pr_merges(merges@),
{
    let mut out: Vec<Merge> = Vec::new();
    let mut i: usize = 0;
    while i < merges.len()
        invariant
            i <= merges@.len(),
            out@ == non_pr_merges(merges@.take(i as int)),
        decreases merges@.len() - i,
    {
        proof {
            assert(merges@.take(i + 1).drop_last() =~= merges@.take(i as int));
        }
        match &merges[i] {
            Merge::Pr(_) => {},
            Merge::Direct => {
                out.push(Merge::Direct);
            },
        }
        i = i + 1;
    }
    proof {
        assert(merges@.take(merges@.len() as int) =~= merges@);
    }
    out
}

/// Records a pull request that was just created or attached: the
/// repository's Git status keeps its other merges and lists this pull
/// request as its only one, and the selected workspace's summary shows it.
pub fn upsert_local_pr_state(
    statuses: &mut Vec<RepoBranchStatus>,
    summaries: &mut Vec<WorkspaceSummary>,
    selected_workspace: Option<u128>,
    repo_id: u128,
    pr_url: String,
    pr_number: i64,
    pr_status: MergeStatus,
)
    ensures
        final(statuses)@.len() == old(statuses)@.len(),
        match status_index(old(statuses)@, repo_id, 0) {
            None => final(statuses)@ == old(statuses)@,
            Some(k) => {
                &&& forall|j: int| 0 <= j < old(statuses)@.len() && j != k ==> final(statuses)@[j] == old(statuses)@[j]
                &&& final(statuses)@[k] == (RepoBranchStatus {
                    status: BranchStatus { merges: final(statuses)@[k].status.merges, ..old(statuses)@[k].status },
                    ..old(statuses)@[k]
                })
                &&& final(statuses)@[k].status.merges@ == non_pr_merges(old(statuses)@[k].status.merges@).push(
                    Merge::Pr(PrMerge { pr_info: PullRequestInfo { status: pr_status, pr_number, pr_url } }),
                )
            },
        },
        final(summaries)@.len() == old(summaries)@.len(),
        match selected_workspace {
            Some(w) => match summary_index(old(summaries)@, w, 0) {
                Some(k) => {
                    &&& forall|j: int| 0 <= j < old(summaries)@.len() && j != k ==> final(summaries)@[j] == old(summaries)@[j]
                    &&& final(summaries)@[k] == (WorkspaceSummary {
                        pr_status: Some(pr_status),
                        pr_number: Some(pr_number),
                        pr_url: Some(pr_url),
                        ..old(summaries)@[k]
                    })
                },
                None => final(summaries)@ == old(summaries)@,
            },
            None => final(summaries)@ == old(summaries)@,
        },
{
    let info = PullRequestInfo { status: pr_status, pr_number, pr_url: pr_url.clone() };
    match find_status(statuses, repo_id) {
        Some(k) => {
            let ghost before = statuses@;
            let mut st = statuses.remove(k);
            let mut merges = merges_without_prs(&st.status.merges);
            merges.push(Merge::Pr(PrMerge { pr_info: info }));
            st.status.merges = merges;
            statuses.insert(k, st);
            proof {
                assert forall|j: int| 0 <= j < before.len() && j != k implies statuses@[j] == before[j] by {
                    if j < k {
                        assert(statuses@[j] == before.remove(k as int)[j]);
                    } else {
                        assert(statuses@[j] == before.remove(k as int)[j - 1]);
                    }
                }
            }
        },
        None => {},
    }
    match selected_workspace {
        Some(w) => match find_summary(summaries, w) {
            Some(k) => {
                let ghost before = summaries@;
                let mut summary = summaries.remove(k);
                summary.pr_status = Some(pr_status);
                summary.pr_number = Some(pr_number);
                summary.pr_url = Some(pr_url);
                summaries.insert(k, summary);
                proof {
                    assert forall|j: int| 0 <= j < before.len() && j != k implies summaries@[j] == before[j] by {
                        if j < k {
                            assert(summaries@[j] == before.remove(k as int)[j]);
                        } else {
                            assert(summaries@[j] == before.remove(k as int)[j - 1]);
                        }
                    }
                }
            },
            None => {},
        },
        None => {},
    }
}

proof fn lemma_non_pr_merges_have_no_pr(merges: Seq<Merge>)
    ensures
        forall|j: int| 0 <= j < non_pr_merges(merges).len() ==> !(#[trigger] non_pr_merges(merges)[j] is Pr),
    decreases merges.len(),
{
    if merges.len() > 0 {
        lemma_non_pr_merges_have_no_pr(merges.drop_last());
    }
}

proof fn lemma_pr_index_skips(merges: Seq<Merge>, i: int)
    requires
        0 <= i < merges.len(),
        forall|j: int| i <= j < merges.len() - 1 ==> !(#[trigger] merges[j] is Pr),
        merges.len() > 0 && merges.last() is Pr,
    ensures
        pr_index(merges, false, i) == Some(merges.len() - 1),
    decreases merges.len() - i,
{
    if i < merges.len() - 1 {
        lemma_pr_index_skips(merges, i + 1);
    }
}

/// After a pull request is recorded for a repository, it is the
/// repository's only pull request, so it is the one found for it.
pub proof fn lemma_recorded_pr_is_found(merges: Seq<Merge>, info: PullRequestInfo)
    ensures
        ({
            let m = non_pr_merges(merges).push(Merge::Pr(PrMerge { pr_info: info }));
            &&& pr_index(m, false, 0) == Some(m.len() - 1)
            &&& info.status == MergeStatus::Open ==> pr_index(m, true, 0) == Some(m.len() - 1)
        }),
{
    let m = non_pr_merges(merges).push(Merge::Pr(PrMerge { pr_info: info }));
    lemma_non_pr_merges_have_no_pr(merges);
    assert forall|j: int| 0 <= j < m.len() - 1 implies !(#[trigger] m[j] is Pr) by {
        assert(m[j] == non_pr_merges(merges)[j]);
    }
    lemma_pr_index_skips(m, 0);
    if info.status == MergeStatus::Open {
        lemma_pr_index_open_skips(m, 0);
    }
}

proof fn lemma_pr_index_open_skips(merges: Seq<Merge>, i: int)
    requires
        0 <= i < merges.len(),
        forall|j: int| i <= j < merges.len() - 1 ==> !(#[trigger] merges[j] is Pr),
        merges.len() > 0,
        merges.last() matches Merge::Pr(p) && p.pr_info.status == MergeStatus::Open,
    ensures
        pr_index(merges, true, i) == Some(merges.len() - 1),
    decreases merges.len() - i,
{
    if i < merges.len() - 1 {
        lemma_pr_index_open_skips(merges, i + 1);
    }
}

} // verus!
