use tui::app::pr::PrCreateField;
use tui::app::pr_repo::{
    attach_selected_pull_request, current_git_repo_id, open_pr_create, open_selected_pull_request,
    primary_pr_action, selected_repo_pr, submit_pr_create, upsert_local_pr_state, AttachPr, OpenPr,
    OpenPrForm, PrAction, PrSubmit, RepoRef,
};
use tui::model::domain::{Focus, Pane};
use tui::model::dto::{
    BranchStatus, Merge, MergeStatus, PrMerge, PullRequestInfo, RepoBranchStatus, WorkspaceSummary,
};

fn pr(status: MergeStatus, number: i64) -> Merge {
    Merge::Pr(PrMerge {
        pr_info: PullRequestInfo { status, pr_number: number, pr_url: format!("https://pr/{number}") },
    })
}

fn status(repo_id: u128, name: &str, merges: Vec<Merge>) -> RepoBranchStatus {
    RepoBranchStatus {
        repo_id,
        repo_name: name.to_string(),
        status: BranchStatus {
            commits_behind: Some(1),
            commits_ahead: Some(2),
            has_uncommitted_changes: Some(false),
            head_oid: None,
            uncommitted_count: None,
            untracked_count: None,
            target_branch_name: "main".to_string(),
            remote_commits_behind: None,
            remote_commits_ahead: None,
            merges,
            is_rebase_in_progress: false,
            conflict_op: None,
            conflicted_files: Vec::new(),
            is_target_remote: false,
        },
    }
}

fn repo(id: u128, name: &str) -> RepoRef {
    RepoRef { id, display_name: name.to_string(), target_branch: "develop".to_string() }
}

fn summary(workspace_id: u128) -> WorkspaceSummary {
    WorkspaceSummary {
        workspace_id,
        project_id: None,
        project_name: None,
        remote_project_id: None,
        latest_session_id: None,
        has_pending_approval: false,
        files_changed: None,
        lines_added: None,
        lines_removed: None,
        latest_process_completed_at: None,
        latest_process_status: None,
        has_running_dev_server: false,
        has_unseen_turns: false,
        pr_status: None,
        pr_number: None,
        pr_url: None,
    }
}

#[test]
fn the_selected_repository_comes_from_statuses_then_repos() {
    let statuses = vec![status(1, "api", vec![]), status(2, "web", vec![])];
    let repos = vec![repo(5, "other")];
    assert_eq!(current_git_repo_id(&statuses, &repos, 7), Some(2));
    assert_eq!(current_git_repo_id(&Vec::new(), &repos, 3), Some(5));
    assert_eq!(current_git_repo_id(&Vec::new(), &Vec::new(), 0), None);
}

#[test]
fn open_prs_come_before_other_prs() {
    let statuses = vec![status(1, "api", vec![Merge::Direct, pr(MergeStatus::Merged, 3), pr(MergeStatus::Open, 4)])];
    assert_eq!(selected_repo_pr(&statuses, 0, true).unwrap().pr_number, 4);
    assert_eq!(selected_repo_pr(&statuses, 0, false).unwrap().pr_number, 3);
    assert_eq!(primary_pr_action(Focus::Main, Pane::Git, &statuses, 0), PrAction::OpenPr);
    assert_eq!(primary_pr_action(Focus::Main, Pane::Chat, &statuses, 0), PrAction::Nothing);
    match open_selected_pull_request(&statuses, 0) {
        OpenPr::Open { url, status } => {
            assert_eq!(url, "https://pr/4");
            assert_eq!(status, "Opening PR #4");
        }
        other => panic!("unexpected {other:?}"),
    }
    let closed = vec![status(1, "api", vec![pr(MergeStatus::Closed, 9)])];
    assert_eq!(primary_pr_action(Focus::Main, Pane::Git, &closed, 0), PrAction::CreatePr);
    assert!(matches!(open_selected_pull_request(&closed, 0), OpenPr::Open { .. }));
    assert_eq!(open_selected_pull_request(&Vec::new(), 0), OpenPr::NoPr);
}

#[test]
fn the_pr_form_opens_on_the_workspace_title() {
    let statuses = vec![status(1, "api", vec![])];
    let repos = vec![repo(1, "api"), repo(2, "web")];
    match open_pr_create(&statuses, &repos, 0, Some((None, "feature/x".to_string()))) {
        OpenPrForm::Open(form) => {
            assert_eq!(form.repo_id, 1);
            assert_eq!(form.repo_name, "api");
            assert_eq!(form.title, "feature/x (api)");
            assert_eq!(form.title_cursor, 15);
            assert_eq!(form.target_branch, "main");
            assert_eq!(form.target_branch_cursor, 4);
            assert_eq!(form.selected_field, PrCreateField::Title);
            assert!(!form.submitting);
        }
        OpenPrForm::NoRepo => panic!("expected a form"),
    }
    match open_pr_create(&Vec::new(), &vec![repo(2, "web")], 0, Some((Some("web fix".to_string()), "b".to_string()))) {
        OpenPrForm::Open(form) => {
            assert_eq!(form.title, "web fix");
            assert_eq!(form.target_branch, "develop");
        }
        OpenPrForm::NoRepo => panic!("expected a form"),
    }
    assert!(matches!(open_pr_create(&Vec::new(), &Vec::new(), 0, None), OpenPrForm::NoRepo));
}

#[test]
fn submitting_the_pr_form_trims_and_checks_fields() {
    let statuses = vec![status(1, "api", vec![])];
    let mut form = match open_pr_create(&statuses, &vec![], 0, None) {
        OpenPrForm::Open(form) => Some(form),
        OpenPrForm::NoRepo => None,
    };
    form.as_mut().unwrap().title = "  ".to_string();
    assert_eq!(submit_pr_create(Some(9), &mut form), PrSubmit::EmptyTitle);
    form.as_mut().unwrap().title = " Fix it ".to_string();
    form.as_mut().unwrap().target_branch = " ".to_string();
    assert_eq!(submit_pr_create(Some(9), &mut form), PrSubmit::EmptyTarget);
    form.as_mut().unwrap().target_branch = "main ".to_string();
    assert_eq!(submit_pr_create(None, &mut form), PrSubmit::Nothing);
    match submit_pr_create(Some(9), &mut form) {
        PrSubmit::Create { workspace_id, request, status } => {
            assert_eq!(workspace_id, 9);
            assert_eq!(request.title, "Fix it");
            assert_eq!(request.body, None);
            assert_eq!(request.target_branch.as_deref(), Some("main"));
            assert_eq!(request.draft, Some(false));
            assert_eq!(request.repo_id, 1);
            assert_eq!(status, "Creating PR for api");
        }
        other => panic!("unexpected {other:?}"),
    }
    assert!(form.unwrap().submitting);
}

#[test]
fn attaching_needs_a_workspace_and_a_repository() {
    let statuses = vec![status(1, "api", vec![])];
    assert_eq!(attach_selected_pull_request(None, &statuses, &vec![], 0), AttachPr::Nothing);
    assert_eq!(attach_selected_pull_request(Some(3), &Vec::new(), &vec![], 0), AttachPr::NoRepo);
    assert_eq!(
        attach_selected_pull_request(Some(3), &statuses, &vec![], 0),
        AttachPr::Attach { workspace_id: 3, repo_id: 1 }
    );
}

#[test]
fn recording_a_pr_replaces_the_repository_prs_and_updates_the_summary() {
    let mut statuses = vec![
        status(1, "api", vec![pr(MergeStatus::Closed, 1), Merge::Direct]),
        status(2, "web", vec![pr(MergeStatus::Open, 5)]),
    ];
    let mut summaries = vec![summary(7), summary(8)];
    upsert_local_pr_state(&mut statuses, &mut summaries, Some(8), 1, "https://pr/12".to_string(), 12, MergeStatus::Open);
    assert_eq!(statuses[0].status.merges.len(), 2);
    assert!(matches!(statuses[0].status.merges[0], Merge::Direct));
    assert_eq!(selected_repo_pr(&statuses, 0, true).unwrap().pr_number, 12);
    assert_eq!(selected_repo_pr(&statuses, 1, true).unwrap().pr_number, 5);
    assert_eq!(summaries[1].pr_number, Some(12));
    assert_eq!(summaries[1].pr_url.as_deref(), Some("https://pr/12"));
    assert_eq!(summaries[0].pr_number, None);
}
