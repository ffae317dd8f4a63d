use tui::conversation::{initial_conversation_process_ids, process_prompt};
use tui::model::process::{active_process, ProcessAction, ProcessInfo, ProcessStatus};

fn process(id: u128, second: i64, status: ProcessStatus, action: ProcessAction) -> ProcessInfo {
    ProcessInfo {
        id,
        created_secs: second,
        created_nanos: 0,
        dev_server: false,
        status,
        dropped: false,
        action,
    }
}

fn initial(prompt: &str) -> ProcessAction {
    ProcessAction::CodingAgentInitialRequest(prompt.to_string())
}

#[test]
fn active_process_ignores_dev_servers_and_prefers_latest_process() {
    let latest = process(1, 30, ProcessStatus::Completed, initial("a"));
    let mut ignored = process(2, 40, ProcessStatus::Completed, initial("b"));
    ignored.dev_server = true;
    let older = process(3, 10, ProcessStatus::Completed, initial("c"));
    let processes = vec![ignored, older, latest.clone()];
    assert_eq!(active_process(&processes), Some(latest.id));
}

#[test]
fn active_process_breaks_ties_by_nanoseconds_and_order() {
    let mut a = process(1, 30, ProcessStatus::Completed, initial("a"));
    a.created_nanos = 5;
    let b = process(2, 30, ProcessStatus::Completed, initial("b"));
    let c = process(3, 30, ProcessStatus::Completed, initial("c"));
    assert_eq!(active_process(&[a.clone(), b.clone()]), Some(1));
    assert_eq!(active_process(&[b, c]), Some(3));
    assert_eq!(active_process(&[]), None);
}

#[test]
fn initial_conversation_process_ids_selects_recent_processes_until_bootstrap_budget() {
    let ids = [11u128, 12, 13, 14];
    let processes: Vec<ProcessInfo> = ids
        .iter()
        .enumerate()
        .map(|(index, id)| {
            process(*id, index as i64, ProcessStatus::Completed, initial(&format!("prompt {index}")))
        })
        .collect();
    let selected = initial_conversation_process_ids(&ids, &processes);
    assert_eq!(selected, ids[1..].to_vec());
}

#[test]
fn initial_conversation_process_ids_keeps_newest_running_process() {
    let ids = [1u128, 2, 3];
    let processes = vec![
        process(1, 1, ProcessStatus::Completed, initial("one")),
        process(2, 2, ProcessStatus::Completed, initial("two")),
        process(3, 3, ProcessStatus::Running, initial("run")),
    ];
    let selected = initial_conversation_process_ids(&ids, &processes);
    assert_eq!(selected, ids.to_vec());
    assert_eq!(selected.last(), Some(&ids[2]));
}

#[test]
fn initial_conversation_process_ids_skips_missing_processes() {
    let ids = [1u128, 2, 3];
    let processes = vec![
        process(1, 1, ProcessStatus::Completed, initial("one")),
        process(3, 3, ProcessStatus::Completed, initial("three")),
    ];
    let selected = initial_conversation_process_ids(&ids, &processes);
    assert_eq!(selected, vec![ids[0], ids[2]]);
}

#[test]
fn process_prompt_extracts_supported_action_prompts() {
    let follow_up = process(
        1,
        1,
        ProcessStatus::Completed,
        ProcessAction::CodingAgentFollowUpRequest(" follow up ".to_string()),
    );
    assert_eq!(process_prompt(&follow_up).as_deref(), Some("follow up"));
    let review = process(2, 2, ProcessStatus::Completed, ProcessAction::ReviewRequest("review me".to_string()));
    assert_eq!(process_prompt(&review).as_deref(), Some("review me"));
}

#[test]
fn process_prompt_returns_none_for_script_actions_and_blank_prompts() {
    let script = process(1, 1, ProcessStatus::Completed, ProcessAction::ScriptRequest);
    assert_eq!(process_prompt(&script), None);
    let blank = process(2, 2, ProcessStatus::Completed, initial("   "));
    assert_eq!(process_prompt(&blank), None);
}
