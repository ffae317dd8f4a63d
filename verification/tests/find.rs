use tui::app::find::{
    advance_conversation_search, filter_status, handle_search_prompt_key, open_search, search_target,
    update_conversation_search, ConversationSearchState, PromptKey, SearchPromptState, SearchTarget,
};
use tui::input::keys::{KeyCode, KeyEvent, KeyModifiers};
use tui::model::domain::{Focus, Pane};

fn press(code: KeyCode) -> KeyEvent {
    KeyEvent::new(code, KeyModifiers::none())
}

fn chat(lines: &[&str]) -> Vec<Vec<String>> {
    lines.iter().map(|line| vec![line.to_string()]).collect()
}

fn search(query: &str, matches: Vec<usize>, current_match: usize) -> Option<ConversationSearchState> {
    Some(ConversationSearchState { query: query.to_string(), matches, current_match })
}

#[test]
fn search_targets_follow_the_focus() {
    assert_eq!(search_target(Focus::WorkspaceList, Pane::Git), Some(SearchTarget::Workspaces));
    assert_eq!(search_target(Focus::Detail, Pane::Git), Some(SearchTarget::Sessions));
    assert_eq!(search_target(Focus::Main, Pane::Chat), Some(SearchTarget::Conversation));
    assert_eq!(search_target(Focus::Main, Pane::Logs), None);
    assert_eq!(search_target(Focus::Composer, Pane::Chat), None);
}

#[test]
fn open_search_starts_from_the_current_filter() {
    let (prompt, status) = open_search(Focus::Detail, Pane::Chat, &"ws".to_string(), &"sé".to_string(), &None);
    let prompt = prompt.unwrap();
    assert_eq!(prompt.target, SearchTarget::Sessions);
    assert_eq!(prompt.query, "sé");
    assert_eq!(prompt.cursor, 3);
    assert_eq!(status, "Filter sessions");
    let (prompt, status) = open_search(Focus::Main, Pane::Chat, &String::new(), &String::new(), &search("needle", vec![], 0));
    assert_eq!(prompt.unwrap().query, "needle");
    assert_eq!(status, "Search conversation");
    let (prompt, status) = open_search(Focus::Composer, Pane::Chat, &String::new(), &String::new(), &None);
    assert!(prompt.is_none());
    assert_eq!(status, "Search is available in workspaces, sessions, and conversation");
}

#[test]
fn prompt_keys_edit_submit_and_close() {
    let mut prompt = SearchPromptState { target: SearchTarget::Workspaces, query: "ab".to_string(), cursor: 2 };
    assert_eq!(handle_search_prompt_key(&mut prompt, press(KeyCode::Char('c'))), PromptKey::Edited);
    assert_eq!(prompt.query, "abc");
    assert_eq!(handle_search_prompt_key(&mut prompt, press(KeyCode::Backspace)), PromptKey::Edited);
    assert_eq!(prompt.query, "ab");
    assert_eq!(handle_search_prompt_key(&mut prompt, press(KeyCode::Enter)), PromptKey::Submit);
    assert_eq!(handle_search_prompt_key(&mut prompt, press(KeyCode::Esc)), PromptKey::Close);
    assert_eq!(handle_search_prompt_key(&mut prompt, press(KeyCode::F(3))), PromptKey::Ignored);
    assert_eq!(prompt.query, "ab");
}

#[test]
fn filter_statuses_name_the_filter() {
    assert_eq!(filter_status(SearchTarget::Workspaces, &String::new()), "Workspace filter cleared");
    assert_eq!(filter_status(SearchTarget::Workspaces, &"api".to_string()), "Workspace filter: api");
    assert_eq!(filter_status(SearchTarget::Sessions, &"x".to_string()), "Session filter: x");
    assert_eq!(filter_status(SearchTarget::Sessions, &String::new()), "Session filter cleared");
}

#[test]
fn update_search_finds_matches_and_jumps_to_the_first() {
    let lines = chat(&["intro", "Needle here", "middle", "another needle", "end"]);
    let prompt = Some(SearchPromptState { target: SearchTarget::Conversation, query: "needle".to_string(), cursor: 6 });
    let mut state = None;
    let report = update_conversation_search(&prompt, &mut state, Some(&lines), 2, true);
    let st = state.clone().unwrap();
    assert_eq!(st.matches, vec![1, 3]);
    assert_eq!(st.current_match, 0);
    assert_eq!(report.status.as_deref(), Some("Conversation match 1/2 for needle"));
    assert_eq!(report.jump, Some(2));

    let mut state = search("needle", vec![1, 3], 1);
    let report = update_conversation_search(&None, &mut state, Some(&lines), 2, false);
    assert_eq!(state.as_ref().unwrap().current_match, 1);
    assert_eq!(report.status.as_deref(), Some("Conversation match 2/2 for needle"));
    assert_eq!(report.jump, Some(0));

    let missing = Some(SearchPromptState { target: SearchTarget::Conversation, query: "zzz".to_string(), cursor: 3 });
    let report = update_conversation_search(&missing, &mut state, Some(&lines), 2, false);
    assert_eq!(report.status.as_deref(), Some("No conversation matches for zzz"));
    assert_eq!(report.jump, None);

    let blank = Some(SearchPromptState { target: SearchTarget::Conversation, query: String::new(), cursor: 0 });
    let report = update_conversation_search(&blank, &mut state, Some(&lines), 2, false);
    assert!(state.is_none());
    assert_eq!(report.status.as_deref(), Some("Conversation search cleared"));
}

#[test]
fn advance_search_goes_round_the_matches() {
    let lines = chat(&["a needle", "b", "c needle", "d"]);
    let mut state = search("needle", vec![0, 2], 0);
    let report = advance_conversation_search(Pane::Chat, &mut state, Some(&lines), 1, true);
    assert_eq!(state.as_ref().unwrap().current_match, 1);
    assert_eq!(report.status.as_deref(), Some("Conversation match 2/2 for needle"));
    assert_eq!(report.jump, Some(1));
    advance_conversation_search(Pane::Chat, &mut state, Some(&lines), 1, true);
    assert_eq!(state.as_ref().unwrap().current_match, 0);
    advance_conversation_search(Pane::Chat, &mut state, Some(&lines), 1, false);
    assert_eq!(state.as_ref().unwrap().current_match, 1);

    let report = advance_conversation_search(Pane::Logs, &mut state, Some(&lines), 1, true);
    assert_eq!(report.status, None);
    let mut none = None;
    let report = advance_conversation_search(Pane::Chat, &mut none, Some(&lines), 1, true);
    assert_eq!(report.status.as_deref(), Some("No active conversation search"));
    let report = advance_conversation_search(Pane::Chat, &mut state, None, 1, true);
    assert_eq!(report.status.as_deref(), Some("Conversation search unavailable"));
    let mut gone = search("zzz", vec![3], 0);
    let report = advance_conversation_search(Pane::Chat, &mut gone, Some(&lines), 1, true);
    assert_eq!(report.status.as_deref(), Some("No conversation matches"));
    assert!(gone.unwrap().matches.is_empty());
}
