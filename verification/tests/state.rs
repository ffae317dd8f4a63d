use tui::conversation::state::{
    chat_blocks, user_message_offsets, ChatBlock, chat_banner, current_conversation_scope, latest_token_usage, process_chat_entries, ChatBanner,
    ChatEntry, ChatEntryKind, ConversationScope, OptimisticConversationEntry, OptimisticEntries,
    OptimisticState,
};
use tui::model::process::{ProcessAction, ProcessInfo, ProcessStatus};

fn process(id: u128, prompt: &str, created_secs: i64) -> ProcessInfo {
    ProcessInfo {
        id,
        created_secs,
        created_nanos: 0,
        dev_server: false,
        status: ProcessStatus::Completed,
        dropped: false,
        action: ProcessAction::CodingAgentInitialRequest(prompt.to_string()),
    }
}

fn entry(kind: ChatEntryKind, content: &str) -> ChatEntry {
    ChatEntry {
        kind,
        content: content.to_string(),
    }
}

fn optimistic(scope: ConversationScope, message: &str, state: OptimisticState) -> OptimisticConversationEntry {
    OptimisticConversationEntry {
        local_id: 7,
        scope,
        message: message.to_string(),
        executor: "CODEX".to_string(),
        state,
    }
}

#[test]
fn current_conversation_scope_covers_new_existing_and_none() {
    assert_eq!(current_conversation_scope(false, None, None), None);
    let workspace_id = 11;
    assert_eq!(
        current_conversation_scope(true, Some(workspace_id), None),
        Some(ConversationScope::NewSession(workspace_id))
    );
    let session_id = 12;
    assert_eq!(
        current_conversation_scope(false, Some(workspace_id), Some(session_id)),
        Some(ConversationScope::Session(session_id))
    );
}

#[test]
fn optimistic_entry_mutations_mark_cache_and_scope_correctly() {
    let mut entries = OptimisticEntries::new();
    assert!(!entries.cache_dirty);
    let workspace_id = 21;
    let session_id = 22;
    let local_id = entries.push_optimistic_entry(
        ConversationScope::NewSession(workspace_id),
        "draft".to_string(),
        "CODEX".to_string(),
    );
    assert!(entries.cache_dirty);
    assert_eq!(entries.entries.len(), 1);
    assert_eq!(entries.entries[0].local_id, local_id);
    assert_eq!(entries.entries[0].state, OptimisticState::Pending);

    entries.cache_dirty = false;
    entries.mark_optimistic_failed(local_id);
    assert_eq!(entries.entries[0].state, OptimisticState::Failed);
    assert!(entries.cache_dirty);

    entries.cache_dirty = false;
    entries.rekey_new_session_optimistic_entries(workspace_id, session_id);
    assert_eq!(entries.entries[0].scope, ConversationScope::Session(session_id));
    assert!(entries.cache_dirty);
}

#[test]
fn marking_an_unknown_id_changes_nothing() {
    let mut entries = OptimisticEntries::new();
    entries
        .entries
        .push(optimistic(ConversationScope::Session(1), "a", OptimisticState::Pending));
    entries.mark_optimistic_failed(99);
    assert_eq!(entries.entries[0].state, OptimisticState::Pending);
    assert!(!entries.cache_dirty);
}

#[test]
fn fresh_ids_differ() {
    let mut entries = OptimisticEntries::new();
    let a = entries.push_optimistic_entry(ConversationScope::Session(1), "a".to_string(), String::new());
    let b = entries.push_optimistic_entry(ConversationScope::Session(1), "b".to_string(), String::new());
    assert_ne!(a, b);
}

#[test]
fn process_chat_entries_synthesizes_missing_user_prompt_and_reconcile_drops_matches() {
    let session_id = 31;
    let process_id = 32;
    let processes = vec![process(process_id, "hello there", 10)];
    let own = vec![entry(ChatEntryKind::AssistantMessage, "response")];

    let entries = process_chat_entries(process_id, &own, &processes);
    assert_eq!(entries.len(), 2);
    assert_eq!(entries[0].kind, ChatEntryKind::UserMessage);
    assert_eq!(entries[0].content, "hello there");

    let mut optimistic_entries = OptimisticEntries::new();
    optimistic_entries.entries = vec![
        optimistic(ConversationScope::Session(session_id), "hello there", OptimisticState::Pending),
        optimistic(ConversationScope::Session(session_id), "hello there", OptimisticState::Failed),
    ];
    optimistic_entries.reconcile_optimistic_entries(Some(ConversationScope::Session(session_id)), &entries);

    assert_eq!(optimistic_entries.entries.len(), 1);
    assert_eq!(optimistic_entries.entries[0].state, OptimisticState::Failed);
    assert!(optimistic_entries.cache_dirty);
}

#[test]
fn process_chat_entries_keeps_existing_user_messages_and_unknown_processes() {
    let processes = vec![process(1, "prompt", 10)];
    let own = vec![entry(ChatEntryKind::UserMessage, "typed")];
    let entries = process_chat_entries(1, &own, &processes);
    assert_eq!(entries.len(), 1);
    assert_eq!(entries[0].content, "typed");
    let other = vec![entry(ChatEntryKind::AssistantMessage, "x")];
    assert_eq!(process_chat_entries(2, &other, &processes).len(), 1);
}

#[test]
fn reconcile_compares_trimmed_and_keeps_other_scopes() {
    let canonical = vec![entry(ChatEntryKind::UserMessage, "  fix it \n")];
    let mut entries = OptimisticEntries::new();
    entries.entries = vec![
        optimistic(ConversationScope::Session(1), "fix it", OptimisticState::Pending),
        optimistic(ConversationScope::Session(2), "fix it", OptimisticState::Pending),
        optimistic(ConversationScope::Session(1), "other", OptimisticState::Pending),
    ];
    entries.reconcile_optimistic_entries(Some(ConversationScope::Session(1)), &canonical);
    assert_eq!(entries.entries.len(), 2);
    assert_eq!(entries.entries[0].scope, ConversationScope::Session(2));
    assert_eq!(entries.entries[1].message, "other");

    entries.cache_dirty = false;
    entries.reconcile_optimistic_entries(Some(ConversationScope::Session(1)), &canonical);
    assert_eq!(entries.entries.len(), 2);
    assert!(!entries.cache_dirty);

    entries.reconcile_optimistic_entries(None, &canonical);
    assert!(entries.entries.is_empty());
    assert!(entries.cache_dirty);
}

#[test]
fn chat_cache_and_loading_banners_reflect_canonical_state() {
    let entries = vec![
        entry(ChatEntryKind::TokenUsage { total_tokens: 7, context_window: 100 }, ""),
        entry(ChatEntryKind::AssistantMessage, "x"),
        entry(ChatEntryKind::TokenUsage { total_tokens: 42, context_window: 128_000 }, ""),
        entry(ChatEntryKind::UserMessage, "y"),
    ];
    assert_eq!(latest_token_usage(&entries), Some((42, 128_000)));
    assert_eq!(latest_token_usage(&Vec::new()), None);

    let banner = chat_banner(true, false, false);
    assert_eq!(banner, Some(ChatBanner::LoadingRecent));
    assert!(banner.unwrap().text().contains("Loading recent conversation"));
    let banner = chat_banner(false, false, true);
    assert_eq!(banner, Some(ChatBanner::LoadingOlder));
    assert!(banner.unwrap().text().contains("Loading older messages"));
    assert_eq!(chat_banner(true, true, false), None);
}

#[test]
fn chat_render_cache_tracks_user_message_offsets() {
    let entries = vec![
        entry(ChatEntryKind::UserMessage, "first"),
        entry(ChatEntryKind::AssistantMessage, "reply"),
        entry(ChatEntryKind::UserMessage, "second"),
    ];
    let blocks = chat_blocks(None, false, &entries, false, &Vec::new(), Some(ConversationScope::Session(1)));
    assert_eq!(blocks, vec![ChatBlock::Entry(0), ChatBlock::Entry(1), ChatBlock::Entry(2)]);
    let offsets = user_message_offsets(&blocks, &entries, &vec![2, 3, 2]);
    assert_eq!(offsets.len(), 2);
    assert_eq!(offsets[0], 0);
    assert!(offsets[1] > offsets[0]);
    assert_eq!(offsets[1], 5);
}

#[test]
fn chat_blocks_collapse_tool_runs_and_add_pending_prompts() {
    let entries = vec![
        entry(ChatEntryKind::UserMessage, "go"),
        entry(ChatEntryKind::ToolUse, "ls"),
        entry(ChatEntryKind::ToolUse, "cat"),
        entry(ChatEntryKind::AssistantMessage, "done"),
        entry(ChatEntryKind::ToolUse, "one"),
    ];
    let pending = vec![
        optimistic(ConversationScope::Session(1), "next", OptimisticState::Pending),
        optimistic(ConversationScope::Session(2), "elsewhere", OptimisticState::Pending),
    ];
    let blocks = chat_blocks(
        Some(ChatBanner::LoadingOlder),
        true,
        &entries,
        true,
        &pending,
        Some(ConversationScope::Session(1)),
    );
    assert_eq!(
        blocks,
        vec![
            ChatBlock::Banner(ChatBanner::LoadingOlder),
            ChatBlock::QueuedFollowUp,
            ChatBlock::Entry(0),
            ChatBlock::ToolRun { start: 1, len: 2 },
            ChatBlock::Entry(3),
            ChatBlock::Entry(4),
            ChatBlock::Optimistic(0),
        ]
    );
    let offsets = user_message_offsets(&blocks, &entries, &vec![2, 5, 1, 1, 3, 1, 2]);
    assert_eq!(offsets, vec![7, 13]);
    let loading = chat_blocks(Some(ChatBanner::LoadingRecent), true, &entries, true, &pending, None);
    assert_eq!(loading, vec![ChatBlock::Banner(ChatBanner::LoadingRecent)]);
    let expanded = chat_blocks(None, false, &entries, false, &pending, None);
    assert_eq!(expanded.len(), 5);
}

#[test]
fn chat_rendering_is_rebuilt_on_width_change_or_when_stale_long_enough() {
    use_rebuild_checks();
}

fn use_rebuild_checks() {
    assert_eq!(tui::conversation::state::should_rebuild_chat_cache(None, 0, false, None), (true, 1));
    assert_eq!(tui::conversation::state::should_rebuild_chat_cache(Some(40), 40, false, Some(0)), (false, 40));
    assert_eq!(tui::conversation::state::should_rebuild_chat_cache(Some(40), 41, false, Some(0)), (true, 41));
    assert_eq!(tui::conversation::state::should_rebuild_chat_cache(Some(40), 40, true, Some(32)), (false, 40));
    assert_eq!(tui::conversation::state::should_rebuild_chat_cache(Some(40), 40, true, Some(33)), (true, 40));
    assert_eq!(tui::conversation::state::should_rebuild_chat_cache(Some(40), 40, true, None), (true, 40));
}

#[test]
fn reset_conversation_state_clears_cached_inputs() {
    let mut conversation = tui::app::update::ConversationSync {
        order: vec![7],
        loaded: vec![7],
        bootstrapping: true,
        backfilling: true,
    };
    let mut entries = OptimisticEntries::new();
    entries.entries.push(optimistic(ConversationScope::Session(3), "pending", OptimisticState::Pending));
    tui::app::history::reset_conversation_state(&mut conversation, &mut entries);
    assert!(conversation.order.is_empty());
    assert!(conversation.loaded.is_empty());
    assert!(!conversation.bootstrapping);
    assert!(!conversation.backfilling);
    assert!(entries.entries.is_empty());
    assert!(entries.cache_dirty);
}

#[test]
fn retain_scope_keeps_only_the_shown_conversation() {
    let mut entries = OptimisticEntries::new();
    entries.entries.push(optimistic(ConversationScope::Session(1), "a", OptimisticState::Pending));
    entries.entries.push(optimistic(ConversationScope::Session(2), "b", OptimisticState::Failed));
    entries.entries.push(optimistic(ConversationScope::Session(1), "c", OptimisticState::Failed));
    entries.retain_scope(Some(ConversationScope::Session(1)));
    let kept: Vec<&str> = entries.entries.iter().map(|e| e.message.as_str()).collect();
    assert_eq!(kept, vec!["a", "c"]);
    assert!(entries.cache_dirty);

    let mut same = OptimisticEntries::new();
    same.entries.push(optimistic(ConversationScope::Session(1), "a", OptimisticState::Pending));
    same.retain_scope(Some(ConversationScope::Session(1)));
    assert_eq!(same.entries.len(), 1);
    assert!(!same.cache_dirty);

    same.retain_scope(None);
    assert!(same.entries.is_empty());
    assert!(same.cache_dirty);
}
