//! The chat's own view of a conversation: which conversation is shown,
//! prompts shown before the backend confirms them, the entries each
//! process contributes, and the banners shown while history loads.
use vstd::prelude::*;

use crate::codec::random_uuid;
use crate::conversation::history::{find_process, process_index, process_prompt, prompt_of};
use crate::model::entry::{format_patch_entry, patch_entry_text, NormalizedEntryType, PatchType};
use crate::model::process::ProcessInfo;
use crate::text::{chars_of, trim, trim_chars};

verus! {

/// The conversation the chat shows: a session's, or that of a new session
/// being started in a workspace.
#[derive(Debug, Clone, Copy, PartialEq, Eq, Structural)]
pub enum ConversationScope {
    Session(u128),
    NewSession(u128),
}

/// Whether a prompt shown ahead of the backend is still on its way or was
/// refused.
#[derive(Debug, Clone, Copy, PartialEq, Eq, Structural)]
pub enum OptimisticState {
    Pending,
    Failed,
}

/// A prompt shown in the chat before the backend confirms it.
#[derive(Debug, Clone)]
pub struct OptimisticConversationEntry {
    pub local_id: u128,
    pub scope: ConversationScope,
    pub message: String,
    /// The executor the prompt was sent to, by name.
    pub executor: String,
    pub state: OptimisticState,
}

/// An optimistic entry as values.
pub struct OptimisticView {
    pub local_id: u128,
    pub scope: ConversationScope,
    pub message: Seq<char>,
    pub executor: Seq<char>,
    pub state: OptimisticState,
}

impl View for OptimisticConversationEntry {
    type V = OptimisticView;

    open spec fn view(&self) -> OptimisticView {
        OptimisticView {
            local_id: self.local_id,
            scope: self.scope,
            message: self.message@,
            executor: self.executor@,
            state: self.state,
        }
    }
}

/// The entries as values.
pub open spec fn entry_views(s: Seq<OptimisticConversationEntry>) -> Seq<OptimisticView> {
    s.map_values(|e: OptimisticConversationEntry| e@)
}

/// The conversation shown: while a new session is being started, the
/// selected workspace's new session; otherwise the selected session.
pub open spec fn scope_of(
    creating_new_session: bool,
    selected_workspace_id: Option<u128>,
    selected_session_id: Option<u128>,
) -> Option<ConversationScope> {
    if creating_new_session {
        match selected_workspace_id {
            Some(w) => Some(ConversationScope::NewSession(w)),
            None => None,
        }
    } else {
        match selected_session_id {
            Some(s) => Some(ConversationScope::Session(s)),
            None => None,
        }
    }
}

/// The conversation the chat shows.
pub fn current_conversation_scope(
    creating_new_session: bool,
    selected_workspace_id: Option<u128>,
    selected_session_id: Option<u128>,
) -> (r: Option<ConversationScope>)
    ensures
        r == scope_of(creating_new_session, selected_workspace_id, selected_session_id),
{
    if creating_new_session {
        match selected_workspace_id {
            Some(w) => Some(ConversationScope::NewSession(w)),
            None => None,
        }
    } else {
        match selected_session_id {
            Some(s) => Some(ConversationScope::Session(s)),
            None => None,
        }
    }
}

impl OptimisticConversationEntry {
    /// A copy of the entry.
    pub fn copy_entry(&self) -> (r: OptimisticConversationEntry)
        ensures
            r == *self,
    {
        OptimisticConversationEntry {
            local_id: self.local_id,
            scope: self.scope,
            message: self.message.clone(),
            executor: self.executor.clone(),
            state: self.state,
        }
    }
}

/// What kind of entry of a process's log a chat entry is.
#[derive(Debug, Clone, Copy, PartialEq, Eq, Structural)]
pub enum ChatEntryKind {
    UserMessage,
    AssistantMessage,
    ToolUse,
    /// The tokens used so far and the model's context window.
    TokenUsage { total_tokens: u32, context_window: u32 },
    Other,
}

/// An entry of a conversation: its kind and its text.
#[derive(Debug, Clone)]
pub struct ChatEntry {
    pub kind: ChatEntryKind,
    pub content: String,
}

/// What the chat keeps of a log entry: the kind of a normalized entry
/// with its content; output and diffs as other entries with their text.
pub open spec fn chat_entry_of(p: PatchType) -> (ChatEntryKind, Seq<char>) {
    match p {
        PatchType::NormalizedEntry(e) => (
            match e.entry_type {
                NormalizedEntryType::UserMessage => ChatEntryKind::UserMessage,
                NormalizedEntryType::AssistantMessage => ChatEntryKind::AssistantMessage,
                NormalizedEntryType::ToolUse { .. } => ChatEntryKind::ToolUse,
                NormalizedEntryType::TokenUsageInfo { total_tokens, model_context_window } =>
                    ChatEntryKind::TokenUsage { total_tokens, context_window: model_context_window },
                _ => ChatEntryKind::Other,
            },
            e.content@,
        ),
        _ => (ChatEntryKind::Other, patch_entry_text(p)),
    }
}

impl ChatEntry {
    /// The chat entry for a log entry.
    pub fn from_patch(p: &PatchType) -> (r: ChatEntry)
        ensures
            (r.kind, r.content@) == chat_entry_of(*p),
    {
        match p {
            PatchType::NormalizedEntry(e) => {
                let kind = match &e.entry_type {
                    NormalizedEntryType::UserMessage => ChatEntryKind::UserMessage,
                    NormalizedEntryType::AssistantMessage => ChatEntryKind::AssistantMessage,
                    NormalizedEntryType::ToolUse { .. } => ChatEntryKind::ToolUse,
                    NormalizedEntryType::TokenUsageInfo { total_tokens, model_context_window } =>
                        ChatEntryKind::TokenUsage {
                        total_tokens: *total_tokens,
                        context_window: *model_context_window,
                    },
                    _ => ChatEntryKind::Other,
                };
                ChatEntry { kind, content: e.content.clone() }
            },
            _ => ChatEntry { kind: ChatEntryKind::Other, content: format_patch_entry(p) },
        }
    }

    /// A copy of the entry.
    pub fn copy_entry(&self) -> (r: ChatEntry)
        ensures
            r == *self,
    {
        ChatEntry { kind: self.kind, content: self.content.clone() }
    }
}

/// Some entry is a user message.
pub open spec fn has_user_message(es: Seq<ChatEntry>) -> bool {
    exists|k: int| 0 <= k < es.len() && (#[trigger] es[k]).kind == ChatEntryKind::UserMessage
}

/// A user message of the conversation says `message`, both trimmed.
pub open spec fn confirmed(es: Seq<ChatEntry>, message: Seq<char>) -> bool {
    exists|k: int|
        0 <= k < es.len() && (#[trigger] es[k]).kind == ChatEntryKind::UserMessage && trim(
            es[k].content@,
        ) == trim(message)
}

/// An optimistic entry stays while it belongs to another conversation, was
/// refused, or no user message of the conversation matches it yet.
pub open spec fn stays(v: OptimisticView, scope: ConversationScope, es: Seq<ChatEntry>) -> bool {
    v.scope != scope || v.state == OptimisticState::Failed || !confirmed(es, v.message)
}

/// The entries that stay, in order.
pub open spec fn staying(vs: Seq<OptimisticView>, scope: ConversationScope, es: Seq<ChatEntry>) -> Seq<OptimisticView>
    decreases vs.len(),
{
    if vs.len() == 0 {
        Seq::empty()
    } else {
        let before = staying(vs.drop_last(), scope, es);
        if stays(vs.last(), scope, es) {
            before.push(vs.last())
        } else {
            before
        }
    }
}

/// The entries of the conversation shown, in order.
pub open spec fn in_scope(vs: Seq<OptimisticView>, scope: Option<ConversationScope>) -> Seq<OptimisticView>
    decreases vs.len(),
{
    if vs.len() == 0 {
        Seq::empty()
    } else if Some(vs.last().scope) == scope {
        in_scope(vs.drop_last(), scope).push(vs.last())
    } else {
        in_scope(vs.drop_last(), scope)
    }
}

/// The token usage reported last, if any.
pub open spec fn last_token_usage(es: Seq<ChatEntry>) -> Option<(u32, u32)>
    decreases es.len(),
{
    if es.len() == 0 {
        None
    } else {
        match es.last().kind {
            ChatEntryKind::TokenUsage { total_tokens, context_window } => Some(
                (total_tokens, context_window),
            ),
            _ => last_token_usage(es.drop_last()),
        }
    }
}

/// The latest token usage the conversation reports: that of its last
/// token-usage entry.
pub fn latest_token_usage(entries: &Vec<ChatEntry>) -> (r: Option<(u32, u32)>)
    ensures
        r == last_token_usage(entries@),
{
    let mut i: usize = entries.len();
    proof {
        assert(entries@.take(i as int) =~= entries@);
    }
    while i > 0
        invariant
            i <= entries@.len(),
            last_token_usage(entries@) == last_token_usage(entries@.take(i as int)),
        decreases i,
    {
        proof {
            assert(entries@.take(i as int).drop_last() =~= entries@.take(i - 1));
        }
        match entries[i - 1].kind {
            ChatEntryKind::TokenUsage { total_tokens, context_window } => {
                return Some((total_tokens, context_window));
            },
            _ => {},
        }
        i = i - 1;
    }
    None
}

fn has_user_entry(entries: &Vec<ChatEntry>) -> (r: bool)
    ensures
        r == has_user_message(entries@),
{
    let mut i: usize = 0;
    while i < entries.len()
        invariant
            i <= entries@.len(),
            forall|k: int| 0 <= k < i ==> (#[trigger] entries@[k]).kind != ChatEntryKind::UserMessage,
        decreases entries@.len() - i,
    {
        if entries[i].kind == ChatEntryKind::UserMessage {
            return true;
        }
        i = i + 1;
    }
    false
}

/// The entries a process contributes to the chat: its own, with the prompt
/// it was started with in front when none of them is a user message (and
/// the process is known and has a prompt).
pub fn process_chat_entries(process_id: u128, entries: &Vec<ChatEntry>, processes: &[ProcessInfo]) -> (r: Vec<ChatEntry>)
    ensures
        match process_index(processes@, process_id) {
            Some(p) if !has_user_message(entries@) && prompt_of(processes@[p]) is Some => {
                &&& r@.len() == entries@.len() + 1
                &&& r@[0].kind == ChatEntryKind::UserMessage
                &&& r@[0].content@ == prompt_of(processes@[p])->0
                &&& r@.skip(1) == entries@
            },
            _ => r@ == entries@,
        },
{
    let mut out: Vec<ChatEntry> = Vec::new();
    if !has_user_entry(entries) {
        match find_process(processes, process_id) {
            Some(k) => match process_prompt(&processes[k]) {
                Some(prompt) => {
                    out.push(ChatEntry { kind: ChatEntryKind::UserMessage, content: prompt });
                },
                None => {},
            },
            None => {},
        }
    }
    let ghost start = out@;
    let mut i: usize = 0;
    while i < entries.len()
        invariant
            i <= entries@.len(),
            start.len() <= 1,
            out@ == start + entries@.take(i as int),
        decreases entries@.len() - i,
    {
        out.push(entries[i].copy_entry());
        proof {
            assert(entries@.take(i + 1) =~= entries@.take(i as int).push(entries@[i as int]));
        }
        i = i + 1;
    }
    proof {
        assert(entries@.take(entries@.len() as int) =~= entries@);
        assert(out@.skip(start.len() as int) =~= entries@);
    }
    out
}

fn is_confirmed(entries: &Vec<ChatEntry>, message: &String) -> (r: bool)
    ensures
        r == confirmed(entries@, message@),
{
    let wanted = trim_chars(&chars_of(message.as_str()));
    let mut i: usize = 0;
    while i < entries.len()
        invariant
            i <= entries@.len(),
            wanted@ == trim(message@),
            forall|k: int|
                0 <= k < i ==> !((#[trigger] entries@[k]).kind == ChatEntryKind::UserMessage
                    && trim(entries@[k].content@) == trim(message@)),
        decreases entries@.len() - i,
    {
        if entries[i].kind == ChatEntryKind::UserMessage {
            let got = trim_chars(&chars_of(entries[i].content.as_str()));
            if same_chars(&got, &wanted) {
                return true;
            }
        }
        i = i + 1;
    }
    false
}

fn same_chars(a: &Vec<char>, b: &Vec<char>) -> (r: bool)
    ensures
        r == (a@ == b@),
{
    if a.len() != b.len() {
        return false;
    }
    let mut i: usize = 0;
    while i < a.len()
        invariant
            i <= a@.len() == b@.len(),
            forall|k: int| 0 <= k < i ==> a@[k] == b@[k],
        decreases a@.len() - i,
    {
        if a[i] != b[i] {
            return false;
        }
        i = i + 1;
    }
    proof {
        assert(a@ =~= b@);
    }
    true
}

/// The banner at the top of the chat while history loads.
#[derive(Debug, Clone, Copy, PartialEq, Eq, Structural)]
pub enum ChatBanner {
    /// "Loading recent conversation...": shown alone, in place of the chat.
    LoadingRecent,
    /// "Loading older messages...": shown above the chat.
    LoadingOlder,
}

/// The banner: the first load, before any entry has come, hides the chat;
/// a later load of older entries is announced above it.
pub open spec fn banner_of(bootstrapping: bool, entries_loaded: bool, backfilling: bool) -> Option<ChatBanner> {
    if bootstrapping && !entries_loaded {
        Some(ChatBanner::LoadingRecent)
    } else if backfilling {
        Some(ChatBanner::LoadingOlder)
    } else {
        None
    }
}

/// The banner at the top of the chat.
pub fn chat_banner(bootstrapping: bool, entries_loaded: bool, backfilling: bool) -> (r: Option<ChatBanner>)
    ensures
        r == banner_of(bootstrapping, entries_loaded, backfilling),
{
    if bootstrapping && !entries_loaded {
        Some(ChatBanner::LoadingRecent)
    } else if backfilling {
        Some(ChatBanner::LoadingOlder)
    } else {
        None
    }
}

impl ChatBanner {
    /// The banner's text.
    pub fn text(&self) -> (r: &'static str)
        ensures
            r@ == match *self {
                ChatBanner::LoadingRecent => "Loading recent conversation..."@,
                ChatBanner::LoadingOlder => "Loading older messages..."@,
            },
    {
        match self {
            ChatBanner::LoadingRecent => "Loading recent conversation...",
            ChatBanner::LoadingOlder => "Loading older messages...",
        }
    }
}

/// A block of the chat, in the order the chat shows them.
#[derive(Debug, Clone, Copy, PartialEq, Eq, Structural)]
pub enum ChatBlock {
    Banner(ChatBanner),
    /// The queued follow-up: its message and executor.
    QueuedFollowUp,
    /// A conversation entry, by index.
    Entry(usize),
    /// A run of tool calls shown as one collapsed block: `len` entries
    /// from `start`.
    ToolRun { start: usize, len: usize },
    /// An optimistic entry, by index.
    Optimistic(usize),
}

/// How many tool calls follow one another from entry `i` on.
pub open spec fn tool_run_len(es: Seq<ChatEntry>, i: int) -> nat
    decreases es.len() - i,
{
    if i < 0 || i >= es.len() || es[i].kind != ChatEntryKind::ToolUse {
        0
    } else {
        1 + tool_run_len(es, i + 1)
    }
}

/// The blocks of the entries from `i` on: with tool runs collapsed, a run
/// of more than one tool call is one block; every other entry is its own.
pub open spec fn entry_blocks(es: Seq<ChatEntry>, collapsed: bool, i: int) -> Seq<ChatBlock>
    decreases es.len() - i,
{
    if i < 0 || i >= es.len() {
        Seq::empty()
    } else if collapsed && tool_run_len(es, i) > 1 {
        proof {
            lemma_tool_run_bounds(es, i);
        }
        seq![ChatBlock::ToolRun { start: i as usize, len: tool_run_len(es, i) as usize }] + entry_blocks(
            es,
            collapsed,
            i + tool_run_len(es, i),
        )
    } else {
        seq![ChatBlock::Entry(i as usize)] + entry_blocks(es, collapsed, i + 1)
    }
}

/// The optimistic entries of the conversation shown, from index `i` on.
pub open spec fn optimistic_blocks(vs: Seq<OptimisticView>, scope: Option<ConversationScope>, i: int) -> Seq<ChatBlock>
    decreases vs.len() - i,
{
    if i < 0 || i >= vs.len() {
        Seq::empty()
    } else if Some(vs[i].scope) == scope {
        seq![ChatBlock::Optimistic(i as usize)] + optimistic_blocks(vs, scope, i + 1)
    } else {
        optimistic_blocks(vs, scope, i + 1)
    }
}

/// The chat's blocks: while the first load has brought nothing, only its
/// banner; otherwise the banner of a later load, the queued follow-up, the
/// conversation's entries, and the optimistic entries of the conversation
/// shown.
pub open spec fn chat_blocks_of(
    banner: Option<ChatBanner>,
    queued: bool,
    es: Seq<ChatEntry>,
    collapsed: bool,
    vs: Seq<OptimisticView>,
    scope: Option<ConversationScope>,
) -> Seq<ChatBlock> {
    if banner == Some(ChatBanner::LoadingRecent) {
        seq![ChatBlock::Banner(ChatBanner::LoadingRecent)]
    } else {
        (if banner == Some(ChatBanner::LoadingOlder) {
            seq![ChatBlock::Banner(ChatBanner::LoadingOlder)]
        } else {
            Seq::empty()
        }) + (if queued {
            seq![ChatBlock::QueuedFollowUp]
        } else {
            Seq::empty()
        }) + entry_blocks(es, collapsed, 0) + (if scope is Some {
            optimistic_blocks(vs, scope, 0)
        } else {
            Seq::empty()
        })
    }
}

/// A run of tool calls ends within the entries.
pub proof fn lemma_tool_run_bounds(es: Seq<ChatEntry>, i: int)
    requires
        0 <= i <= es.len(),
    ensures
        i + tool_run_len(es, i) <= es.len(),
    decreases es.len() - i,
{
    if i < es.len() && es[i].kind == ChatEntryKind::ToolUse {
        lemma_tool_run_bounds(es, i + 1);
    }
}

fn tool_run_at(es: &Vec<ChatEntry>, i: usize) -> (r: usize)
    requires
        i <= es@.len(),
    ensures
        r == tool_run_len(es@, i as int),
        i + r <= es@.len(),
{
    proof {
        lemma_tool_run_bounds(es@, i as int);
    }
    let mut j: usize = i;
    while j < es.len() && es[j].kind == ChatEntryKind::ToolUse
        invariant
            i <= j <= es@.len(),
            tool_run_len(es@, i as int) == (j - i) + tool_run_len(es@, j as int),
        decreases es@.len() - j,
    {
        j = j + 1;
    }
    j - i
}

/// The chat's blocks, in order (see `chat_blocks_of`).
pub fn chat_blocks(
    banner: Option<ChatBanner>,
    queued: bool,
    entries: &Vec<ChatEntry>,
    collapsed: bool,
    optimistic: &Vec<OptimisticConversationEntry>,
    scope: Option<ConversationScope>,
) -> (r: Vec<ChatBlock>)
    ensures
        r@ == chat_blocks_of(banner, queued, entries@, collapsed, entry_views(optimistic@), scope),
{
    let mut blocks: Vec<ChatBlock> = Vec::new();
    if banner == Some(ChatBanner::LoadingRecent) {
        blocks.push(ChatBanner::LoadingRecent.into_block());
        proof {
            assert(blocks@ =~= seq![ChatBlock::Banner(ChatBanner::LoadingRecent)]);
        }
        return blocks;
    }
    if banner == Some(ChatBanner::LoadingOlder) {
        blocks.push(ChatBlock::Banner(ChatBanner::LoadingOlder));
    }
    if queued {
        blocks.push(ChatBlock::QueuedFollowUp);
    }
    let ghost head = blocks@;
    let mut i: usize = 0;
    while i < entries.len()
        invariant
            i <= entries@.len(),
            head + entry_blocks(entries@, collapsed, 0) == blocks@ + entry_blocks(entries@, collapsed, i as int),
        decreases entries@.len() - i,
    {
        let run = tool_run_at(entries, i);
        if collapsed && run > 1 {
            blocks.push(ChatBlock::ToolRun { start: i, len: run });
            proof {
                assert(seq![ChatBlock::ToolRun { start: i, len: run }] + entry_blocks(entries@, collapsed, i + run)
                    == entry_blocks(entries@, collapsed, i as int));
            }
            i = i + run;
        } else {
            blocks.push(ChatBlock::Entry(i));
            i = i + 1;
        }
    }
    let ghost mid = blocks@;
    proof {
        assert(entry_blocks(entries@, collapsed, i as int) =~= Seq::<ChatBlock>::empty());
        assert(mid == head + entry_blocks(entries@, collapsed, 0));
    }
    if scope.is_some() {
        let ghost vs = entry_views(optimistic@);
        let mut k: usize = 0;
        while k < optimistic.len()
            invariant
                k <= optimistic@.len(),
                vs == entry_views(optimistic@),
                mid + optimistic_blocks(vs, scope, 0) == blocks@ + optimistic_blocks(vs, scope, k as int),
            decreases optimistic@.len() - k,
        {
            if Some(optimistic[k].scope) == scope {
                blocks.push(ChatBlock::Optimistic(k));
            }
            k = k + 1;
        }
        proof {
            assert(optimistic_blocks(vs, scope, k as int) =~= Seq::<ChatBlock>::empty());
        }
    }
    blocks
}

impl ChatBanner {
    fn into_block(self) -> (r: ChatBlock)
        ensures
            r == ChatBlock::Banner(self),
    {
        ChatBlock::Banner(self)
    }
}

/// The lines of the first `k` blocks.
pub open spec fn prefix_lines(counts: Seq<usize>, k: int) -> int
    decreases k,
{
    if k <= 0 {
        0
    } else {
        prefix_lines(counts, k - 1) + counts[k - 1]
    }
}

/// A block that starts a user turn: a user message, or an optimistic entry.
pub open spec fn starts_user_turn(b: ChatBlock, es: Seq<ChatEntry>) -> bool {
    match b {
        ChatBlock::Entry(i) => i < es.len() && es[i as int].kind == ChatEntryKind::UserMessage,
        ChatBlock::Optimistic(_) => true,
        _ => false,
    }
}

/// The first line of each user turn among the first `k` blocks, given how
/// many lines each block renders to.
pub open spec fn user_offsets(blocks: Seq<ChatBlock>, es: Seq<ChatEntry>, counts: Seq<usize>, k: int) -> Seq<int>
    decreases k,
{
    if k <= 0 {
        Seq::empty()
    } else if starts_user_turn(blocks[k - 1], es) {
        user_offsets(blocks, es, counts, k - 1).push(prefix_lines(counts, k - 1))
    } else {
        user_offsets(blocks, es, counts, k - 1)
    }
}

proof fn lemma_prefix_lines_grow(counts: Seq<usize>, j: int, k: int)
    requires
        0 <= j <= k <= counts.len(),
    ensures
        0 <= prefix_lines(counts, j) <= prefix_lines(counts, k),
    decreases k - j,
{
    if j < k {
        lemma_prefix_lines_grow(counts, j, k - 1);
    } else {
        lemma_prefix_lines_nonneg(counts, j);
    }
}

proof fn lemma_prefix_lines_nonneg(counts: Seq<usize>, k: int)
    requires
        0 <= k <= counts.len(),
    ensures
        0 <= prefix_lines(counts, k),
    decreases k,
{
    if k > 0 {
        lemma_prefix_lines_nonneg(counts, k - 1);
    }
}

/// Where each user turn starts in the rendered chat, given the lines each
/// block renders to (`line_counts`, one per block, adding up to no more
/// than a vector can hold).
pub fn user_message_offsets(blocks: &Vec<ChatBlock>, entries: &Vec<ChatEntry>, line_counts: &Vec<usize>) -> (r: Vec<usize>)
    requires
        line_counts@.len() == blocks@.len(),
        prefix_lines(line_counts@, line_counts@.len() as int) <= usize::MAX,
    ensures
        r@.map_values(|x: usize| x as int) == user_offsets(blocks@, entries@, line_counts@, blocks@.len() as int),
{
    let mut out: Vec<usize> = Vec::new();
    let mut lines: usize = 0;
    let mut k: usize = 0;
    while k < blocks.len()
        invariant
            k <= blocks@.len() == line_counts@.len(),
            prefix_lines(line_counts@, line_counts@.len() as int) <= usize::MAX,
            lines as int == prefix_lines(line_counts@, k as int),
            out@.map_values(|x: usize| x as int) == user_offsets(blocks@, entries@, line_counts@, k as int),
        decreases blocks@.len() - k,
    {
        proof {
            lemma_prefix_lines_grow(line_counts@, k + 1, line_counts@.len() as int);
        }
        let starts = match blocks[k] {
            ChatBlock::Entry(i) => i < entries.len() && entries[i].kind == ChatEntryKind::UserMessage,
            ChatBlock::Optimistic(_) => true,
            _ => false,
        };
        if starts {
            let ghost before = out@;
            out.push(lines);
            proof {
                assert(out@.map_values(|x: usize| x as int) =~= before.map_values(|x: usize| x as int).push(
                    lines as int,
                ));
            }
        }
        lines = lines + line_counts[k];
        k = k + 1;
    }
    out
}

/// An out-of-date chat rendering is rebuilt at most this often.
pub const CHAT_CACHE_MIN_REBUILD_MS: u64 = 33;

/// Whether the chat's rendering is built again for `width` columns (at
/// least one): when there is none, when it was built for another width, or
/// when it is out of date and was not built in the last
/// `CHAT_CACHE_MIN_REBUILD_MS` milliseconds. Returns the width to build for.
pub fn should_rebuild_chat_cache(
    cached_width: Option<usize>,
    width: usize,
    dirty: bool,
    since_last_build_ms: Option<u64>,
) -> (r: (bool, usize))
    ensures
        r.1 == if width > 0 {
            width
        } else {
            1
        },
        r.0 == (match cached_width {
            None => true,
            Some(w) => w != r.1,
        } || (dirty && match since_last_build_ms {
            None => true,
            Some(ms) => ms >= CHAT_CACHE_MIN_REBUILD_MS,
        })),
{
    let w = if width > 0 {
        width
    } else {
        1
    };
    let stale_width = match cached_width {
        None => true,
        Some(c) => c != w,
    };
    let due = match since_last_build_ms {
        None => true,
        Some(ms) => ms >= CHAT_CACHE_MIN_REBUILD_MS,
    };
    (stale_width || (dirty && due), w)
}

/// The first entry from index `i` on with the given local id.
pub open spec fn index_with_id(s: Seq<OptimisticView>, local_id: u128, i: int) -> Option<int>
    decreases s.len() - i,
{
    if i < 0 || i >= s.len() {
        None
    } else if s[i].local_id == local_id {
        Some(i)
    } else {
        index_with_id(s, local_id, i + 1)
    }
}

/// An entry of a new session in `workspace_id`, moved to the session that
/// was created for it.
pub open spec fn rekeyed(v: OptimisticView, workspace_id: u128, session_id: u128) -> OptimisticView {
    if v.scope == ConversationScope::NewSession(workspace_id) {
        OptimisticView { scope: ConversationScope::Session(session_id), ..v }
    } else {
        v
    }
}

/// The prompts shown ahead of the backend, and whether the chat's rendering
/// is out of date.
pub struct OptimisticEntries {
    pub entries: Vec<OptimisticConversationEntry>,
    pub cache_dirty: bool,
}

impl OptimisticEntries {
    /// No entries, with the rendering up to date.
    pub fn new() -> (r: OptimisticEntries)
        ensures
            r.entries@.len() == 0,
            !r.cache_dirty,
    {
        OptimisticEntries { entries: Vec::new(), cache_dirty: false }
    }

    /// Shows a prompt in `scope` as pending under a fresh random id, and
    /// returns the id.
    pub fn push_optimistic_entry(
        &mut self,
        scope: ConversationScope,
        message: String,
        executor: String,
    ) -> (id: u128)
        ensures
            entry_views(final(self).entries@) == entry_views(old(self).entries@).push(
                OptimisticView {
                    local_id: id,
                    scope,
                    message: message@,
                    executor: executor@,
                    state: OptimisticState::Pending,
                },
            ),
            final(self).cache_dirty,
    {
        let local_id = random_uuid();
        let ghost before = self.entries@;
        self.entries.push(
            OptimisticConversationEntry {
                local_id,
                scope,
                message,
                executor,
                state: OptimisticState::Pending,
            },
        );
        proof {
            assert(entry_views(self.entries@) =~= entry_views(before).push(self.entries@.last()@));
        }
        self.cache_dirty = true;
        local_id
    }

    /// Marks the first entry with `local_id` as refused; without one,
    /// nothing changes.
    pub fn mark_optimistic_failed(&mut self, local_id: u128)
        ensures
            match index_with_id(entry_views(old(self).entries@), local_id, 0) {
                Some(k) => {
                    &&& entry_views(final(self).entries@) == entry_views(old(self).entries@).update(
                        k,
                        OptimisticView {
                            state: OptimisticState::Failed,
                            ..entry_views(old(self).entries@)[k]
                        },
                    )
                    &&& final(self).cache_dirty
                },
                None => {
                    &&& entry_views(final(self).entries@) == entry_views(old(self).entries@)
                    &&& final(self).cache_dirty == old(self).cache_dirty
                },
            },
    {
        let ghost vs = entry_views(self.entries@);
        let mut i: usize = 0;
        while i < self.entries.len()
            invariant
                i <= self.entries@.len(),
                self.entries@ == old(self).entries@,
                self.cache_dirty == old(self).cache_dirty,
                vs == entry_views(self.entries@),
                index_with_id(vs, local_id, 0) == index_with_id(vs, local_id, i as int),
            decreases self.entries@.len() - i,
        {
            if self.entries[i].local_id == local_id {
                let ghost before = self.entries@;
                let mut entry = self.entries[i].copy_entry();
                entry.state = OptimisticState::Failed;
                self.entries.set(i, entry);
                proof {
                    assert(entry_views(self.entries@) =~= vs.update(
                        i as int,
                        OptimisticView { state: OptimisticState::Failed, ..vs[i as int] },
                    ));
                }
                self.cache_dirty = true;
                return;
            }
            i = i + 1;
        }
    }

    /// Moves the entries of the new session in `workspace_id` to the
    /// session that was created for it.
    pub fn rekey_new_session_optimistic_entries(&mut self, workspace_id: u128, session_id: u128)
        ensures
            entry_views(final(self).entries@) == entry_views(old(self).entries@).map_values(
                |v: OptimisticView| rekeyed(v, workspace_id, session_id),
            ),
            final(self).cache_dirty,
    {
        let ghost vs = entry_views(self.entries@);
        let mut i: usize = 0;
        while i < self.entries.len()
            invariant
                i <= self.entries@.len() == vs.len(),
                forall|k: int|
                    0 <= k < i ==> #[trigger] self.entries@[k]@ == rekeyed(
                        vs[k],
                        workspace_id,
                        session_id,
                    ),
                forall|k: int| i <= k < vs.len() ==> #[trigger] self.entries@[k]@ == vs[k],
            decreases vs.len() - i,
        {
            let ghost cur = self.entries@[i as int];
            assert(cur@ == vs[i as int]);
            if self.entries[i].scope == ConversationScope::NewSession(workspace_id) {
                let mut entry = self.entries[i].copy_entry();
                entry.scope = ConversationScope::Session(session_id);
                self.entries.set(i, entry);
            }
            assert(self.entries@[i as int]@ == rekeyed(vs[i as int], workspace_id, session_id));
            i = i + 1;
        }
        proof {
            assert(entry_views(self.entries@) =~= vs.map_values(
                |v: OptimisticView| rekeyed(v, workspace_id, session_id),
            ));
        }
        self.cache_dirty = true;
    }

    /// Drops every entry.
    pub fn clear(&mut self)
        ensures
            final(self).entries@.len() == 0,
            final(self).cache_dirty,
    {
        self.entries.clear();
        self.cache_dirty = true;
    }

    /// Drops the pending entries of the shown conversation that one of its
    /// user messages now confirms (compared trimmed); with no conversation
    /// shown, drops them all. The rendering goes out of date when an entry
    /// is dropped.
    pub fn reconcile_optimistic_entries(
        &mut self,
        scope: Option<ConversationScope>,
        canonical: &Vec<ChatEntry>,
    )
        ensures
            match scope {
                None => final(self).entries@.len() == 0 && final(self).cache_dirty,
                Some(sc) => {
                    &&& entry_views(final(self).entries@) == staying(
                        entry_views(old(self).entries@),
                        sc,
                        canonical@,
                    )
                    &&& final(self).cache_dirty == (old(self).cache_dirty
                        || final(self).entries@.len() != old(self).entries@.len())
                },
            },
    {
        let sc = match scope {
            None => {
                self.clear();
                return;
            },
            Some(sc) => sc,
        };
        let ghost vs = entry_views(self.entries@);
        let mut kept: Vec<OptimisticConversationEntry> = Vec::new();
        let mut i: usize = 0;
        while i < self.entries.len()
            invariant
                i <= self.entries@.len() == vs.len(),
                vs == entry_views(self.entries@),
                self.entries@ == old(self).entries@,
                entry_views(kept@) == staying(vs.take(i as int), sc, canonical@),
            decreases vs.len() - i,
        {
            let entry = &self.entries[i];
            let keep = entry.scope != sc || entry.state == OptimisticState::Failed || !is_confirmed(
                canonical,
                &entry.message,
            );
            proof {
                assert(vs.take(i + 1).drop_last() =~= vs.take(i as int));
                assert(vs[i as int] == entry@);
                assert(keep == stays(entry@, sc, canonical@));
                assert(vs.take(i + 1).last() == vs[i as int]);
            }
            if keep {
                let ghost before = kept@;
                kept.push(entry.copy_entry());
                proof {
                    assert(entry_views(kept@) =~= entry_views(before).push(entry@));
                }
            }
            i = i + 1;
        }
        proof {
            assert(vs.take(vs.len() as int) =~= vs);
            assert(entry_views(kept@).len() == kept@.len());
        }
        let changed = kept.len() != self.entries.len();
        self.entries = kept;
        if changed {
            self.cache_dirty = true;
        }
    }

    /// Keeps only the entries of the conversation shown (none without
    /// one); the rendering goes out of date when an entry is dropped.
    pub fn retain_scope(&mut self, scope: Option<ConversationScope>)
        ensures
            entry_views(final(self).entries@) == in_scope(entry_views(old(self).entries@), scope),
            final(self).cache_dirty == (old(self).cache_dirty || final(self).entries@.len()
                != old(self).entries@.len()),
    {
        let ghost vs = entry_views(self.entries@);
        let mut kept: Vec<OptimisticConversationEntry> = Vec::new();
        let mut i: usize = 0;
        while i < self.entries.len()
            invariant
                i <= self.entries@.len() == vs.len(),
                vs == entry_views(self.entries@),
                entry_views(kept@) == in_scope(vs.take(i as int), scope),
            decreases vs.len() - i,
        {
            let entry = &self.entries[i];
            proof {
                assert(vs.take(i + 1).drop_last() =~= vs.take(i as int));
                assert(vs[i as int] == entry@);
                assert(vs.take(i + 1).last() == vs[i as int]);
            }
            if Some(entry.scope) == scope {
                let ghost before = kept@;
                kept.push(entry.copy_entry());
                proof {
                    assert(entry_views(kept@) =~= entry_views(before).push(entry@));
                }
            }
            i = i + 1;
        }
        proof {
            assert(vs.take(vs.len() as int) =~= vs);
            assert(entry_views(kept@).len() == kept@.len());
        }
        let changed = kept.len() != self.entries.len();
        self.entries = kept;
        if changed {
            self.cache_dirty = true;
        }
    }
}

/// Reconciling again against the same conversation drops nothing more:
/// what stays after one pass stays after a second.
pub proof fn lemma_reconcile_idempotent(vs: Seq<OptimisticView>, scope: ConversationScope, es: Seq<ChatEntry>)
    ensures
        staying(staying(vs, scope, es), scope, es) == staying(vs, scope, es),
    decreases vs.len(),
{
    if vs.len() > 0 {
        lemma_reconcile_idempotent(vs.drop_last(), scope, es);
        let before = staying(vs.drop_last(), scope, es);
        if stays(vs.last(), scope, es) {
            assert(before.push(vs.last()).drop_last() =~= before);
        }
    }
}

/// Reconciling keeps every refused entry and every entry of another
/// conversation.
pub proof fn lemma_reconcile_keeps_failed_and_foreign(
    vs: Seq<OptimisticView>,
    scope: ConversationScope,
    es: Seq<ChatEntry>,
    k: int,
)
    requires
        0 <= k < vs.len(),
        vs[k].state == OptimisticState::Failed || vs[k].scope != scope,
    ensures
        staying(vs, scope, es).contains(vs[k]),
    decreases vs.len(),
{
    if k < vs.len() - 1 {
        lemma_reconcile_keeps_failed_and_foreign(vs.drop_last(), scope, es, k);
        let before = staying(vs.drop_last(), scope, es);
        if stays(vs.last(), scope, es) {
            let j = choose|j: int| 0 <= j < before.len() && before[j] == vs[k];
            assert(before.push(vs.last())[j] == vs[k]);
        }
    } else {
        let before = staying(vs.drop_last(), scope, es);
        assert(before.push(vs.last())[before.len() as int] == vs[k]);
    }
}

} // verus!
