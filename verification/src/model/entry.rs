//! The entries of an execution process's log, as the backend normalizes
//! them, and their one-line text forms shown in the logs pane.
use vstd::prelude::*;

use crate::model::dto::{DiffChangeKind, LocalDiff};
use crate::model::format::{diff_title, diff_title_text};
use crate::text::{chars_of, decimal, push_decimal, push_str, string_of, trim, trim_chars};

verus! {

/// What a tool call did.
#[derive(Debug, Clone)]
pub enum ActionType {
    CommandRun { command: String },
    FileRead { path: String },
    FileEdit { path: String },
    Search { query: String },
    WebFetch { url: String },
    Tool { tool_name: String },
    TaskCreate { description: String, subagent_type: Option<String> },
    PlanPresentation,
    TodoManagement { operation: String },
    AskUserQuestion,
    Other { description: String },
}

/// Where a tool call stands.
#[derive(Debug, Clone, Copy, PartialEq, Eq, Structural)]
pub enum ToolStatus {
    Created,
    Success,
    Failed,
    Denied,
    PendingApproval,
    TimedOut,
}

/// The kind of an error message.
#[derive(Debug, Clone, Copy, PartialEq, Eq, Structural)]
pub enum EntryErrorKind {
    SetupRequired,
    Other,
}

/// A question the user answered, with the answers chosen.
#[derive(Debug, Clone)]
pub struct AnsweredQuestion {
    pub question: String,
    pub answer: Vec<String>,
}

/// What a normalized entry is.
#[derive(Debug, Clone)]
pub enum NormalizedEntryType {
    UserMessage,
    AssistantMessage,
    SystemMessage,
    Thinking,
    Loading,
    UserFeedback,
    ErrorMessage { error_type: EntryErrorKind },
    NextAction { failed: bool },
    ToolUse { tool_name: String, action_type: ActionType, status: ToolStatus },
    TokenUsageInfo { total_tokens: u32, model_context_window: u32 },
    UserAnsweredQuestions { answers: Vec<AnsweredQuestion> },
}

/// An entry of a coding agent's log.
#[derive(Debug, Clone)]
pub struct NormalizedEntry {
    pub entry_type: NormalizedEntryType,
    pub content: String,
}

/// One entry of an execution process's log stream.
#[derive(Debug, Clone)]
pub enum PatchType {
    NormalizedEntry(NormalizedEntry),
    Stdout(String),
    Stderr(String),
    Diff(LocalDiff),
}

/// `parts` joined with `sep` between each two.
pub open spec fn join(parts: Seq<Seq<char>>, sep: Seq<char>) -> Seq<char>
    decreases parts.len(),
{
    if parts.len() == 0 {
        Seq::empty()
    } else if parts.len() == 1 {
        parts[0]
    } else {
        join(parts.drop_last(), sep) + sep + parts.last()
    }
}

/// The texts of strings.
pub open spec fn texts(v: Seq<String>) -> Seq<Seq<char>> {
    v.map_values(|s: String| s@)
}

/// Joins strings with a separator.
pub fn join_strings(parts: &Vec<String>, sep: &str) -> (r: String)
    ensures
        r@ == join(texts(parts@), sep@),
{
    let mut out = String::new();
    let mut i: usize = 0;
    while i < parts.len()
        invariant
            i <= parts@.len(),
            out@ == join(texts(parts@).take(i as int), sep@),
        decreases parts@.len() - i,
    {
        let ghost before = texts(parts@).take(i as int);
        if i > 0 {
            push_str(&mut out, sep);
        }
        push_str(&mut out, parts[i].as_str());
        proof {
            let after = texts(parts@).take(i + 1);
            assert(after.drop_last() =~= before);
            assert(after.last() == parts@[i as int]@);
            if i == 0 {
                assert(before =~= Seq::<Seq<char>>::empty());
            }
        }
        i = i + 1;
    }
    proof {
        assert(texts(parts@).take(parts@.len() as int) =~= texts(parts@));
    }
    out
}

/// How a tool call's action reads: `cmd `...``, `read <path>`, and so on.
pub open spec fn action_text(a: ActionType) -> Seq<char> {
    match a {
        ActionType::CommandRun { command } => "cmd `"@ + command@ + "`"@,
        ActionType::FileRead { path } => "read "@ + path@,
        ActionType::FileEdit { path } => "edit "@ + path@,
        ActionType::Search { query } => "search "@ + query@,
        ActionType::WebFetch { url } => "fetch "@ + url@,
        ActionType::Tool { tool_name } => tool_name@,
        ActionType::TaskCreate { description, subagent_type } => match subagent_type {
            Some(t) => "spawn "@ + t@ + ": "@ + description@,
            None => description@,
        },
        ActionType::PlanPresentation => "present plan"@,
        ActionType::TodoManagement { operation } => "todo "@ + operation@,
        ActionType::AskUserQuestion => "ask user"@,
        ActionType::Other { description } => description@,
    }
}

/// A short description of a tool call's action.
pub fn summarize_action(action: &ActionType) -> (r: String)
    ensures
        r@ == action_text(*action),
{
    let mut out = String::new();
    match action {
        ActionType::CommandRun { command } => {
            push_str(&mut out, "cmd `");
            push_str(&mut out, command.as_str());
            push_str(&mut out, "`");
        },
        ActionType::FileRead { path } => {
            push_str(&mut out, "read ");
            push_str(&mut out, path.as_str());
        },
        ActionType::FileEdit { path } => {
            push_str(&mut out, "edit ");
            push_str(&mut out, path.as_str());
        },
        ActionType::Search { query } => {
            push_str(&mut out, "search ");
            push_str(&mut out, query.as_str());
        },
        ActionType::WebFetch { url } => {
            push_str(&mut out, "fetch ");
            push_str(&mut out, url.as_str());
        },
        ActionType::Tool { tool_name } => {
            push_str(&mut out, tool_name.as_str());
        },
        ActionType::TaskCreate { description, subagent_type } => match subagent_type {
            Some(t) => {
                push_str(&mut out, "spawn ");
                push_str(&mut out, t.as_str());
                push_str(&mut out, ": ");
                push_str(&mut out, description.as_str());
            },
            None => {
                push_str(&mut out, description.as_str());
            },
        },
        ActionType::PlanPresentation => {
            push_str(&mut out, "present plan");
        },
        ActionType::TodoManagement { operation } => {
            push_str(&mut out, "todo ");
            push_str(&mut out, operation.as_str());
        },
        ActionType::AskUserQuestion => {
            push_str(&mut out, "ask user");
        },
        ActionType::Other { description } => {
            push_str(&mut out, description.as_str());
        },
    }
    out
}

/// The word for a tool call's status in the logs pane.
pub open spec fn status_word(s: ToolStatus) -> Seq<char> {
    match s {
        ToolStatus::Created => "created"@,
        ToolStatus::Success => "success"@,
        ToolStatus::Failed => "failed"@,
        ToolStatus::Denied => "denied"@,
        ToolStatus::PendingApproval => "approval"@,
        ToolStatus::TimedOut => "timed out"@,
    }
}

fn status_word_of(s: ToolStatus) -> (r: &'static str)
    ensures
        r@ == status_word(s),
{
    match s {
        ToolStatus::Created => "created",
        ToolStatus::Success => "success",
        ToolStatus::Failed => "failed",
        ToolStatus::Denied => "denied",
        ToolStatus::PendingApproval => "approval",
        ToolStatus::TimedOut => "timed out",
    }
}

/// A tool call in the logs pane: `tool <name> [<status>] <action>`, and the
/// trimmed output on the next line when there is any.
pub open spec fn tool_use_text(
    tool_name: Seq<char>,
    action: ActionType,
    status: ToolStatus,
    content: Seq<char>,
) -> Seq<char> {
    let head = "tool "@ + tool_name + " ["@ + status_word(status) + "] "@ + action_text(action);
    if trim(content).len() == 0 {
        head
    } else {
        head + "\n"@ + trim(content)
    }
}

fn format_tool_use(tool_name: &str, action: &ActionType, status: ToolStatus, content: &str) -> (r:
    String)
    ensures
        r@ == tool_use_text(tool_name@, *action, status, content@),
{
    let action_part = summarize_action(action);
    let mut out = String::new();
    push_str(&mut out, "tool ");
    push_str(&mut out, tool_name);
    push_str(&mut out, " [");
    push_str(&mut out, status_word_of(status));
    push_str(&mut out, "] ");
    push_str(&mut out, action_part.as_str());
    let trimmed = trim_chars(&chars_of(content));
    if trimmed.len() > 0 {
        let t = string_of(trimmed.as_slice());
        push_str(&mut out, "\n");
        push_str(&mut out, t.as_str());
    }
    out
}

/// The lines `question: answer, answer` of answered questions.
pub open spec fn answer_lines(answers: Seq<AnsweredQuestion>) -> Seq<Seq<char>> {
    answers.map_values(
        |a: AnsweredQuestion| a.question@ + ": "@ + join(texts(a.answer@), ", "@),
    )
}

/// The answers to questions, one question per line.
pub open spec fn answers_text(answers: Seq<AnsweredQuestion>) -> Seq<char> {
    join(answer_lines(answers), "\n"@)
}

/// Lists the answered questions, one per line.
pub fn format_answers(answers: &Vec<AnsweredQuestion>) -> (r: String)
    ensures
        r@ == answers_text(answers@),
{
    let mut lines: Vec<String> = Vec::new();
    let mut i: usize = 0;
    while i < answers.len()
        invariant
            i <= answers@.len(),
            lines@.len() == i,
            texts(lines@) == answer_lines(answers@).take(i as int),
        decreases answers@.len() - i,
    {
        let joined = join_strings(&answers[i].answer, ", ");
        let mut line = String::new();
        push_str(&mut line, answers[i].question.as_str());
        push_str(&mut line, ": ");
        push_str(&mut line, joined.as_str());
        let ghost old_lines = lines@;
        proof {
            assert(line@ == answer_lines(answers@)[i as int]);
        }
        lines.push(line);
        proof {
            assert(lines@ == old_lines.push(line));
            assert forall|k: int| 0 <= k < i + 1 implies #[trigger] texts(lines@)[k] == answer_lines(
                answers@,
            ).take(i + 1)[k] by {
                if k < i {
                    assert(texts(old_lines)[k] == answer_lines(answers@).take(i as int)[k]);
                    assert(lines@[k] == old_lines[k]);
                } else {
                    assert(lines@[k] == line);
                }
            }
            assert(texts(lines@) =~= answer_lines(answers@).take(i + 1));
        }
        i = i + 1;
    }
    proof {
        assert(answer_lines(answers@).take(answers@.len() as int) =~= answer_lines(answers@));
    }
    join_strings(&lines, "\n")
}

/// The label an entry kind is shown with, for kinds shown as
/// `label: content`.
pub open spec fn entry_label(t: NormalizedEntryType) -> Seq<char> {
    match t {
        NormalizedEntryType::UserMessage => "user"@,
        NormalizedEntryType::AssistantMessage => "assistant"@,
        NormalizedEntryType::SystemMessage => "system"@,
        NormalizedEntryType::Thinking => "thinking"@,
        NormalizedEntryType::Loading => "loading"@,
        NormalizedEntryType::UserFeedback => "feedback"@,
        NormalizedEntryType::ErrorMessage { error_type } => match error_type {
            EntryErrorKind::SetupRequired => "setup"@,
            EntryErrorKind::Other => "error"@,
        },
        NormalizedEntryType::NextAction { failed } => if failed {
            "next action failed"@
        } else {
            "next action"@
        },
        _ => Seq::empty(),
    }
}

/// A normalized entry in the logs pane: a tool call, the context usage,
/// the answered questions, or the entry's label followed by its trimmed
/// content when there is any.
pub open spec fn normalized_entry_text(e: NormalizedEntry) -> Seq<char> {
    match e.entry_type {
        NormalizedEntryType::ToolUse { tool_name, action_type, status } => tool_use_text(
            tool_name@,
            action_type,
            status,
            e.content@,
        ),
        NormalizedEntryType::TokenUsageInfo { total_tokens, model_context_window } => "context: "@
            + decimal(total_tokens as nat) + " / "@ + decimal(model_context_window as nat),
        NormalizedEntryType::UserAnsweredQuestions { answers } => answers_text(answers@),
        _ => if trim(e.content@).len() == 0 {
            entry_label(e.entry_type)
        } else {
            entry_label(e.entry_type) + ": "@ + trim(e.content@)
        },
    }
}

fn entry_label_of(t: &NormalizedEntryType) -> (r: &'static str)
    ensures
        r@ == entry_label(*t),
{
    proof {
        reveal_strlit("");
    }
    match t {
        NormalizedEntryType::UserMessage => "user",
        NormalizedEntryType::AssistantMessage => "assistant",
        NormalizedEntryType::SystemMessage => "system",
        NormalizedEntryType::Thinking => "thinking",
        NormalizedEntryType::Loading => "loading",
        NormalizedEntryType::UserFeedback => "feedback",
        NormalizedEntryType::ErrorMessage { error_type } => match error_type {
            EntryErrorKind::SetupRequired => "setup",
            EntryErrorKind::Other => "error",
        },
        NormalizedEntryType::NextAction { failed } => if *failed {
            "next action failed"
        } else {
            "next action"
        },
        _ => "",
    }
}

/// The text of a normalized entry in the logs pane.
pub fn format_normalized_entry(entry: &NormalizedEntry) -> (r: String)
    ensures
        r@ == normalized_entry_text(*entry),
{
    match &entry.entry_type {
        NormalizedEntryType::ToolUse { tool_name, action_type, status } => format_tool_use(
            tool_name.as_str(),
            action_type,
            *status,
            entry.content.as_str(),
        ),
        NormalizedEntryType::TokenUsageInfo { total_tokens, model_context_window } => {
            let mut out = String::new();
            push_str(&mut out, "context: ");
            push_decimal(&mut out, *total_tokens as u64);
            push_str(&mut out, " / ");
            push_decimal(&mut out, *model_context_window as u64);
            out
        },
        NormalizedEntryType::UserAnsweredQuestions { answers } => format_answers(answers),
        _ => {
            let label = entry_label_of(&entry.entry_type);
            let trimmed = trim_chars(&chars_of(entry.content.as_str()));
            let mut out = String::new();
            push_str(&mut out, label);
            if trimmed.len() > 0 {
                let t = string_of(trimmed.as_slice());
                push_str(&mut out, ": ");
                push_str(&mut out, t.as_str());
            }
            out
        },
    }
}

/// The word for what happened to a file.
pub open spec fn change_word(k: DiffChangeKind) -> Seq<char> {
    match k {
        DiffChangeKind::Added => "added"@,
        DiffChangeKind::Deleted => "deleted"@,
        DiffChangeKind::Modified => "modified"@,
        DiffChangeKind::Renamed => "renamed"@,
        DiffChangeKind::Copied => "copied"@,
        DiffChangeKind::PermissionChange => "chmod"@,
    }
}

fn change_word_of(k: DiffChangeKind) -> (r: &'static str)
    ensures
        r@ == change_word(k),
{
    match k {
        DiffChangeKind::Added => "added",
        DiffChangeKind::Deleted => "deleted",
        DiffChangeKind::Modified => "modified",
        DiffChangeKind::Renamed => "renamed",
        DiffChangeKind::Copied => "copied",
        DiffChangeKind::PermissionChange => "chmod",
    }
}

/// A log entry as text: output as it came, a diff as `<change> <file>`,
/// a normalized entry by its text form.
pub open spec fn patch_entry_text(p: PatchType) -> Seq<char> {
    match p {
        PatchType::Stdout(s) => s@,
        PatchType::Stderr(s) => s@,
        PatchType::Diff(d) => change_word(d.change) + " "@ + diff_title_text(d),
        PatchType::NormalizedEntry(e) => normalized_entry_text(e),
    }
}

/// The text of a log entry.
pub fn format_patch_entry(entry: &PatchType) -> (r: String)
    ensures
        r@ == patch_entry_text(*entry),
{
    match entry {
        PatchType::Stdout(s) => s.clone(),
        PatchType::Stderr(s) => s.clone(),
        PatchType::Diff(d) => {
            let title = diff_title(d);
            let mut out = String::new();
            push_str(&mut out, change_word_of(d.change));
            push_str(&mut out, " ");
            push_str(&mut out, title.as_str());
            out
        },
        PatchType::NormalizedEntry(e) => format_normalized_entry(e),
    }
}

} // verus!
