use ratatui::style::{Color, Modifier, Style};
use tui::conversation::markdown::MarkdownLine;
use tui::conversation::render::{
    render_chat_entry, render_log_entry, render_normalized_chat_entry,
    render_optimistic_chat_entry, styled_line, ChatLine, Hue, Look,
};
use tui::conversation::state::{
    ChatEntry, ChatEntryKind, ConversationScope, OptimisticConversationEntry, OptimisticState,
};
use tui::conversation::wrap::{wrap_line, wrap_lines, StyledLine, StyledSpan};
use tui::model::dto::{DiffChangeKind, LocalDiff};
use tui::model::entry::{
    format_normalized_entry, format_patch_entry, ActionType, AnsweredQuestion, EntryErrorKind,
    NormalizedEntry, NormalizedEntryType, PatchType, ToolStatus,
};

fn entry(entry_type: NormalizedEntryType, content: &str) -> NormalizedEntry {
    NormalizedEntry { entry_type, content: content.to_string() }
}

fn text_line(line: &ChatLine) -> &StyledLine<Look> {
    match line {
        ChatLine::Text(l) => l,
        ChatLine::Markdown { .. } => panic!("expected a text line"),
    }
}

fn contents<S>(line: &StyledLine<S>) -> Vec<String> {
    line.spans.iter().map(|s| s.content.clone()).collect()
}

fn diff(change: DiffChangeKind, old_path: Option<&str>, new_path: Option<&str>) -> LocalDiff {
    LocalDiff {
        change,
        old_path: old_path.map(str::to_string),
        new_path: new_path.map(str::to_string),
        old_content: None,
        new_content: None,
        content_omitted: false,
        additions: None,
        deletions: None,
        repo_id: None,
    }
}

#[test]
fn user_label_is_rendered_in_blue() {
    let lines = render_normalized_chat_entry(&entry(NormalizedEntryType::UserMessage, "Hello **world**"));
    let label = text_line(&lines[0]);
    assert_eq!(label.spans[0].content, "user");
    assert_eq!(label.style.fg, Hue::Blue);
    assert!(label.style.bold);
}

#[test]
fn assistant_label_is_rendered_in_green() {
    let lines = render_normalized_chat_entry(&entry(NormalizedEntryType::AssistantMessage, "Hi there"));
    let label = text_line(&lines[0]);
    assert_eq!(label.spans[0].content, "assistant");
    assert_eq!(label.style.fg, Hue::Green);
    assert!(label.style.bold);
}

#[test]
fn wrapped_label_preserves_line_color() {
    let line = StyledLine {
        spans: vec![StyledSpan { content: "assistant".to_string(), style: Style::default() }],
        style: Style::default().fg(Color::Green).add_modifier(Modifier::BOLD),
    };
    let lines = wrap_line(&line, 4);
    assert!(lines.iter().all(|line| line.style.fg == Some(Color::Green)));
}

#[test]
fn tool_entries_are_indented_in_chat() {
    let lines = render_normalized_chat_entry(&entry(
        NormalizedEntryType::ToolUse {
            tool_name: "shell".to_string(),
            action_type: ActionType::Other { description: "run".to_string() },
            status: ToolStatus::Success,
        },
        "done",
    ));
    let first = text_line(&lines[0]);
    assert_eq!(first.spans[0].content, "    ");
    assert_eq!(first.spans[1].content, "tool");
}

#[test]
fn tool_entry_lines_show_status_action_and_output() {
    let lines = render_normalized_chat_entry(&entry(
        NormalizedEntryType::ToolUse {
            tool_name: "bash".to_string(),
            action_type: ActionType::CommandRun { command: "ls".to_string() },
            status: ToolStatus::Failed,
        },
        "  a\nb  ",
    ));
    assert_eq!(lines.len(), 4);
    let head = text_line(&lines[0]);
    assert_eq!(contents(head), vec!["    ", "tool", " ", "bash", " ", "[failed]", " ", "cmd `ls`"]);
    assert_eq!(head.spans[5].style.fg, Hue::Red);
    assert_eq!(contents(text_line(&lines[1])), vec!["    ", "  a"]);
    assert_eq!(text_line(&lines[1]).style.fg, Hue::DarkGray);
    assert_eq!(contents(text_line(&lines[2])), vec!["    ", "  b"]);
    assert!(text_line(&lines[3]).spans.is_empty());
}

#[test]
fn labeled_entries_show_empty_marker_and_indent() {
    let lines = render_normalized_chat_entry(&entry(NormalizedEntryType::Thinking, "   "));
    assert_eq!(lines.len(), 3);
    assert_eq!(contents(text_line(&lines[0])), vec!["    ", "thinking"]);
    assert_eq!(contents(text_line(&lines[1])), vec!["    ", "  (empty)"]);
    assert!(text_line(&lines[2]).spans.is_empty());

    let system = render_normalized_chat_entry(&entry(NormalizedEntryType::SystemMessage, "x\ny"));
    assert_eq!(contents(text_line(&system[0])), vec!["system"]);
    assert_eq!(text_line(&system[0]).style.fg, Hue::Magenta);
    assert_eq!(contents(text_line(&system[1])), vec!["  x"]);
    assert_eq!(contents(text_line(&system[2])), vec!["  y"]);

    let next = render_normalized_chat_entry(&entry(NormalizedEntryType::NextAction { failed: true }, "go"));
    assert_eq!(text_line(&next[0]).style.fg, Hue::Red);

    let usage = render_normalized_chat_entry(&entry(
        NormalizedEntryType::TokenUsageInfo { total_tokens: 5, model_context_window: 10 },
        "",
    ));
    assert!(usage.is_empty());
}

#[test]
fn markdown_messages_keep_body_color() {
    let lines = render_normalized_chat_entry(&entry(NormalizedEntryType::AssistantMessage, "# Title\ntext"));
    assert_eq!(lines.len(), 4);
    assert!(text_line(&lines[0]).style.underlined);
    match &lines[1] {
        ChatLine::Markdown { line: MarkdownLine::Heading { level, .. }, body } => {
            assert_eq!(*level, 1);
            assert_eq!(*body, Hue::AssistantText);
        }
        _ => panic!("expected a heading"),
    }
    match &lines[2] {
        ChatLine::Markdown { line: MarkdownLine::Plain(spans), body } => {
            assert_eq!(spans[0].text, "text");
            assert_eq!(*body, Hue::AssistantText);
        }
        _ => panic!("expected plain markdown"),
    }
}

#[test]
fn output_entries_split_lines_into_runs() {
    let lines = render_chat_entry(&PatchType::Stdout("one\ntwo\n\n".to_string()));
    assert_eq!(lines.len(), 3);
    assert_eq!(contents(text_line(&lines[0])), vec!["    ", "stdout"]);
    assert_eq!(contents(text_line(&lines[1])), vec!["    ", "one", "two"]);
    assert_eq!(text_line(&lines[1]).style.fg, Hue::Gray);
    let empty = render_chat_entry(&PatchType::Stderr("   ".to_string()));
    assert!(text_line(&empty[1]).spans.is_empty());
    let d = render_chat_entry(&PatchType::Diff(diff(DiffChangeKind::Renamed, Some("a.rs"), Some("b.rs"))));
    assert_eq!(contents(text_line(&d[0])), vec!["    ", "diff b.rs"]);
    assert_eq!(contents(text_line(&d[1])), vec!["    ", "renamed b.rs"]);
}

#[test]
fn log_entries_are_numbered_and_colored() {
    let lines = render_log_entry(7, &PatchType::Stderr("bad\nworse".to_string()));
    assert_eq!(lines.len(), 3);
    assert_eq!(contents(&lines[0]), vec!["0007 ", "bad"]);
    assert_eq!(contents(&lines[1]), vec!["     ", "worse"]);
    assert_eq!(lines[0].spans[1].style.fg, Hue::Red);
    assert_eq!(lines[0].spans[0].style.fg, Hue::DarkGray);
    assert!(lines[2].spans.is_empty());
    let wide = render_log_entry(123456, &PatchType::Stdout("x".to_string()));
    assert_eq!(contents(&wide[0]), vec!["123456 ", "x"]);
}

#[test]
fn optimistic_entries_show_state_and_executor() {
    let e = OptimisticConversationEntry {
        local_id: 1,
        scope: ConversationScope::Session(2),
        message: "hi\nthere".to_string(),
        executor: "CODEX".to_string(),
        state: OptimisticState::Pending,
    };
    let lines = render_optimistic_chat_entry(&e);
    assert_eq!(lines.len(), 4);
    let head = text_line(&lines[0]);
    assert_eq!(contents(head), vec!["user", " ", "sending...", " ", "(CODEX)"]);
    assert_eq!(head.spans[2].style.fg, Hue::Yellow);
    assert_eq!(contents(text_line(&lines[1])), vec!["  hi"]);
    assert_eq!(contents(text_line(&lines[2])), vec!["  there"]);
}

#[test]
fn styled_lines_split_at_newlines() {
    let line = styled_line("a\r\nb\n", Look { fg: Hue::White, bold: false, underlined: false });
    assert_eq!(contents(text_line(&line)), vec!["a", "b"]);
    assert!(text_line(&styled_line("", Look { fg: Hue::White, bold: false, underlined: false }))
        .spans
        .is_empty());
}

#[test]
fn wrap_line_cuts_rows_of_width_chars() {
    let line = StyledLine {
        spans: vec![
            StyledSpan { content: "ab".to_string(), style: 1u8 },
            StyledSpan { content: "cde".to_string(), style: 2u8 },
        ],
        style: 9u8,
    };
    let rows = wrap_line(&line, 2);
    assert_eq!(rows.len(), 3);
    assert_eq!(contents(&rows[0]), vec!["a", "b"]);
    assert_eq!(contents(&rows[1]), vec!["c", "d"]);
    assert_eq!(contents(&rows[2]), vec!["e"]);
    assert_eq!(rows[1].spans[0].style, 2);
    assert!(rows.iter().all(|r| r.style == 9));
    assert!(wrap_line(&line, 0).is_empty());

    let lead = StyledLine {
        spans: vec![
            StyledSpan { content: String::new(), style: 3u8 },
            StyledSpan { content: String::new(), style: 4u8 },
            StyledSpan { content: "xyz".to_string(), style: 5u8 },
        ],
        style: 0u8,
    };
    let rows = wrap_line(&lead, 3);
    assert_eq!(rows.len(), 1);
    assert_eq!(contents(&rows[0]), vec!["", "x", "y", "z"]);
    assert_eq!(rows[0].spans[0].style, 3);

    let empty: StyledLine<u8> = StyledLine { spans: Vec::new(), style: 0 };
    let rows = wrap_line(&empty, 5);
    assert_eq!(rows.len(), 1);
    assert!(rows[0].spans.is_empty());
}

#[test]
fn wrap_lines_concatenates_rows() {
    let lines = vec![
        StyledLine { spans: vec![StyledSpan { content: "abc".to_string(), style: 0u8 }], style: 1u8 },
        StyledLine { spans: Vec::new(), style: 2u8 },
    ];
    let rows = wrap_lines(&lines, 2);
    assert_eq!(rows.len(), 3);
    assert_eq!(contents(&rows[1]), vec!["c"]);
    assert_eq!(rows[2].style, 2);
}

#[test]
fn patch_entries_format_as_text() {
    assert_eq!(format_patch_entry(&PatchType::Stdout(" out ".to_string())), " out ");
    assert_eq!(
        format_patch_entry(&PatchType::Diff(diff(DiffChangeKind::PermissionChange, Some("x"), None))),
        "chmod x"
    );
    assert_eq!(
        format_patch_entry(&PatchType::Diff(diff(DiffChangeKind::Added, None, None))),
        "added <unknown>"
    );
    let tool = entry(
        NormalizedEntryType::ToolUse {
            tool_name: "task".to_string(),
            action_type: ActionType::TaskCreate {
                description: "review".to_string(),
                subagent_type: Some("critic".to_string()),
            },
            status: ToolStatus::TimedOut,
        },
        " log \n",
    );
    assert_eq!(format_normalized_entry(&tool), "tool task [timed out] spawn critic: review\nlog");
    let plain_tool = entry(
        NormalizedEntryType::ToolUse {
            tool_name: "read".to_string(),
            action_type: ActionType::FileRead { path: "a.rs".to_string() },
            status: ToolStatus::PendingApproval,
        },
        "",
    );
    assert_eq!(format_normalized_entry(&plain_tool), "tool read [approval] read a.rs");
    assert_eq!(
        format_normalized_entry(&entry(
            NormalizedEntryType::TokenUsageInfo { total_tokens: 1200, model_context_window: 200000 },
            "",
        )),
        "context: 1200 / 200000"
    );
    assert_eq!(
        format_normalized_entry(&entry(
            NormalizedEntryType::ErrorMessage { error_type: EntryErrorKind::SetupRequired },
            "  login  ",
        )),
        "setup: login"
    );
    assert_eq!(
        format_normalized_entry(&entry(NormalizedEntryType::NextAction { failed: false }, " ")),
        "next action"
    );
    let answers = vec![
        AnsweredQuestion { question: "Color?".to_string(), answer: vec!["red".to_string(), "blue".to_string()] },
        AnsweredQuestion { question: "Size?".to_string(), answer: Vec::new() },
    ];
    assert_eq!(
        format_normalized_entry(&entry(NormalizedEntryType::UserAnsweredQuestions { answers }, "")),
        "Color?: red, blue\nSize?: "
    );
}

#[test]
fn chat_entries_keep_kind_and_content() {
    let user = ChatEntry::from_patch(&PatchType::NormalizedEntry(entry(NormalizedEntryType::UserMessage, "hi")));
    assert_eq!(user.kind, ChatEntryKind::UserMessage);
    assert_eq!(user.content, "hi");
    let usage = ChatEntry::from_patch(&PatchType::NormalizedEntry(entry(
        NormalizedEntryType::TokenUsageInfo { total_tokens: 3, model_context_window: 9 },
        "",
    )));
    assert_eq!(usage.kind, ChatEntryKind::TokenUsage { total_tokens: 3, context_window: 9 });
    let out = ChatEntry::from_patch(&PatchType::Stdout("o".to_string()));
    assert_eq!(out.kind, ChatEntryKind::Other);
    assert_eq!(out.content, "o");
}

#[test]
fn wrapping_keeps_every_char_in_order() {
    let line = StyledLine {
        spans: vec![
            StyledSpan { content: "hello ".to_string(), style: 0u8 },
            StyledSpan { content: String::new(), style: 1u8 },
            StyledSpan { content: "wörld".to_string(), style: 2u8 },
        ],
        style: 0u8,
    };
    let rows = wrap_line(&line, 4);
    let text: String = rows.iter().flat_map(|r| r.spans.iter().map(|s| s.content.clone())).collect();
    assert_eq!(text, "hello wörld");
    assert!(rows.iter().all(|r| r.spans.iter().filter(|s| !s.content.is_empty()).count() <= 4));
    assert_eq!(rows.len(), 3);
}

#[test]
fn log_line_count_adds_each_entry_and_its_blank_line() {
    let entries = vec![PatchType::Stdout("a\nb".to_string()), PatchType::Stderr(String::new())];
    assert_eq!(tui::conversation::render::log_entries_line_count(&entries), 4);
    assert_eq!(tui::conversation::render::log_entries_line_count(&Vec::new()), 0);
}
