//! How log entries are drawn in the chat and in the logs pane: labels,
//! colors, indentation and the lines of each entry. Colors are named here
//! and given their terminal values by the front end.
use vstd::prelude::*;

use crate::conversation::markdown::{
    line_view, lines_from, render_markdown_lines, rendered_lines, split_lines, LineView,
    MarkdownLine,
};
use crate::conversation::state::{OptimisticConversationEntry, OptimisticState};
use crate::conversation::wrap::{spans_view, StyledLine, StyledSpan};
use crate::model::entry::{
    action_text, answers_text, format_answers, format_patch_entry, patch_entry_text,
    summarize_action, NormalizedEntry, NormalizedEntryType, PatchType, ToolStatus,
};
use crate::model::format::{diff_title, diff_title_text};
use crate::text::{chars_of, decimal, push_decimal, push_str, string_of, trim, trim_chars, trim_end,
    trim_end_chars};

verus! {

/// A named color.
#[derive(Debug, Clone, Copy, PartialEq, Eq, Structural)]
pub enum Hue {
    /// No color of its own.
    Unset,
    Blue,
    Green,
    Magenta,
    Gray,
    DarkGray,
    LightBlue,
    Red,
    Cyan,
    LightCyan,
    Yellow,
    LightRed,
    White,
    /// The light blue of the user's messages.
    UserText,
    /// The light green of the assistant's messages.
    AssistantText,
}

/// How text is drawn: its color, and whether it is bold or underlined.
#[derive(Debug, Clone, Copy, PartialEq, Eq, Structural)]
pub struct Look {
    pub fg: Hue,
    pub bold: bool,
    pub underlined: bool,
}

/// A line of the chat: styled text, or a line of a markdown message drawn
/// over the message's body color.
#[derive(Debug, Clone)]
pub enum ChatLine {
    Text(StyledLine<Look>),
    Markdown { line: MarkdownLine, body: Hue },
}

/// A chat line as values.
pub enum ChatLineView {
    Text(Seq<(Seq<char>, Look)>, Look),
    Markdown(LineView, Hue),
}

/// A chat line as values.
pub open spec fn chat_line_view(l: ChatLine) -> ChatLineView {
    match l {
        ChatLine::Text(t) => ChatLineView::Text(spans_view(t.spans@), t.style),
        ChatLine::Markdown { line, body } => ChatLineView::Markdown(line_view(line), body),
    }
}

/// Chat lines as values.
pub open spec fn chat_view(v: Seq<ChatLine>) -> Seq<ChatLineView> {
    v.map_values(|l: ChatLine| chat_line_view(l))
}

/// No color, no emphasis.
pub open spec fn plain() -> Look {
    Look { fg: Hue::Unset, bold: false, underlined: false }
}

/// A color alone.
pub open spec fn tint(h: Hue) -> Look {
    Look { fg: h, bold: false, underlined: false }
}

/// A color, bold.
pub open spec fn strong(h: Hue) -> Look {
    Look { fg: h, bold: true, underlined: false }
}

/// Text given a line style: each line of the text becomes an unstyled run.
pub open spec fn text_line(text: Seq<char>, look: Look) -> ChatLineView {
    ChatLineView::Text(lines_from(text, 0).map_values(|t: Seq<char>| (t, plain())), look)
}

/// An empty line.
pub open spec fn blank() -> ChatLineView {
    ChatLineView::Text(Seq::empty(), plain())
}

/// A line shifted right by four spaces; an empty line stays as it is.
pub open spec fn indented(l: ChatLineView) -> ChatLineView {
    match l {
        ChatLineView::Text(spans, look) => if spans.len() == 0 {
            l
        } else {
            ChatLineView::Text(seq![("    "@, plain())] + spans, look)
        },
        ChatLineView::Markdown(_, _) => l,
    }
}

/// Each line shifted right.
pub open spec fn indent_all(ls: Seq<ChatLineView>) -> Seq<ChatLineView> {
    ls.map_values(|l: ChatLineView| indented(l))
}

/// Each line of `content`, after two spaces, in the given look.
pub open spec fn body_lines(content: Seq<char>, look: Look) -> Seq<ChatLineView> {
    lines_from(content, 0).map_values(|l: Seq<char>| text_line("  "@ + l, look))
}

/// A bold label, the lines of the content (or `(empty)`), and a blank line.
pub open spec fn labeled(label: Seq<char>, hue: Hue, content: Seq<char>) -> Seq<ChatLineView> {
    seq![text_line(label, strong(hue))] + (if content.len() == 0 {
        seq![text_line("  (empty)"@, tint(Hue::DarkGray))]
    } else {
        body_lines(content, tint(Hue::White))
    }) + seq![blank()]
}

/// A bold underlined label, the content rendered as markdown over the body
/// color (or `(empty)`), and a blank line.
pub open spec fn markdown_labeled(label: Seq<char>, hue: Hue, body: Hue, content: Seq<char>) -> Seq<
    ChatLineView,
> {
    seq![text_line(label, Look { fg: hue, bold: true, underlined: true })] + (if content.len() == 0 {
        seq![text_line("  (empty)"@, tint(Hue::DarkGray))]
    } else {
        rendered_lines(content).map_values(|l: LineView| ChatLineView::Markdown(l, body))
    }) + seq![blank()]
}

/// A tool call's status as the chat shows it.
pub open spec fn status_tag(s: ToolStatus) -> Seq<char> {
    match s {
        ToolStatus::Created => "[created]"@,
        ToolStatus::Success => "[success]"@,
        ToolStatus::Failed => "[failed]"@,
        ToolStatus::Denied => "[denied]"@,
        ToolStatus::PendingApproval => "[pendingapproval]"@,
        ToolStatus::TimedOut => "[timedout]"@,
    }
}

/// The color of a tool call's status.
pub open spec fn status_hue(s: ToolStatus) -> Hue {
    match s {
        ToolStatus::Success => Hue::Green,
        ToolStatus::Failed | ToolStatus::Denied => Hue::Red,
        ToolStatus::PendingApproval => Hue::Yellow,
        ToolStatus::TimedOut => Hue::LightRed,
        ToolStatus::Created => Hue::Cyan,
    }
}

/// A tool call in the chat, indented: `tool <name> [<status>] <action>`,
/// the lines of its output in dark gray, and a blank line.
pub open spec fn tool_lines(name: Seq<char>, action: Seq<char>, status: ToolStatus, content: Seq<
    char,
>) -> Seq<ChatLineView> {
    indent_all(
        seq![
            ChatLineView::Text(
                seq![
                    ("tool"@, strong(Hue::Cyan)),
                    (" "@, plain()),
                    (name, tint(Hue::LightCyan)),
                    (" "@, plain()),
                    (status_tag(status), tint(status_hue(status))),
                    (" "@, plain()),
                    (action, tint(Hue::Gray)),
                ],
                plain(),
            ),
        ] + (if content.len() == 0 {
            Seq::empty()
        } else {
            body_lines(content, tint(Hue::DarkGray))
        }) + seq![blank()],
    )
}

/// A normalized entry in the chat. User and assistant messages are shown
/// as markdown; token usage is not shown; every other kind is an indented
/// labeled block, but system messages, which are not indented.
pub open spec fn normalized_chat_lines(e: NormalizedEntry) -> Seq<ChatLineView> {
    let content = trim(e.content@);
    match e.entry_type {
        NormalizedEntryType::ToolUse { tool_name, action_type, status } => tool_lines(
            tool_name@,
            action_text(action_type),
            status,
            content,
        ),
        NormalizedEntryType::TokenUsageInfo { .. } => Seq::empty(),
        NormalizedEntryType::UserMessage => markdown_labeled(
            "user"@,
            Hue::Blue,
            Hue::UserText,
            content,
        ),
        NormalizedEntryType::AssistantMessage => markdown_labeled(
            "assistant"@,
            Hue::Green,
            Hue::AssistantText,
            content,
        ),
        NormalizedEntryType::SystemMessage => labeled("system"@, Hue::Magenta, content),
        NormalizedEntryType::Thinking => indent_all(labeled("thinking"@, Hue::Gray, content)),
        NormalizedEntryType::Loading => indent_all(labeled("loading"@, Hue::DarkGray, content)),
        NormalizedEntryType::UserFeedback => indent_all(labeled("feedback"@, Hue::LightBlue, content)),
        NormalizedEntryType::ErrorMessage { .. } => indent_all(labeled("error"@, Hue::Red, content)),
        NormalizedEntryType::NextAction { failed } => indent_all(
            labeled(
                "next"@,
                if failed {
                    Hue::Red
                } else {
                    Hue::Cyan
                },
                content,
            ),
        ),
        NormalizedEntryType::UserAnsweredQuestions { answers } => indent_all(
            labeled("answers"@, Hue::LightBlue, answers_text(answers@)),
        ),
    }
}

/// A log entry in the chat: a normalized entry as such; output under a
/// `stdout` or `stderr` heading; a diff under `diff <file>`; all indented.
pub open spec fn chat_entry_lines(p: PatchType) -> Seq<ChatLineView> {
    match p {
        PatchType::NormalizedEntry(e) => normalized_chat_lines(e),
        PatchType::Stdout(out) => indent_all(
            seq![
                text_line("stdout"@, strong(Hue::Blue)),
                text_line(trim_end(out@), tint(Hue::Gray)),
                blank(),
            ],
        ),
        PatchType::Stderr(out) => indent_all(
            seq![
                text_line("stderr"@, strong(Hue::Red)),
                text_line(trim_end(out@), tint(Hue::LightRed)),
                blank(),
            ],
        ),
        PatchType::Diff(d) => indent_all(
            seq![
                text_line("diff "@ + diff_title_text(d), strong(Hue::Magenta)),
                text_line(patch_entry_text(p), tint(Hue::Gray)),
                blank(),
            ],
        ),
    }
}

fn plain_look() -> (r: Look)
    ensures
        r == plain(),
{
    Look { fg: Hue::Unset, bold: false, underlined: false }
}

fn tint_look(h: Hue) -> (r: Look)
    ensures
        r == tint(h),
{
    Look { fg: h, bold: false, underlined: false }
}

fn strong_look(h: Hue) -> (r: Look)
    ensures
        r == strong(h),
{
    Look { fg: h, bold: true, underlined: false }
}

fn text_span(text: &str, look: Look) -> (r: StyledSpan<Look>)
    ensures
        r.content@ == text@,
        r.style == look,
{
    let mut content = String::new();
    push_str(&mut content, text);
    StyledSpan { content, style: look }
}

/// Text with a line style, each of its lines an unstyled run.
pub fn styled_line(text: &str, look: Look) -> (r: ChatLine)
    ensures
        chat_line_view(r) == text_line(text@, look),
{
    let v = chars_of(text);
    let parts = split_lines(&v);
    let ghost want = lines_from(text@, 0).map_values(|t: Seq<char>| (t, plain()));
    let mut spans: Vec<StyledSpan<Look>> = Vec::new();
    let mut i: usize = 0;
    while i < parts.len()
        invariant
            v@ == text@,
            i <= parts@.len() == lines_from(v@, 0).len(),
            forall|k: int| 0 <= k < parts@.len() ==> (#[trigger] parts@[k])@ == lines_from(v@, 0)[k],
            want == lines_from(text@, 0).map_values(|t: Seq<char>| (t, plain())),
            spans_view(spans@) == want.take(i as int),
        decreases parts@.len() - i,
    {
        let piece = string_of(parts[i].as_slice());
        let ghost before = spans@;
        spans.push(StyledSpan { content: piece, style: plain_look() });
        proof {
            assert(spans@ == before.push(StyledSpan { content: piece, style: plain() }));
            assert(spans_view(spans@) =~= spans_view(before).push((piece@, plain())));
            assert(want.take(i + 1) =~= want.take(i as int).push(want[i as int]));
            assert(want[i as int] == (lines_from(text@, 0)[i as int], plain()));
            assert(spans_view(spans@) =~= want.take(i + 1));
        }
        i = i + 1;
    }
    proof {
        assert(want.take(parts@.len() as int) =~= want);
    }
    ChatLine::Text(StyledLine { spans, style: look })
}

/// An empty line.
pub fn blank_line() -> (r: ChatLine)
    ensures
        chat_line_view(r) == blank(),
{
    let spans: Vec<StyledSpan<Look>> = Vec::new();
    proof {
        assert(spans_view(spans@) =~= Seq::<(Seq<char>, Look)>::empty());
    }
    ChatLine::Text(StyledLine { spans, style: plain_look() })
}

fn indent_line(line: ChatLine) -> (r: ChatLine)
    ensures
        chat_line_view(r) == indented(chat_line_view(line)),
{
    match line {
        ChatLine::Text(t) => {
            if t.spans.len() == 0 {
                ChatLine::Text(t)
            } else {
                let mut spans: Vec<StyledSpan<Look>> = Vec::new();
                spans.push(text_span("    ", plain_look()));
                let mut rest = t.spans;
                let ghost tail = rest@;
                let ghost head = spans@;
                spans.append(&mut rest);
                proof {
                    reveal_strlit("    ");
                    assert(spans@ == head + tail);
                    assert(spans_view(spans@) =~= seq![("    "@, plain())] + spans_view(tail));
                }
                ChatLine::Text(StyledLine { spans, style: t.style })
            }
        },
        ChatLine::Markdown { line, body } => ChatLine::Markdown { line, body },
    }
}

/// Shifts each line right by four spaces, leaving empty lines alone.
pub fn indent_chat_lines(lines: Vec<ChatLine>) -> (r: Vec<ChatLine>)
    ensures
        chat_view(r@) == indent_all(chat_view(lines@)),
{
    let mut out: Vec<ChatLine> = Vec::new();
    let mut src = lines;
    let ghost all = src@;
    while src.len() > 0
        invariant
            out@.len() + src@.len() == all.len(),
            src@ == all.skip(out@.len() as int),
            chat_view(out@) == indent_all(chat_view(all)).take(out@.len() as int),
        decreases src@.len(),
    {
        let ghost k = out@.len() as int;
        let line = src.remove(0);
        proof {
            assert(line == all[k]);
            assert(src@ =~= all.skip(k + 1));
        }
        let moved = indent_line(line);
        let ghost before = out@;
        out.push(moved);
        proof {
            assert(out@ == before.push(moved));
            assert(chat_view(out@) =~= indent_all(chat_view(all)).take(k + 1));
        }
    }
    proof {
        assert(indent_all(chat_view(all)).take(all.len() as int) =~= indent_all(chat_view(all)));
    }
    out
}

/// Markdown lines drawn over a body color.
fn markdown_chat_lines(md: Vec<MarkdownLine>, body: Hue) -> (r: Vec<ChatLine>)
    ensures
        chat_view(r@) == md@.map_values(|l: MarkdownLine| line_view(l)).map_values(
            |l: LineView| ChatLineView::Markdown(l, body),
        ),
{
    let ghost want = md@.map_values(|l: MarkdownLine| line_view(l)).map_values(
        |l: LineView| ChatLineView::Markdown(l, body),
    );
    let mut out: Vec<ChatLine> = Vec::new();
    let mut src = md;
    let ghost all = src@;
    while src.len() > 0
        invariant
            out@.len() + src@.len() == all.len(),
            src@ == all.skip(out@.len() as int),
            want == all.map_values(|l: MarkdownLine| line_view(l)).map_values(
                |l: LineView| ChatLineView::Markdown(l, body),
            ),
            chat_view(out@) == want.take(out@.len() as int),
        decreases src@.len(),
    {
        let ghost k = out@.len() as int;
        let line = src.remove(0);
        proof {
            assert(line == all[k]);
            assert(src@ =~= all.skip(k + 1));
        }
        let ghost before = out@;
        out.push(ChatLine::Markdown { line, body });
        proof {
            assert(out@ == before.push(ChatLine::Markdown { line, body }));
            assert(chat_view(out@) =~= want.take(k + 1));
        }
    }
    proof {
        assert(want.take(all.len() as int) =~= want);
    }
    out
}

/// Appends the lines of `content`, each after two spaces, in one look.
fn push_body_lines(out: &mut Vec<ChatLine>, content: &str, look: Look)
    ensures
        chat_view(final(out)@) == chat_view(old(out)@) + body_lines(content@, look),
{
    let v = chars_of(content);
    let parts = split_lines(&v);
    let ghost base = chat_view(out@);
    let ghost want = body_lines(content@, look);
    let mut i: usize = 0;
    while i < parts.len()
        invariant
            v@ == content@,
            i <= parts@.len() == lines_from(v@, 0).len(),
            forall|k: int| 0 <= k < parts@.len() ==> (#[trigger] parts@[k])@ == lines_from(v@, 0)[k],
            want == body_lines(content@, look),
            chat_view(out@) == base + want.take(i as int),
        decreases parts@.len() - i,
    {
        let mut text = String::new();
        push_str(&mut text, "  ");
        let piece = string_of(parts[i].as_slice());
        push_str(&mut text, piece.as_str());
        let line = styled_line(text.as_str(), look);
        let ghost before = out@;
        out.push(line);
        proof {
            assert(out@ == before.push(line));
            assert(want[i as int] == text_line("  "@ + lines_from(content@, 0)[i as int], look));
            assert(text@ == "  "@ + lines_from(content@, 0)[i as int]);
            assert(chat_view(out@) =~= chat_view(before).push(chat_line_view(line)));
            assert(want.take(i + 1) =~= want.take(i as int).push(want[i as int]));
            assert(chat_view(out@) =~= base + want.take(i + 1));
        }
        i = i + 1;
    }
    proof {
        assert(want.take(parts@.len() as int) =~= want);
    }
}

fn push_line(out: &mut Vec<ChatLine>, line: ChatLine)
    ensures
        chat_view(final(out)@) == chat_view(old(out)@).push(chat_line_view(line)),
{
    out.push(line);
    proof {
        assert(chat_view(out@) =~= chat_view(old(out)@).push(chat_line_view(line)));
    }
}

/// A bold label, the lines of the content (or `(empty)`), and a blank line.
pub fn render_labeled_content(label: &str, hue: Hue, content: &str) -> (r: Vec<ChatLine>)
    ensures
        chat_view(r@) == labeled(label@, hue, content@),
{
    let mut out: Vec<ChatLine> = Vec::new();
    proof {
        assert(chat_view(out@) =~= Seq::<ChatLineView>::empty());
    }
    push_line(&mut out, styled_line(label, strong_look(hue)));
    if chars_of(content).len() == 0 {
        push_line(&mut out, styled_line("  (empty)", tint_look(Hue::DarkGray)));
    } else {
        push_body_lines(&mut out, content, tint_look(Hue::White));
    }
    push_line(&mut out, blank_line());
    proof {
        assert(chat_view(out@) =~= labeled(label@, hue, content@));
    }
    out
}

/// A bold underlined label, the content rendered as markdown over the body
/// color (or `(empty)`), and a blank line.
pub fn render_markdown_labeled_content(label: &str, hue: Hue, body: Hue, content: &str) -> (r: Vec<
    ChatLine,
>)
    ensures
        chat_view(r@) == markdown_labeled(label@, hue, body, content@),
{
    let mut out: Vec<ChatLine> = Vec::new();
    proof {
        assert(chat_view(out@) =~= Seq::<ChatLineView>::empty());
    }
    push_line(&mut out, styled_line(label, Look { fg: hue, bold: true, underlined: true }));
    if chars_of(content).len() == 0 {
        push_line(&mut out, styled_line("  (empty)", tint_look(Hue::DarkGray)));
    } else {
        let md = render_markdown_lines(content);
        let mut lines = markdown_chat_lines(md, body);
        let ghost before = out@;
        let ghost added = lines@;
        out.append(&mut lines);
        proof {
            assert(out@ == before + added);
            assert(chat_view(out@) =~= chat_view(before) + chat_view(added));
        }
    }
    push_line(&mut out, blank_line());
    proof {
        assert(chat_view(out@) =~= markdown_labeled(label@, hue, body, content@));
    }
    out
}

fn status_tag_of(s: ToolStatus) -> (r: &'static str)
    ensures
        r@ == status_tag(s),
{
    match s {
        ToolStatus::Created => "[created]",
        ToolStatus::Success => "[success]",
        ToolStatus::Failed => "[failed]",
        ToolStatus::Denied => "[denied]",
        ToolStatus::PendingApproval => "[pendingapproval]",
        ToolStatus::TimedOut => "[timedout]",
    }
}

fn status_hue_of(s: ToolStatus) -> (r: Hue)
    ensures
        r == status_hue(s),
{
    match s {
        ToolStatus::Success => Hue::Green,
        ToolStatus::Failed | ToolStatus::Denied => Hue::Red,
        ToolStatus::PendingApproval => Hue::Yellow,
        ToolStatus::TimedOut => Hue::LightRed,
        ToolStatus::Created => Hue::Cyan,
    }
}

fn push_span(spans: &mut Vec<StyledSpan<Look>>, text: &str, look: Look)
    ensures
        spans_view(final(spans)@) == spans_view(old(spans)@).push((text@, look)),
{
    let span = text_span(text, look);
    spans.push(span);
    proof {
        assert(spans_view(spans@) =~= spans_view(old(spans)@).push((text@, look)));
    }
}

/// A tool call in the chat, indented: its header, the lines of its
/// (trimmed) output, and a blank line.
pub fn render_tool_use(name: &str, action: &str, status: ToolStatus, content: &str) -> (r: Vec<
    ChatLine,
>)
    ensures
        chat_view(r@) == tool_lines(name@, action@, status, content@),
{
    let mut spans: Vec<StyledSpan<Look>> = Vec::new();
    proof {
        assert(spans_view(spans@) =~= Seq::<(Seq<char>, Look)>::empty());
    }
    push_span(&mut spans, "tool", strong_look(Hue::Cyan));
    push_span(&mut spans, " ", plain_look());
    push_span(&mut spans, name, tint_look(Hue::LightCyan));
    push_span(&mut spans, " ", plain_look());
    push_span(&mut spans, status_tag_of(status), tint_look(status_hue_of(status)));
    push_span(&mut spans, " ", plain_look());
    push_span(&mut spans, action, tint_look(Hue::Gray));
    let mut lines: Vec<ChatLine> = Vec::new();
    proof {
        assert(chat_view(lines@) =~= Seq::<ChatLineView>::empty());
    }
    let ghost header = spans_view(spans@);
    push_line(&mut lines, ChatLine::Text(StyledLine { spans, style: plain_look() }));
    if chars_of(content).len() > 0 {
        push_body_lines(&mut lines, content, tint_look(Hue::DarkGray));
    }
    push_line(&mut lines, blank_line());
    proof {
        assert(header =~= seq![
            ("tool"@, strong(Hue::Cyan)),
            (" "@, plain()),
            (name@, tint(Hue::LightCyan)),
            (" "@, plain()),
            (status_tag(status), tint(status_hue(status))),
            (" "@, plain()),
            (action@, tint(Hue::Gray)),
        ]);
        let unindented = seq![ChatLineView::Text(header, plain())] + (if content@.len() == 0 {
            Seq::empty()
        } else {
            body_lines(content@, tint(Hue::DarkGray))
        }) + seq![blank()];
        assert(chat_view(lines@) =~= unindented);
    }
    indent_chat_lines(lines)
}

/// The lines of a normalized entry in the chat.
pub fn render_normalized_chat_entry(entry: &NormalizedEntry) -> (r: Vec<ChatLine>)
    ensures
        chat_view(r@) == normalized_chat_lines(*entry),
{
    let trimmed = trim_chars(&chars_of(entry.content.as_str()));
    let content = string_of(trimmed.as_slice());
    match &entry.entry_type {
        NormalizedEntryType::ToolUse { tool_name, action_type, status } => {
            let action = summarize_action(action_type);
            render_tool_use(tool_name.as_str(), action.as_str(), *status, content.as_str())
        },
        NormalizedEntryType::TokenUsageInfo { .. } => {
            let none: Vec<ChatLine> = Vec::new();
            proof {
                assert(chat_view(none@) =~= Seq::<ChatLineView>::empty());
            }
            none
        },
        NormalizedEntryType::UserMessage => render_markdown_labeled_content(
            "user",
            Hue::Blue,
            Hue::UserText,
            content.as_str(),
        ),
        NormalizedEntryType::AssistantMessage => render_markdown_labeled_content(
            "assistant",
            Hue::Green,
            Hue::AssistantText,
            content.as_str(),
        ),
        NormalizedEntryType::SystemMessage => render_labeled_content(
            "system",
            Hue::Magenta,
            content.as_str(),
        ),
        NormalizedEntryType::Thinking => indent_chat_lines(
            render_labeled_content("thinking", Hue::Gray, content.as_str()),
        ),
        NormalizedEntryType::Loading => indent_chat_lines(
            render_labeled_content("loading", Hue::DarkGray, content.as_str()),
        ),
        NormalizedEntryType::UserFeedback => indent_chat_lines(
            render_labeled_content("feedback", Hue::LightBlue, content.as_str()),
        ),
        NormalizedEntryType::ErrorMessage { .. } => indent_chat_lines(
            render_labeled_content("error", Hue::Red, content.as_str()),
        ),
        NormalizedEntryType::NextAction { failed } => {
            let hue = if *failed {
                Hue::Red
            } else {
                Hue::Cyan
            };
            indent_chat_lines(render_labeled_content("next", hue, content.as_str()))
        },
        NormalizedEntryType::UserAnsweredQuestions { answers } => {
            let text = format_answers(answers);
            indent_chat_lines(render_labeled_content("answers", Hue::LightBlue, text.as_str()))
        },
    }
}

fn three_lines(a: ChatLine, b: ChatLine, c: ChatLine) -> (r: Vec<ChatLine>)
    ensures
        chat_view(r@) == seq![chat_line_view(a), chat_line_view(b), chat_line_view(c)],
{
    let mut out: Vec<ChatLine> = Vec::new();
    proof {
        assert(chat_view(out@) =~= Seq::<ChatLineView>::empty());
    }
    push_line(&mut out, a);
    push_line(&mut out, b);
    push_line(&mut out, c);
    proof {
        assert(chat_view(out@) =~= seq![chat_line_view(a), chat_line_view(b), chat_line_view(c)]);
    }
    out
}

/// The lines of a log entry in the chat.
pub fn render_chat_entry(entry: &PatchType) -> (r: Vec<ChatLine>)
    ensures
        chat_view(r@) == chat_entry_lines(*entry),
{
    match entry {
        PatchType::NormalizedEntry(e) => render_normalized_chat_entry(e),
        PatchType::Stdout(output) => {
            let t = string_of(trim_end_chars(&chars_of(output.as_str())).as_slice());
            indent_chat_lines(
                three_lines(
                    styled_line("stdout", strong_look(Hue::Blue)),
                    styled_line(t.as_str(), tint_look(Hue::Gray)),
                    blank_line(),
                ),
            )
        },
        PatchType::Stderr(output) => {
            let t = string_of(trim_end_chars(&chars_of(output.as_str())).as_slice());
            indent_chat_lines(
                three_lines(
                    styled_line("stderr", strong_look(Hue::Red)),
                    styled_line(t.as_str(), tint_look(Hue::LightRed)),
                    blank_line(),
                ),
            )
        },
        PatchType::Diff(d) => {
            let mut heading = String::new();
            push_str(&mut heading, "diff ");
            let title = diff_title(d);
            push_str(&mut heading, title.as_str());
            let text = format_patch_entry(entry);
            indent_chat_lines(
                three_lines(
                    styled_line(heading.as_str(), strong_look(Hue::Magenta)),
                    styled_line(text.as_str(), tint_look(Hue::Gray)),
                    blank_line(),
                ),
            )
        },
    }
}

/// The color a log entry is shown in, in the logs pane.
pub open spec fn log_hue(p: PatchType) -> Hue {
    match p {
        PatchType::NormalizedEntry(e) => match e.entry_type {
            NormalizedEntryType::ToolUse { .. } => Hue::Cyan,
            NormalizedEntryType::TokenUsageInfo { .. } => Hue::Yellow,
            NormalizedEntryType::AssistantMessage => Hue::Green,
            NormalizedEntryType::UserMessage => Hue::Blue,
            NormalizedEntryType::ErrorMessage { .. } => Hue::Red,
            _ => Hue::Gray,
        },
        PatchType::Stdout(_) => Hue::Gray,
        PatchType::Stderr(_) => Hue::Red,
        PatchType::Diff(_) => Hue::Magenta,
    }
}

fn log_hue_of(p: &PatchType) -> (r: Hue)
    ensures
        r == log_hue(*p),
{
    match p {
        PatchType::NormalizedEntry(e) => match &e.entry_type {
            NormalizedEntryType::ToolUse { .. } => Hue::Cyan,
            NormalizedEntryType::TokenUsageInfo { .. } => Hue::Yellow,
            NormalizedEntryType::AssistantMessage => Hue::Green,
            NormalizedEntryType::UserMessage => Hue::Blue,
            NormalizedEntryType::ErrorMessage { .. } => Hue::Red,
            _ => Hue::Gray,
        },
        PatchType::Stdout(_) => Hue::Gray,
        PatchType::Stderr(_) => Hue::Red,
        PatchType::Diff(_) => Hue::Magenta,
    }
}

/// `digits` padded with zeros on the left to `width` chars.
pub open spec fn zero_padded(digits: Seq<char>, width: nat) -> Seq<char> {
    if digits.len() >= width {
        digits
    } else {
        Seq::new((width - digits.len()) as nat, |i: int| '0') + digits
    }
}

/// The margin of a log entry's `k`th line: the entry's number in four
/// digits and a space on the first line, five spaces on the others.
pub open spec fn log_margin(index: nat, k: int) -> Seq<char> {
    if k == 0 {
        zero_padded(decimal(index), 4) + " "@
    } else {
        "     "@
    }
}

/// A log entry in the logs pane: each line of its text after its margin
/// (in dark gray) in the entry's color, then a blank line.
pub open spec fn log_lines(index: nat, p: PatchType) -> Seq<(Seq<(Seq<char>, Look)>, Look)> {
    let ls = lines_from(patch_entry_text(p), 0);
    Seq::new(
        ls.len(),
        |k: int| (seq![(log_margin(index, k), tint(Hue::DarkGray)), (ls[k], tint(log_hue(p)))], plain()),
    ).push((Seq::empty(), plain()))
}

fn log_margin_of(index: usize, k: usize) -> (r: String)
    ensures
        r@ == log_margin(index as nat, k as int),
{
    let mut out = String::new();
    if k == 0 {
        let mut digits = String::new();
        push_decimal(&mut digits, index as u64);
        let dv = chars_of(digits.as_str());
        let mut pad: usize = 0;
        if dv.len() < 4 {
            pad = 4 - dv.len();
        }
        let mut i: usize = 0;
        while i < pad
            invariant
                i <= pad,
                out@ == Seq::new(i as nat, |j: int| '0'),
            decreases pad - i,
        {
            crate::text::push_char(&mut out, '0');
            i = i + 1;
            proof {
                assert(out@ =~= Seq::new(i as nat, |j: int| '0'));
            }
        }
        push_str(&mut out, digits.as_str());
        push_str(&mut out, " ");
        proof {
            if dv@.len() >= 4 {
                assert(out@ =~= zero_padded(decimal(index as nat), 4) + " "@);
            } else {
                assert(out@ =~= zero_padded(decimal(index as nat), 4) + " "@);
            }
        }
    } else {
        push_str(&mut out, "     ");
    }
    out
}

/// The lines of a log entry in the logs pane, numbered `index`.
pub fn render_log_entry(index: usize, entry: &PatchType) -> (r: Vec<StyledLine<Look>>)
    ensures
        r@.map_values(|l: StyledLine<Look>| crate::conversation::wrap::styled_view(l)) == log_lines(
            index as nat,
            *entry,
        ),
{
    let hue = log_hue_of(entry);
    let text = format_patch_entry(entry);
    let v = chars_of(text.as_str());
    let parts = split_lines(&v);
    let ghost ls = lines_from(patch_entry_text(*entry), 0);
    let ghost want = log_lines(index as nat, *entry);
    let mut out: Vec<StyledLine<Look>> = Vec::new();
    let mut k: usize = 0;
    while k < parts.len()
        invariant
            v@ == patch_entry_text(*entry),
            ls == lines_from(v@, 0),
            hue == log_hue(*entry),
            want == log_lines(index as nat, *entry),
            k <= parts@.len() == ls.len(),
            forall|j: int| 0 <= j < parts@.len() ==> (#[trigger] parts@[j])@ == ls[j],
            out@.map_values(|l: StyledLine<Look>| crate::conversation::wrap::styled_view(l))
                == want.take(k as int),
        decreases parts@.len() - k,
    {
        let margin = log_margin_of(index, k);
        let piece = string_of(parts[k].as_slice());
        let mut spans: Vec<StyledSpan<Look>> = Vec::new();
        proof {
            assert(spans_view(spans@) =~= Seq::<(Seq<char>, Look)>::empty());
        }
        push_span(&mut spans, margin.as_str(), tint_look(Hue::DarkGray));
        push_span(&mut spans, piece.as_str(), tint_look(hue));
        let line = StyledLine { spans, style: plain_look() };
        let ghost before = out@;
        out.push(line);
        proof {
            assert(want[k as int] == (
                seq![(log_margin(index as nat, k as int), tint(Hue::DarkGray)), (ls[k as int], tint(hue))],
                plain(),
            ));
            assert(spans_view(line.spans@) =~= seq![
                (log_margin(index as nat, k as int), tint(Hue::DarkGray)),
                (ls[k as int], tint(hue)),
            ]);
            assert(out@ == before.push(line));
            assert(want.take(k + 1) =~= want.take(k as int).push(want[k as int]));
            assert(out@.map_values(|l: StyledLine<Look>| crate::conversation::wrap::styled_view(l))
                =~= want.take(k + 1));
        }
        k = k + 1;
    }
    let empty: Vec<StyledSpan<Look>> = Vec::new();
    let ghost before = out@;
    out.push(StyledLine { spans: empty, style: plain_look() });
    proof {
        assert(spans_view(empty@) =~= Seq::<(Seq<char>, Look)>::empty());
        assert(want.take(parts@.len() as int).push((Seq::empty(), plain())) =~= want);
        assert(out@.map_values(|l: StyledLine<Look>| crate::conversation::wrap::styled_view(l))
            =~= want);
    }
    out
}

/// A prompt shown before the backend confirms it: `user`, its state
/// (`sending...` in yellow or `failed` in red) and the executor in
/// brackets; then its lines, and a blank line.
pub open spec fn optimistic_lines(message: Seq<char>, executor: Seq<char>, state: OptimisticState) -> Seq<
    ChatLineView,
> {
    let status = match state {
        OptimisticState::Pending => "sending..."@,
        OptimisticState::Failed => "failed"@,
    };
    let hue = match state {
        OptimisticState::Pending => Hue::Yellow,
        OptimisticState::Failed => Hue::Red,
    };
    seq![
        ChatLineView::Text(
            seq![
                ("user"@, strong(Hue::Blue)),
                (" "@, plain()),
                (status, tint(hue)),
                (" "@, plain()),
                ("("@ + executor + ")"@, tint(Hue::DarkGray)),
            ],
            plain(),
        ),
    ] + body_lines(message, tint(Hue::White)) + seq![blank()]
}

/// The lines of a prompt not yet confirmed by the backend.
pub fn render_optimistic_chat_entry(entry: &OptimisticConversationEntry) -> (r: Vec<ChatLine>)
    ensures
        chat_view(r@) == optimistic_lines(entry.message@, entry.executor@, entry.state),
{
    let (status, hue) = match entry.state {
        OptimisticState::Pending => ("sending...", Hue::Yellow),
        OptimisticState::Failed => ("failed", Hue::Red),
    };
    let mut bracketed = String::new();
    push_str(&mut bracketed, "(");
    push_str(&mut bracketed, entry.executor.as_str());
    push_str(&mut bracketed, ")");
    let mut spans: Vec<StyledSpan<Look>> = Vec::new();
    proof {
        assert(spans_view(spans@) =~= Seq::<(Seq<char>, Look)>::empty());
    }
    push_span(&mut spans, "user", strong_look(Hue::Blue));
    push_span(&mut spans, " ", plain_look());
    push_span(&mut spans, status, tint_look(hue));
    push_span(&mut spans, " ", plain_look());
    push_span(&mut spans, bracketed.as_str(), tint_look(Hue::DarkGray));
    let ghost header = spans_view(spans@);
    let mut out: Vec<ChatLine> = Vec::new();
    proof {
        assert(chat_view(out@) =~= Seq::<ChatLineView>::empty());
    }
    push_line(&mut out, ChatLine::Text(StyledLine { spans, style: plain_look() }));
    push_body_lines(&mut out, entry.message.as_str(), tint_look(Hue::White));
    push_line(&mut out, blank_line());
    proof {
        let st = match entry.state {
            OptimisticState::Pending => "sending..."@,
            OptimisticState::Failed => "failed"@,
        };
        let h = match entry.state {
            OptimisticState::Pending => Hue::Yellow,
            OptimisticState::Failed => Hue::Red,
        };
        assert(status@ == st && hue == h);
        assert(header =~= seq![
            ("user"@, strong(Hue::Blue)),
            (" "@, plain()),
            (st, tint(h)),
            (" "@, plain()),
            ("("@ + entry.executor@ + ")"@, tint(Hue::DarkGray)),
        ]);
        assert(chat_view(out@) =~= optimistic_lines(entry.message@, entry.executor@, entry.state));
    }
    out
}

/// How many lines the first `n` log entries take in the logs pane: each
/// its text's lines and a blank line.
pub open spec fn log_line_total(entries: Seq<PatchType>, n: int) -> int
    decreases n,
{
    if n <= 0 {
        0
    } else {
        log_line_total(entries, n - 1) + lines_from(patch_entry_text(entries[n - 1]), 0).len() + 1
    }
}

/// How many lines the log entries take in the logs pane. The total must
/// fit in a `usize`.
pub fn log_entries_line_count(entries: &Vec<PatchType>) -> (r: usize)
    requires
        log_line_total(entries@, entries@.len() as int) <= usize::MAX,
    ensures
        r == log_line_total(entries@, entries@.len() as int),
{
    let mut total: usize = 0;
    let mut i: usize = 0;
    while i < entries.len()
        invariant
            i <= entries@.len(),
            total == log_line_total(entries@, i as int),
            log_line_total(entries@, entries@.len() as int) <= usize::MAX,
        decreases entries@.len() - i,
    {
        let lines = render_log_entry(i, &entries[i]);
        proof {
            assert(lines@.map_values(|l: StyledLine<Look>| crate::conversation::wrap::styled_view(l)).len()
                == lines@.len());
            lemma_log_total_mono(entries@, i + 1, entries@.len() as int);
        }
        total = total + lines.len();
        i = i + 1;
    }
    total
}

proof fn lemma_log_total_mono(entries: Seq<PatchType>, a: int, b: int)
    requires
        a <= b,
    ensures
        log_line_total(entries, a) <= log_line_total(entries, b),
    decreases b - a,
{
    if a < b {
        lemma_log_total_mono(entries, a, b - 1);
    }
}

/// The name of a tool call's status, as the status is spelled.
pub open spec fn status_name(s: ToolStatus) -> Seq<char> {
    match s {
        ToolStatus::Created => "Created"@,
        ToolStatus::Success => "Success"@,
        ToolStatus::Failed => "Failed"@,
        ToolStatus::Denied => "Denied"@,
        ToolStatus::PendingApproval => "PendingApproval"@,
        ToolStatus::TimedOut => "TimedOut"@,
    }
}

/// An ASCII capital made small; every other char as it is.
pub open spec fn ascii_lower(c: char) -> char {
    if 'A' <= c <= 'Z' {
        ((c as u32) + 32) as char
    } else {
        c
    }
}

/// A tool call's status is shown as its name in small letters between
/// square brackets, and two different statuses never look the same.
pub proof fn lemma_status_tags(s: ToolStatus, t: ToolStatus)
    ensures
        status_tag(s) == seq!['['] + status_name(s).map_values(|c: char| ascii_lower(c)) + seq![']'],
        s != t ==> status_tag(s) != status_tag(t),
{
    reveal_strlit("Created");
    reveal_strlit("Success");
    reveal_strlit("Failed");
    reveal_strlit("Denied");
    reveal_strlit("PendingApproval");
    reveal_strlit("TimedOut");
    reveal_strlit("[created]");
    reveal_strlit("[success]");
    reveal_strlit("[failed]");
    reveal_strlit("[denied]");
    reveal_strlit("[pendingapproval]");
    reveal_strlit("[timedout]");
    assert(status_tag(s) =~= seq!['['] + status_name(s).map_values(|c: char| ascii_lower(c)) + seq![']']);
    if s != t {
        let a = status_tag(s);
        let b = status_tag(t);
        if a.len() == b.len() {
            assert(a[1] != b[1] || a[2] != b[2]);
        }
    }
}

} // verus!
