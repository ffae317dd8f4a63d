use tui::editor::render::{render_editor_buffer, render_editor_buffer_with_snippets, EditorSpanKind};
use tui::editor::vim::{ComposerEditorMode, VimMode};
use tui::paste::TuiComposerSnippet;

#[test]
fn composer_renderer_shows_cursor_span() {
    let text = render_editor_buffer("hello", 1, true, ComposerEditorMode::Vim(VimMode::Normal));
    assert_eq!(text[0][0].text, "h");
    assert_eq!(text[0][1].text, "e");
    assert_eq!(text[0][1].kind, EditorSpanKind::Cursor);
}

#[test]
fn empty_buffer_renders_cursor_on_first_line() {
    let text = render_editor_buffer("", 0, true, ComposerEditorMode::Standard);
    assert_eq!(text.len(), 1);
    assert_eq!(text[0].len(), 1);
    assert_eq!(text[0][0].text, "▏");
    assert_eq!(text[0][0].kind, EditorSpanKind::Cursor);
}

#[test]
fn plain_text_is_batched_into_spans_around_cursor() {
    let text = render_editor_buffer("hello", 2, true, ComposerEditorMode::Standard);
    assert_eq!(text.len(), 1);
    assert_eq!(text[0].len(), 3);
    assert_eq!(text[0][0].text, "he");
    assert_eq!(text[0][1].text, "l");
    assert_eq!(text[0][2].text, "lo");
}

#[test]
fn plain_text_without_cursor_uses_single_span_per_line() {
    let text = render_editor_buffer("hello\nworld", 0, false, ComposerEditorMode::Standard);
    assert_eq!(text.len(), 2);
    assert_eq!(text[0].len(), 1);
    assert_eq!(text[0][0].text, "hello");
    assert_eq!(text[1].len(), 1);
    assert_eq!(text[1][0].text, "world");
}

#[test]
fn cursor_on_a_newline_ends_the_line_with_the_glyph() {
    let text = render_editor_buffer("ab\ncd", 2, true, ComposerEditorMode::Vim(VimMode::Normal));
    assert_eq!(text.len(), 2);
    assert_eq!(text[0][0].text, "ab");
    assert_eq!(text[0][1].text, "█");
    assert_eq!(text[1][0].text, "cd");
    let end = render_editor_buffer("ab", 9, true, ComposerEditorMode::Standard);
    assert_eq!(end[0][1].text, "▏");
}

#[test]
fn placeholders_show_their_paste_labels() {
    let snippet = TuiComposerSnippet {
        id: 1,
        full_text: "x".repeat(12),
        char_count: 12,
        line_count: 1,
        collapsed: true,
    };
    let text = render_editor_buffer_with_snippets("a\u{FFFC}b\u{FFFC}", &[snippet], 1, true, ComposerEditorMode::Standard);
    assert_eq!(text.len(), 1);
    assert_eq!(text[0][0].text, "a");
    assert_eq!(text[0][1].text, "[Pasted Text] 12 chars, 1 lines");
    assert_eq!(text[0][1].kind, EditorSpanKind::Cursor);
    assert_eq!(text[0][2].text, "b");
    assert_eq!(text[0][3].text, "[Pasted Text]");
    assert_eq!(text[0][3].kind, EditorSpanKind::Snippet);
}
