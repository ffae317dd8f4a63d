//! How an editor's text is laid out for display: lines of spans, with the
//! cursor and collapsed pastes marked. Styles are left to the renderer.
use vstd::prelude::*;

use crate::editor::vim::{ComposerEditorMode, VimMode};
use crate::paste::{snippet_label, TuiComposerSnippet, SNIPPET_PLACEHOLDER_CHAR};
use crate::text::{chars_of, decimal, floor_char, floor_index, is_boundary, len_fits, lemma_floor_char, string_of, sub_chars};

verus! {

/// What a span of the editor shows.
#[derive(Debug, Clone, Copy, PartialEq, Eq, Structural)]
pub enum EditorSpanKind {
    /// Text as typed.
    Plain,
    /// A collapsed paste's label.
    Snippet,
    /// The cursor: the char (or paste label) under it, or the cursor glyph
    /// at a line's end.
    Cursor,
}

/// A span of the editor's display.
#[derive(Debug, Clone, PartialEq, Eq)]
pub struct EditorSpan {
    pub text: String,
    pub kind: EditorSpanKind,
}

/// A span as values.
pub struct SpanV {
    pub text: Seq<char>,
    pub kind: EditorSpanKind,
}

impl View for EditorSpan {
    type V = SpanV;

    open spec fn view(&self) -> SpanV {
        SpanV { text: self.text@, kind: self.kind }
    }
}

/// The spans as values.
pub open spec fn span_vs(spans: Seq<EditorSpan>) -> Seq<SpanV> {
    spans.map_values(|x: EditorSpan| x@)
}

/// The lines as values.
pub open spec fn line_vs(lines: Seq<Vec<EditorSpan>>) -> Seq<Seq<SpanV>> {
    lines.map_values(|l: Vec<EditorSpan>| span_vs(l@))
}

/// The cursor's glyph at a line's end: a thin bar, or a block in vim
/// normal mode.
pub open spec fn glyph_of(mode: ComposerEditorMode) -> Seq<char> {
    match mode {
        ComposerEditorMode::Vim(VimMode::Normal) => "█"@,
        _ => "▏"@,
    }
}

/// The label of a collapsed paste.
pub open spec fn label_of(sn: TuiComposerSnippet) -> Seq<char> {
    "[Pasted Text] "@ + decimal(sn.char_count as nat) + " chars, "@ + decimal(sn.line_count as nat) + " lines"@
}

/// The text of the `used`-th placeholder: its paste's label, or a generic
/// one when there are more placeholders than pastes.
pub open spec fn snippet_text(snippets: Seq<TuiComposerSnippet>, used: int) -> Seq<char> {
    if 0 <= used < snippets.len() {
        label_of(snippets[used])
    } else {
        "[Pasted Text]"@
    }
}

/// The plain text between `a` and `b`, as a span when there is any.
pub open spec fn plain_from(s: Seq<char>, a: int, b: int) -> Seq<SpanV> {
    if a < b {
        seq![SpanV { text: s.subrange(a, b), kind: EditorSpanKind::Plain }]
    } else {
        Seq::empty()
    }
}

/// After the first `n` chars: the finished lines, the spans of the line
/// being built, where its pending plain text starts, and how many
/// placeholders have been shown. `c` is the cursor's char index; the
/// cursor is shown when `show` holds.
pub open spec fn render_upto(
    s: Seq<char>,
    snippets: Seq<TuiComposerSnippet>,
    c: int,
    show: bool,
    glyph: Seq<char>,
    n: int,
) -> (Seq<Seq<SpanV>>, Seq<SpanV>, int, int)
    decreases n,
{
    if n <= 0 {
        (Seq::empty(), Seq::empty(), 0, 0)
    } else {
        let (lines, spans, ps, used) = render_upto(s, snippets, c, show, glyph, n - 1);
        let i = n - 1;
        let ch = s[i];
        if ch == SNIPPET_PLACEHOLDER_CHAR {
            (
                lines,
                spans + plain_from(s, ps, i) + seq![
                    SpanV {
                        text: snippet_text(snippets, used),
                        kind: if show && i == c {
                            EditorSpanKind::Cursor
                        } else {
                            EditorSpanKind::Snippet
                        },
                    },
                ],
                i + 1,
                used + 1,
            )
        } else if show && i == c {
            if ch == '\n' {
                (
                    lines.push(
                        spans + plain_from(s, ps, i) + seq![SpanV { text: glyph, kind: EditorSpanKind::Cursor }],
                    ),
                    Seq::empty(),
                    i + 1,
                    used,
                )
            } else {
                (
                    lines,
                    spans + plain_from(s, ps, i) + seq![SpanV { text: seq![ch], kind: EditorSpanKind::Cursor }],
                    i + 1,
                    used,
                )
            }
        } else if ch == '\n' {
            (lines.push(spans + plain_from(s, ps, i)), Seq::empty(), i + 1, used)
        } else {
            (lines, spans, ps, used)
        }
    }
}

/// The editor's display: every line of the text as spans, the cursor (at
/// char index `c`) marked when `show` holds, and each placeholder shown as
/// its paste's label.
pub open spec fn rendered_buffer(
    s: Seq<char>,
    snippets: Seq<TuiComposerSnippet>,
    c: int,
    show: bool,
    glyph: Seq<char>,
) -> Seq<Seq<SpanV>> {
    let (lines, spans, ps, _) = render_upto(s, snippets, c, show, glyph, s.len() as int);
    lines.push(
        spans + plain_from(s, ps, s.len() as int) + if show && c == s.len() {
            seq![SpanV { text: glyph, kind: EditorSpanKind::Cursor }]
        } else {
            Seq::empty()
        },
    )
}

fn push_plain(spans: &mut Vec<EditorSpan>, v: &Vec<char>, a: usize, b: usize)
    requires
        a <= v@.len(),
        b <= v@.len(),
    ensures
        span_vs(final(spans)@) == span_vs(old(spans)@) + plain_from(v@, a as int, b as int),
{
    if a < b {
        let text = string_of(sub_chars(v, a, b).as_slice());
        let ghost before = spans@;
        spans.push(EditorSpan { text, kind: EditorSpanKind::Plain });
        proof {
            assert(span_vs(spans@) =~= span_vs(before) + plain_from(v@, a as int, b as int));
        }
    } else {
        proof {
            assert(span_vs(spans@) =~= span_vs(old(spans)@) + plain_from(v@, a as int, b as int));
        }
    }
}

fn push_span(spans: &mut Vec<EditorSpan>, text: String, kind: EditorSpanKind)
    ensures
        span_vs(final(spans)@) == span_vs(old(spans)@) + seq![SpanV { text: text@, kind }],
{
    let ghost before = spans@;
    spans.push(EditorSpan { text, kind });
    proof {
        assert(span_vs(spans@) =~= span_vs(before) + seq![SpanV { text: text@, kind }]);
    }
}

fn end_line(lines: &mut Vec<Vec<EditorSpan>>, spans: Vec<EditorSpan>)
    ensures
        line_vs(final(lines)@) == line_vs(old(lines)@).push(span_vs(spans@)),
{
    let ghost before = lines@;
    let ghost sv = span_vs(spans@);
    lines.push(spans);
    proof {
        assert(line_vs(lines@) =~= line_vs(before).push(sv));
    }
}

/// Lays out an editor's text with its collapsed pastes: lines of spans,
/// with the cursor (moved back onto a char boundary) marked when
/// `show_cursor` holds. The text must fit a Rust string.
pub fn render_editor_buffer_with_snippets(
    buffer: &str,
    snippets: &[TuiComposerSnippet],
    cursor: usize,
    show_cursor: bool,
    mode: ComposerEditorMode,
) -> (r: Vec<Vec<EditorSpan>>)
    requires
        len_fits(buffer@),
    ensures
        line_vs(r@) == rendered_buffer(
            buffer@,
            snippets@,
            floor_char(buffer@, cursor as int) as int,
            show_cursor,
            glyph_of(mode),
        ),
{
    let v = chars_of(buffer);
    let c = floor_index(&v, cursor);
    let glyph: &str = match mode {
        ComposerEditorMode::Vim(VimMode::Normal) => "█",
        _ => "▏",
    };
    proof {
        reveal_strlit("█");
        reveal_strlit("▏");
    }
    let ghost g = glyph_of(mode);
    assert(glyph@ == g);
    let mut lines: Vec<Vec<EditorSpan>> = Vec::new();
    let mut spans: Vec<EditorSpan> = Vec::new();
    let mut ps: usize = 0;
    let mut used: usize = 0;
    let mut i: usize = 0;
    while i < v.len()
        invariant
            i <= v@.len(),
            v@ == buffer@,
            glyph@ == g,
            c as int == floor_char(buffer@, cursor as int),
            ps <= i,
            used <= i,
            line_vs(lines@) == render_upto(v@, snippets@, c as int, show_cursor, g, i as int).0,
            span_vs(spans@) == render_upto(v@, snippets@, c as int, show_cursor, g, i as int).1,
            ps as int == render_upto(v@, snippets@, c as int, show_cursor, g, i as int).2,
            used as int == render_upto(v@, snippets@, c as int, show_cursor, g, i as int).3,
        decreases v@.len() - i,
    {
        let ch = v[i];
        if ch == SNIPPET_PLACEHOLDER_CHAR {
            push_plain(&mut spans, &v, ps, i);
            let label = if used < snippets.len() {
                snippet_label(&snippets[used])
            } else {
                String::from_str("[Pasted Text]")
            };
            let kind = if show_cursor && i == c {
                EditorSpanKind::Cursor
            } else {
                EditorSpanKind::Snippet
            };
            push_span(&mut spans, label, kind);
            ps = i + 1;
            used = used + 1;
        } else if show_cursor && i == c {
            push_plain(&mut spans, &v, ps, i);
            if ch == '\n' {
                push_span(&mut spans, String::from_str(glyph), EditorSpanKind::Cursor);
                let done = spans;
                spans = Vec::new();
                end_line(&mut lines, done);
            } else {
                let mut t = String::new();
                crate::text::push_char(&mut t, ch);
                assert(t@ =~= seq![ch]);
                push_span(&mut spans, t, EditorSpanKind::Cursor);
            }
            ps = i + 1;
        } else if ch == '\n' {
            push_plain(&mut spans, &v, ps, i);
            let done = spans;
            spans = Vec::new();
            end_line(&mut lines, done);
            ps = i + 1;
        }
        i = i + 1;
        proof {
            assert(span_vs(Seq::<EditorSpan>::empty()) =~= Seq::<SpanV>::empty());
        }
    }
    push_plain(&mut spans, &v, ps, v.len());
    if show_cursor && c == v.len() {
        push_span(&mut spans, String::from_str(glyph), EditorSpanKind::Cursor);
    }
    end_line(&mut lines, spans);
    proof {
        assert(seq![SpanV { text: g, kind: EditorSpanKind::Cursor }] =~= Seq::empty().push(
            SpanV { text: g, kind: EditorSpanKind::Cursor },
        ));
    }
    lines
}

/// Lays out an editor's text that holds no collapsed pastes.
pub fn render_editor_buffer(buffer: &str, cursor: usize, show_cursor: bool, mode: ComposerEditorMode) -> (r: Vec<
    Vec<EditorSpan>,
>)
    requires
        len_fits(buffer@),
    ensures
        line_vs(r@) == rendered_buffer(
            buffer@,
            Seq::empty(),
            floor_char(buffer@, cursor as int) as int,
            show_cursor,
            glyph_of(mode),
        ),
{
    let none: Vec<TuiComposerSnippet> = Vec::new();
    render_editor_buffer_with_snippets(buffer, none.as_slice(), cursor, show_cursor, mode)
}

} // verus!
