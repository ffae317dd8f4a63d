//! The markdown that chat messages are shown with: inline emphasis, code
//! and links, and line kinds (code blocks, headings, quotes, list items).
//! Styles are left to the renderer; this module says which text carries
//! which emphasis.
use vstd::prelude::*;

use crate::text::{
    alphanumeric, char_is_alphanumeric, char_is_whitespace, chars_of, lemma_skip_whitespace,
    push_char, skip_whitespace, string_of, sub_chars, whitespace,
};

verus! {

/// A run of text with one emphasis.
#[derive(Debug, Clone, PartialEq, Eq)]
pub struct InlineSpan {
    pub text: String,
    pub bold: bool,
    pub italic: bool,
    pub strike: bool,
    pub code: bool,
    /// The text of a link (shown underlined, without the other emphasis).
    pub link: bool,
}

/// An inline span as values.
pub struct SpanView {
    pub text: Seq<char>,
    pub bold: bool,
    pub italic: bool,
    pub strike: bool,
    pub code: bool,
    pub link: bool,
}

impl View for InlineSpan {
    type V = SpanView;

    open spec fn view(&self) -> SpanView {
        SpanView {
            text: self.text@,
            bold: self.bold,
            italic: self.italic,
            strike: self.strike,
            code: self.code,
            link: self.link,
        }
    }
}

/// The emphasis in force while scanning.
#[derive(Debug, Clone, Copy, PartialEq, Eq, Structural)]
pub struct Emphasis {
    pub bold: bool,
    pub italic: bool,
    pub strike: bool,
    pub code: bool,
}

/// The spans as values.
pub open spec fn span_views(spans: Seq<InlineSpan>) -> Seq<SpanView> {
    spans.map_values(|s: InlineSpan| s@)
}

/// The text gathered so far as a span, if there is any.
pub open spec fn flushed(buf: Seq<char>, e: Emphasis) -> Seq<SpanView> {
    if buf.len() == 0 {
        Seq::empty()
    } else {
        seq![SpanView { text: buf, bold: e.bold, italic: e.italic, strike: e.strike, code: e.code, link: false }]
    }
}

/// The first index from `from` on that holds `c`.
pub open spec fn index_of_from(s: Seq<char>, from: int, c: char) -> Option<int>
    decreases s.len() - from,
{
    if from < 0 || from >= s.len() {
        None
    } else if s[from] == c {
        Some(from)
    } else {
        index_of_from(s, from + 1, c)
    }
}

/// A link `[text](target)` opening at `i`: where its `]` and its `)` are.
pub open spec fn link_at(s: Seq<char>, i: int) -> Option<(int, int)> {
    if 0 <= i < s.len() && s[i] == '[' {
        match index_of_from(s, i + 1, ']') {
            Some(cb) => if cb + 1 < s.len() && s[cb + 1] == '(' {
                match index_of_from(s, cb + 2, ')') {
                    Some(cp) => Some((cb, cp)),
                    None => None,
                }
            } else {
                None
            },
            None => None,
        }
    } else {
        None
    }
}

/// Whether the `*` or `_` at `i` toggles italics: not between two
/// alphanumeric chars, and closed later on.
pub open spec fn italic_delimiter(s: Seq<char>, i: int) -> bool {
    let prev_alnum = i >= 1 && alphanumeric(s[i - 1]);
    let next_alnum = i + 1 < s.len() && alphanumeric(s[i + 1]);
    !(prev_alnum && next_alnum) && s.subrange(i + 1, s.len() as int).contains(s[i])
}

/// The spans of `s` from index `i` on, with `buf` gathered and emphasis
/// `e` in force: `[text](target)` becomes a link span of its text; `**`
/// toggles bold, `~~` strike-through, `` ` `` code, and a lone `*` or `_`
/// italics where it delimits; other chars are gathered into the current
/// span.
pub open spec fn inline_from(s: Seq<char>, i: int, buf: Seq<char>, e: Emphasis) -> Seq<SpanView>
    decreases s.len() - i,
{
    if i < 0 || i >= s.len() {
        flushed(buf, e)
    } else {
        let c = s[i];
        match link_at(s, i) {
            Some((cb, cp)) => if i <= cp < s.len() {
                flushed(buf, e) + seq![
                    SpanView {
                        text: s.subrange(i + 1, cb),
                        bold: false,
                        italic: false,
                        strike: false,
                        code: false,
                        link: true,
                    },
                ] + inline_from(s, cp + 1, Seq::empty(), e)
            } else {
                Seq::empty()
            },
            None => if i + 1 < s.len() && c == '*' && s[i + 1] == '*' {
                flushed(buf, e) + inline_from(s, i + 2, Seq::empty(), Emphasis { bold: !e.bold, ..e })
            } else if i + 1 < s.len() && c == '~' && s[i + 1] == '~' {
                flushed(buf, e) + inline_from(s, i + 2, Seq::empty(), Emphasis { strike: !e.strike, ..e })
            } else if c == '`' {
                flushed(buf, e) + inline_from(s, i + 1, Seq::empty(), Emphasis { code: !e.code, ..e })
            } else if (c == '*' || c == '_') && italic_delimiter(s, i) {
                flushed(buf, e) + inline_from(s, i + 1, Seq::empty(), Emphasis { italic: !e.italic, ..e })
            } else {
                inline_from(s, i + 1, buf.push(c), e)
            },
        }
    }
}

/// The spans of a line of markdown.
pub open spec fn inline_spans(s: Seq<char>) -> Seq<SpanView> {
    inline_from(s, 0, Seq::empty(), Emphasis { bold: false, italic: false, strike: false, code: false })
}

/// The first index from `from` on that holds `c`.
fn find_char(v: &Vec<char>, from: usize, c: char) -> (r: Option<usize>)
    ensures
        match r {
            Some(k) => index_of_from(v@, from as int, c) == Some(k as int) && from <= k < v@.len(),
            None => index_of_from(v@, from as int, c) is None,
        },
{
    let mut k = from;
    while k < v.len()
        invariant
            from <= k,
            index_of_from(v@, from as int, c) == index_of_from(v@, k as int, c),
        decreases v@.len() - k,
    {
        if v[k] == c {
            return Some(k);
        }
        k = k + 1;
    }
    None
}

/// Where the link opening at `i` closes its text and its target.
fn link_bounds(v: &Vec<char>, i: usize) -> (r: Option<(usize, usize)>)
    requires
        i < v@.len(),
    ensures
        match r {
            Some((cb, cp)) => link_at(v@, i as int) == Some((cb as int, cp as int)) && i < cb < cp
                < v@.len(),
            None => link_at(v@, i as int) is None,
        },
{
    let n = v.len();
    if v[i] != '[' {
        return None;
    }
    match find_char(v, i + 1, ']') {
        Some(cb) => {
            if cb + 1 < v.len() && v[cb + 1] == '(' {
                match find_char(v, cb + 2, ')') {
                    Some(cp) => Some((cb, cp)),
                    None => None,
                }
            } else {
                None
            }
        },
        None => None,
    }
}

/// Whether the `*` or `_` at `index` toggles italics: it is not inside a
/// word (between two alphanumeric chars), and the same char comes again
/// later.
pub fn is_italic_delimiter(chars: &[char], index: usize) -> (r: bool)
    requires
        index < chars@.len(),
    ensures
        r == italic_delimiter(chars@, index as int),
{
    let marker = chars[index];
    let prev_alnum = index >= 1 && char_is_alphanumeric(chars[index - 1]);
    let next_alnum = index + 1 < chars.len() && char_is_alphanumeric(chars[index + 1]);
    if prev_alnum && next_alnum {
        return false;
    }
    let mut k = index + 1;
    let ghost rest = chars@.subrange(index + 1, chars@.len() as int);
    while k < chars.len()
        invariant
            index + 1 <= k <= chars@.len(),
            index < chars@.len(),
            rest == chars@.subrange(index + 1, chars@.len() as int),
            marker == chars@[index as int],
            prev_alnum == (index >= 1 && alphanumeric(chars@[index - 1])),
            next_alnum == (index + 1 < chars@.len() && alphanumeric(chars@[index + 1])),
            !(prev_alnum && next_alnum),
            forall|j: int| index + 1 <= j < k ==> chars@[j] != marker,
        decreases chars@.len() - k,
    {
        if chars[k] == marker {
            proof {
                assert(rest[k - index - 1] == marker);
                assert(rest.contains(marker));
                assert(marker == chars@[index as int]);
                assert(prev_alnum == (index >= 1 && alphanumeric(chars@[index - 1])));
                assert(next_alnum == (index + 1 < chars@.len() && alphanumeric(chars@[index + 1])));
            }
            return true;
        }
        k = k + 1;
    }
    proof {
        assert forall|j: int| 0 <= j < rest.len() implies rest[j] != marker by {
            assert(rest[j] == chars@[index + 1 + j]);
        }
    }
    false
}

fn flush_span(spans: &mut Vec<InlineSpan>, buffer: &mut Vec<char>, e: Emphasis)
    ensures
        span_views(final(spans)@) == span_views(old(spans)@) + flushed(old(buffer)@, e),
        final(buffer)@.len() == 0,
{
    if buffer.len() > 0 {
        let text = string_of(buffer.as_slice());
        spans.push(
            InlineSpan {
                text,
                bold: e.bold,
                italic: e.italic,
                strike: e.strike,
                code: e.code,
                link: false,
            },
        );
        proof {
            assert(span_views(spans@) =~= span_views(old(spans)@) + flushed(old(buffer)@, e));
        }
    } else {
        proof {
            assert(span_views(spans@) =~= span_views(old(spans)@) + flushed(old(buffer)@, e));
        }
    }
    *buffer = Vec::new();
}

/// Splits a line of markdown into spans by emphasis: bold between `**`,
/// strike-through between `~~`, code between backticks, italics between
/// lone `*` or `_` (but not inside words such as `snake_case`), and the
/// text of `[text](target)` links.
pub fn parse_inline_markdown(content: &str) -> (r: Vec<InlineSpan>)
    ensures
        span_views(r@) == inline_spans(content@),
{
    let chars = chars_of(content);
    let mut spans: Vec<InlineSpan> = Vec::new();
    let mut buffer: Vec<char> = Vec::new();
    let mut e = Emphasis { bold: false, italic: false, strike: false, code: false };
    let mut index: usize = 0;
    proof {
        assert(span_views(spans@) =~= Seq::<SpanView>::empty());
    }
    while index < chars.len()
        invariant
            index <= chars@.len(),
            chars@ == content@,
            span_views(spans@) + inline_from(chars@, index as int, buffer@, e) == inline_spans(
                content@,
            ),
        decreases chars@.len() - index,
    {
        let ghost before = span_views(spans@);
        let ghost buf0 = buffer@;
        let ghost e0 = e;
        let ghost i0 = index as int;
        let c = chars[index];
        match link_bounds(&chars, index) {
            Some((cb, cp)) => {
                flush_span(&mut spans, &mut buffer, e);
                let inner = sub_chars(&chars, index + 1, cb);
                let text = string_of(inner.as_slice());
                spans.push(
                    InlineSpan { text, bold: false, italic: false, strike: false, code: false, link: true },
                );
                index = cp + 1;
                proof {
                    let link = SpanView {
                        text: chars@.subrange(i0 + 1, cb as int),
                        bold: false,
                        italic: false,
                        strike: false,
                        code: false,
                        link: true,
                    };
                    assert(span_views(spans@) =~= before + flushed(buf0, e0) + seq![link]);
                    assert(inline_from(chars@, i0, buf0, e0) == flushed(buf0, e0) + seq![link]
                        + inline_from(chars@, cp + 1, Seq::empty(), e0));
                    assert(buffer@ =~= Seq::<char>::empty());
                }
            },
            None => {
                if index + 1 < chars.len() && c == '*' && chars[index + 1] == '*' {
                    flush_span(&mut spans, &mut buffer, e);
                    e = Emphasis { bold: !e.bold, ..e };
                    index = index + 2;
                } else if index + 1 < chars.len() && c == '~' && chars[index + 1] == '~' {
                    flush_span(&mut spans, &mut buffer, e);
                    e = Emphasis { strike: !e.strike, ..e };
                    index = index + 2;
                } else if c == '`' {
                    flush_span(&mut spans, &mut buffer, e);
                    e = Emphasis { code: !e.code, ..e };
                    index = index + 1;
                } else if (c == '*' || c == '_') && is_italic_delimiter(chars.as_slice(), index) {
                    flush_span(&mut spans, &mut buffer, e);
                    e = Emphasis { italic: !e.italic, ..e };
                    index = index + 1;
                } else {
                    buffer.push(c);
                    index = index + 1;
                }
                proof {
                    if buffer@.len() == 0 {
                        assert(buffer@ =~= Seq::<char>::empty());
                    }
                    assert(span_views(spans@) + inline_from(chars@, index as int, buffer@, e) =~= before
                        + inline_from(chars@, i0, buf0, e0));
                }
            },
        }
    }
    flush_span(&mut spans, &mut buffer, e);
    spans
}

/// `s` without its leading whitespace.
pub open spec fn trim_start(s: Seq<char>) -> Seq<char> {
    s.skip(skip_whitespace(s, 0))
}

/// How many chars equal to `c` follow one another from `i` on.
pub open spec fn run_of(s: Seq<char>, i: int, c: char) -> int
    decreases s.len() - i,
{
    if 0 <= i < s.len() && s[i] == c {
        1 + run_of(s, i + 1, c)
    } else {
        0
    }
}

/// How many ASCII digits follow one another from `i` on.
pub open spec fn digit_run(s: Seq<char>, i: int) -> int
    decreases s.len() - i,
{
    if 0 <= i < s.len() && '0' <= s[i] <= '9' {
        1 + digit_run(s, i + 1)
    } else {
        0
    }
}

/// A heading line: one to six `#` (after leading whitespace), then text;
/// its level and its text without leading whitespace.
pub open spec fn heading_of(line: Seq<char>) -> Option<(usize, Seq<char>)> {
    let t = trim_start(line);
    let h = run_of(t, 0, '#');
    if h == 0 || h > 6 {
        None
    } else {
        let text = trim_start(t.skip(h));
        if text.len() == 0 {
            None
        } else {
            Some((h as usize, text))
        }
    }
}

/// A list item (after leading whitespace): `- `, `* ` or `+ ` makes a
/// bullet; digits and `. ` keep their number. The marker to show, and the
/// item's text.
pub open spec fn list_item_of(line: Seq<char>) -> Option<(Seq<char>, Seq<char>)> {
    let t = trim_start(line);
    if t.len() >= 2 && (t[0] == '-' || t[0] == '*' || t[0] == '+') && t[1] == ' ' {
        Some((seq!['\u{2022}'], t.skip(2)))
    } else {
        let d = digit_run(t, 0);
        if d > 0 && d + 2 <= t.len() && t[d] == '.' && t[d + 1] == ' ' {
            Some((t.take(d).push('.'), t.skip(d + 2)))
        } else {
            None
        }
    }
}

proof fn lemma_run_of(s: Seq<char>, i: int, c: char)
    requires
        0 <= i <= s.len(),
    ensures
        0 <= run_of(s, i, c) <= s.len() - i,
        forall|k: int| i <= k < i + run_of(s, i, c) ==> s[k] == c,
        i + run_of(s, i, c) < s.len() ==> s[i + run_of(s, i, c)] != c,
    decreases s.len() - i,
{
    if i < s.len() && s[i] == c {
        lemma_run_of(s, i + 1, c);
    }
}

proof fn lemma_digit_run(s: Seq<char>, i: int)
    requires
        0 <= i <= s.len(),
    ensures
        0 <= digit_run(s, i) <= s.len() - i,
        i + digit_run(s, i) < s.len() ==> !('0' <= s[i + digit_run(s, i)] <= '9'),
    decreases s.len() - i,
{
    if i < s.len() && '0' <= s[i] <= '9' {
        lemma_digit_run(s, i + 1);
    }
}

/// The chars of `v` after its leading whitespace.
fn trim_start_chars(v: &Vec<char>) -> (r: Vec<char>)
    ensures
        r@ == trim_start(v@),
{
    let mut a: usize = 0;
    while a < v.len() && char_is_whitespace(v[a])
        invariant
            a <= v@.len(),
            skip_whitespace(v@, a as int) == skip_whitespace(v@, 0),
        decreases v@.len() - a,
    {
        a = a + 1;
    }
    let r = sub_chars(v, a, v.len());
    proof {
        assert(r@ =~= v@.skip(a as int));
    }
    r
}

/// The level and text of a heading line, if it is one.
pub fn markdown_heading(line: &str) -> (r: Option<(usize, String)>)
    ensures
        match r {
            Some((level, text)) => heading_of(line@) == Some((level, text@)),
            None => heading_of(line@) is None,
        },
{
    let v = chars_of(line);
    let t = trim_start_chars(&v);
    let mut h: usize = 0;
    proof {
        lemma_run_of(t@, 0, '#');
    }
    while h < t.len() && t[h] == '#'
        invariant
            h <= t@.len(),
            run_of(t@, 0, '#') == h + run_of(t@, h as int, '#'),
        decreases t@.len() - h,
    {
        h = h + 1;
    }
    if h == 0 || h > 6 {
        return None;
    }
    let after = sub_chars(&t, h, t.len());
    let text = trim_start_chars(&after);
    proof {
        assert(after@ =~= t@.skip(h as int));
    }
    if text.len() == 0 {
        None
    } else {
        Some((h, string_of(text.as_slice())))
    }
}

/// The marker and text of a list item line, if it is one.
pub fn markdown_list_prefix(line: &str) -> (r: Option<(String, String)>)
    ensures
        match r {
            Some((prefix, text)) => list_item_of(line@) == Some((prefix@, text@)),
            None => list_item_of(line@) is None,
        },
{
    let v = chars_of(line);
    let t = trim_start_chars(&v);
    if t.len() >= 2 && (t[0] == '-' || t[0] == '*' || t[0] == '+') && t[1] == ' ' {
        let rest = sub_chars(&t, 2, t.len());
        let mut bullet = String::new();
        push_char(&mut bullet, '\u{2022}');
        proof {
            assert(rest@ =~= t@.skip(2));
            assert(bullet@ =~= seq!['\u{2022}']);
        }
        return Some((bullet, string_of(rest.as_slice())));
    }
    let mut d: usize = 0;
    proof {
        lemma_digit_run(t@, 0);
    }
    while d < t.len() && '0' <= t[d] && t[d] <= '9'
        invariant
            d <= t@.len(),
            digit_run(t@, 0) == d + digit_run(t@, d as int),
        decreases t@.len() - d,
    {
        d = d + 1;
    }
    if d > 0 && d < t.len() && t.len() - d >= 2 && t[d] == '.' && t[d + 1] == ' ' {
        let digits = sub_chars(&t, 0, d);
        let mut prefix = string_of(digits.as_slice());
        push_char(&mut prefix, '.');
        let rest = sub_chars(&t, d + 2, t.len());
        proof {
            assert(digits@ =~= t@.take(d as int));
            assert(rest@ =~= t@.skip(d + 2));
        }
        Some((prefix, string_of(rest.as_slice())))
    } else {
        None
    }
}

/// A line without the `\r` of a `\r\n` ending.
pub open spec fn strip_cr(line: Seq<char>) -> Seq<char> {
    if line.len() > 0 && line.last() == '\r' {
        line.drop_last()
    } else {
        line
    }
}

/// The lines of `s` from index `i` on, as `str::lines` yields them: split
/// at `\n` (dropping a `\r` before it), with no empty line after a final
/// newline.
pub open spec fn lines_from(s: Seq<char>, i: int) -> Seq<Seq<char>>
    decreases s.len() - i,
{
    if i < 0 || i >= s.len() {
        Seq::empty()
    } else {
        match index_of_from(s, i, '\n') {
            Some(p) => if i <= p < s.len() {
                seq![strip_cr(s.subrange(i, p))] + lines_from(s, p + 1)
            } else {
                Seq::empty()
            },
            None => seq![s.subrange(i, s.len() as int)],
        }
    }
}

/// `s` begins with `p`.
pub open spec fn starts_with(s: Seq<char>, p: Seq<char>) -> bool {
    s.len() >= p.len() && s.take(p.len() as int) == p
}

/// A line of a rendered message.
#[derive(Debug, Clone)]
pub enum MarkdownLine {
    /// A line inside a fenced code block, as it stands.
    Code(String),
    Blank,
    /// A heading of the given level; the spans are those of its text
    /// indented by two spaces.
    Heading { level: usize, spans: Vec<InlineSpan> },
    /// A quote: the spans of the text after `> `.
    Quote(Vec<InlineSpan>),
    /// A list item: the marker to show and the spans of its text.
    ListItem { prefix: String, spans: Vec<InlineSpan> },
    /// Any other line: the spans of the whole line.
    Plain(Vec<InlineSpan>),
}

/// A line of a rendered message, as values.
pub enum LineView {
    Code(Seq<char>),
    Blank,
    Heading(usize, Seq<SpanView>),
    Quote(Seq<SpanView>),
    ListItem(Seq<char>, Seq<SpanView>),
    Plain(Seq<SpanView>),
}

/// A rendered line as values.
pub open spec fn line_view(l: MarkdownLine) -> LineView {
    match l {
        MarkdownLine::Code(t) => LineView::Code(t@),
        MarkdownLine::Blank => LineView::Blank,
        MarkdownLine::Heading { level, spans } => LineView::Heading(level, span_views(spans@)),
        MarkdownLine::Quote(spans) => LineView::Quote(span_views(spans@)),
        MarkdownLine::ListItem { prefix, spans } => LineView::ListItem(prefix@, span_views(spans@)),
        MarkdownLine::Plain(spans) => LineView::Plain(span_views(spans@)),
    }
}

/// What a line outside code blocks is: blank, a heading, a quote, a list
/// item, or plain text.
pub open spec fn line_kind(raw: Seq<char>) -> LineView {
    if crate::text::trim(raw).len() == 0 {
        LineView::Blank
    } else {
        match heading_of(raw) {
            Some((level, text)) => LineView::Heading(level, inline_spans(seq![' ', ' '] + text)),
            None => if starts_with(trim_start(raw), seq!['>', ' ']) {
                LineView::Quote(inline_spans(trim_start(raw).skip(2)))
            } else {
                match list_item_of(raw) {
                    Some((prefix, text)) => LineView::ListItem(prefix, inline_spans(text)),
                    None => LineView::Plain(inline_spans(raw)),
                }
            },
        }
    }
}

/// The first `n` lines rendered, and whether a code block is open after
/// them. A line starting with three backticks (after leading whitespace)
/// opens or closes a code block and is not shown.
pub open spec fn rendered_upto(lines: Seq<Seq<char>>, n: int) -> (Seq<LineView>, bool)
    decreases n,
{
    if n <= 0 {
        (Seq::empty(), false)
    } else {
        let (out, code) = rendered_upto(lines, n - 1);
        let raw = lines[n - 1];
        if starts_with(trim_start(raw), seq!['`', '`', '`']) {
            (out, !code)
        } else if code {
            (out.push(LineView::Code(raw)), code)
        } else {
            (out.push(line_kind(raw)), code)
        }
    }
}

/// The lines of a message as rendered.
pub open spec fn rendered_lines(content: Seq<char>) -> Seq<LineView> {
    let lines = lines_from(content, 0);
    rendered_upto(lines, lines.len() as int).0
}

/// The lines of `v`.
pub(crate) fn split_lines(v: &Vec<char>) -> (r: Vec<Vec<char>>)
    ensures
        r@.len() == lines_from(v@, 0).len(),
        forall|k: int| 0 <= k < r@.len() ==> (#[trigger] r@[k])@ == lines_from(v@, 0)[k],
{
    let mut r: Vec<Vec<char>> = Vec::new();
    let mut i: usize = 0;
    while i < v.len()
        invariant
            i <= v@.len(),
            r@.len() + lines_from(v@, i as int).len() == lines_from(v@, 0).len(),
            forall|k: int| 0 <= k < r@.len() ==> (#[trigger] r@[k])@ == lines_from(v@, 0)[k],
            forall|k: int|
                0 <= k < lines_from(v@, i as int).len() ==> lines_from(v@, 0)[r@.len() + k]
                    == #[trigger] lines_from(v@, i as int)[k],
        decreases v@.len() - i,
    {
        let ghost here = lines_from(v@, i as int);
        match find_char(v, i, '\n') {
            Some(p) => {
                let mut line = sub_chars(v, i, p);
                if line.len() > 0 && line[line.len() - 1] == '\r' {
                    line.pop();
                }
                proof {
                    assert(line@ =~= strip_cr(v@.subrange(i as int, p as int)));
                    assert(lines_from(v@, 0)[r@.len() as int] == here[0]);
                    assert forall|k: int|
                        0 <= k < lines_from(v@, p + 1).len() implies lines_from(v@, 0)[r@.len() + 1
                        + k] == #[trigger] lines_from(v@, p + 1)[k] by {
                        assert(here[k + 1] == lines_from(v@, p + 1)[k]);
                    }
                }
                r.push(line);
                i = p + 1;
            },
            None => {
                let line = sub_chars(v, i, v.len());
                proof {
                    assert(lines_from(v@, 0)[r@.len() as int] == here[0]);
                }
                r.push(line);
                proof {
                    assert(lines_from(v@, v@.len() as int).len() == 0);
                }
                i = v.len();
            },
        }
    }
    r
}

fn starts_with_chars(v: &Vec<char>, p: &[char]) -> (r: bool)
    ensures
        r == starts_with(v@, p@),
{
    if v.len() < p.len() {
        return false;
    }
    let mut k: usize = 0;
    while k < p.len()
        invariant
            k <= p@.len() <= v@.len(),
            forall|j: int| 0 <= j < k ==> v@[j] == p@[j],
        decreases p@.len() - k,
    {
        if v[k] != p[k] {
            return false;
        }
        k = k + 1;
    }
    proof {
        assert(v@.take(p@.len() as int) =~= p@);
    }
    true
}

/// The line of a message outside code blocks, rendered.
fn render_line(raw: &Vec<char>) -> (r: MarkdownLine)
    ensures
        line_view(r) == line_kind(raw@),
{
    let trimmed = crate::text::trim_chars(raw);
    if trimmed.len() == 0 {
        return MarkdownLine::Blank;
    }
    let raw_text = string_of(raw.as_slice());
    match markdown_heading(raw_text.as_str()) {
        Some((level, text)) => {
            let mut shown = String::new();
            crate::text::push_str(&mut shown, "  ");
            crate::text::push_str(&mut shown, text.as_str());
            proof {
                reveal_strlit("  ");
                assert(shown@ =~= seq![' ', ' '] + text@);
            }
            return MarkdownLine::Heading { level, spans: parse_inline_markdown(shown.as_str()) };
        },
        None => {},
    }
    let t = trim_start_chars(raw);
    if starts_with_chars(&t, &['>', ' ']) {
        let rest = sub_chars(&t, 2, t.len());
        let rest_text = string_of(rest.as_slice());
        proof {
            assert(rest@ =~= t@.skip(2));
        }
        return MarkdownLine::Quote(parse_inline_markdown(rest_text.as_str()));
    }
    match markdown_list_prefix(raw_text.as_str()) {
        Some((prefix, text)) => MarkdownLine::ListItem {
            prefix,
            spans: parse_inline_markdown(text.as_str()),
        },
        None => MarkdownLine::Plain(parse_inline_markdown(raw_text.as_str())),
    }
}

/// The lines of a message as rendered: fenced code blocks kept as they
/// stand, blank lines, headings, quotes, list items and plain lines, each
/// with its inline emphasis.
pub fn render_markdown_lines(content: &str) -> (r: Vec<MarkdownLine>)
    ensures
        r@.map_values(|l: MarkdownLine| line_view(l)) == rendered_lines(content@),
{
    let v = chars_of(content);
    let lines = split_lines(&v);
    let ghost ls = lines_from(v@, 0);
    let mut out: Vec<MarkdownLine> = Vec::new();
    let mut in_code = false;
    let mut n: usize = 0;
    proof {
        assert(out@.map_values(|l: MarkdownLine| line_view(l)) =~= Seq::<LineView>::empty());
    }
    while n < lines.len()
        invariant
            n <= lines@.len() == ls.len(),
            ls == lines_from(content@, 0),
            forall|k: int| 0 <= k < lines@.len() ==> (#[trigger] lines@[k])@ == ls[k],
            (out@.map_values(|l: MarkdownLine| line_view(l)), in_code) == rendered_upto(ls, n as int),
        decreases lines@.len() - n,
    {
        let raw = &lines[n];
        let t = trim_start_chars(raw);
        let ghost before = out@.map_values(|l: MarkdownLine| line_view(l));
        if starts_with_chars(&t, &['`', '`', '`']) {
            in_code = !in_code;
        } else if in_code {
            out.push(MarkdownLine::Code(string_of(raw.as_slice())));
            proof {
                assert(out@.map_values(|l: MarkdownLine| line_view(l)) =~= before.push(
                    LineView::Code(ls[n as int]),
                ));
            }
        } else {
            out.push(render_line(raw));
            proof {
                assert(out@.map_values(|l: MarkdownLine| line_view(l)) =~= before.push(
                    line_kind(ls[n as int]),
                ));
            }
        }
        n = n + 1;
    }
    out
}

/// A code fence: after its leading whitespace the line begins with three
/// backticks, whatever follows them (a language tag, say).
pub open spec fn is_fence(line: Seq<char>) -> bool {
    let t = trim_start(line);
    t.len() >= 3 && t[0] == '`' && t[1] == '`' && t[2] == '`'
}

/// How many of the first `n` lines are code fences.
pub open spec fn fence_count(ls: Seq<Seq<char>>, n: int) -> int
    decreases n,
{
    if n <= 0 {
        0
    } else {
        fence_count(ls, n - 1) + if is_fence(ls[n - 1]) {
            1int
        } else {
            0int
        }
    }
}

proof fn lemma_fence_count_mono(ls: Seq<Seq<char>>, a: int, b: int)
    requires
        0 <= a <= b,
    ensures
        fence_count(ls, a) <= fence_count(ls, b),
        fence_count(ls, b) - fence_count(ls, a) <= b - a,
    decreases b - a,
{
    if a < b {
        lemma_fence_count_mono(ls, a, b - 1);
    }
}

/// Line `k` (not a fence) stands in `out` at its place among the lines
/// shown: as code, exactly as it stands, after an odd number of fences;
/// never as code after an even number.
pub open spec fn placed(out: Seq<LineView>, ls: Seq<Seq<char>>, k: int) -> bool {
    let at = k - fence_count(ls, k);
    &&& 0 <= at < out.len()
    &&& fence_count(ls, k) % 2 == 1 ==> out[at] == LineView::Code(ls[k])
    &&& fence_count(ls, k) % 2 == 0 ==> !(out[at] is Code)
}

proof fn lemma_line_kind_not_code(raw: Seq<char>)
    ensures
        !(line_kind(raw) is Code),
{
}

proof fn lemma_fence_test(raw: Seq<char>)
    ensures
        starts_with(trim_start(raw), seq!['`', '`', '`']) <==> is_fence(raw),
{
    let t = trim_start(raw);
    if t.len() >= 3 {
        assert(t.take(3) =~= seq![t[0], t[1], t[2]]);
    }
}

/// Code fences over the first `n` lines: every fence, with or without a
/// language tag, opens or closes a code block and is not shown; every other
/// line is shown, in order. A line after an odd number of fences is inside
/// a block and is shown as code, exactly as it stands; a line after an even
/// number is outside and is never shown as code. After the lines, a block
/// is open exactly when the fences are odd in number.
#[verifier::rlimit(40)]
pub proof fn lemma_code_fences(ls: Seq<Seq<char>>, n: int)
    requires
        0 <= n <= ls.len(),
    ensures
        rendered_upto(ls, n).0.len() == n - fence_count(ls, n),
        rendered_upto(ls, n).1 == (fence_count(ls, n) % 2 == 1),
        forall|k: int|
            0 <= k < n && !is_fence(ls[k]) ==> #[trigger] placed(rendered_upto(ls, n).0, ls, k),
    decreases n,
{
    if n > 0 {
        lemma_code_fences(ls, n - 1);
        let raw = ls[n - 1];
        lemma_fence_test(raw);
        lemma_line_kind_not_code(raw);
        let prev = rendered_upto(ls, n - 1).0;
        let out = rendered_upto(ls, n).0;
        assert(rendered_upto(ls, n) == {
            let (o, code) = rendered_upto(ls, n - 1);
            if starts_with(trim_start(raw), seq!['`', '`', '`']) {
                (o, !code)
            } else if code {
                (o.push(LineView::Code(raw)), code)
            } else {
                (o.push(line_kind(raw)), code)
            }
        });
        assert forall|k: int| 0 <= k < n && !is_fence(ls[k]) implies #[trigger] placed(out, ls, k) by {
            lemma_fence_count_mono(ls, k, n - 1);
            if k < n - 1 {
                assert(placed(prev, ls, k));
                assert(out[k - fence_count(ls, k)] == prev[k - fence_count(ls, k)]);
            }
        }
    }
}

/// The same over a whole message: its fences (with or without a language
/// tag) are hidden and toggle code blocks, and the lines inside a block are
/// shown as code exactly as they stand.
pub proof fn lemma_message_code_fences(content: Seq<char>)
    ensures
        rendered_lines(content).len() == lines_from(content, 0).len() - fence_count(
            lines_from(content, 0),
            lines_from(content, 0).len() as int,
        ),
        forall|k: int|
            0 <= k < lines_from(content, 0).len() && !is_fence(lines_from(content, 0)[k])
                ==> #[trigger] placed(rendered_lines(content), lines_from(content, 0), k),
{
    let ls = lines_from(content, 0);
    lemma_code_fences(ls, ls.len() as int);
    assert(rendered_lines(content) == rendered_upto(ls, ls.len() as int).0);
}

} // verus!
