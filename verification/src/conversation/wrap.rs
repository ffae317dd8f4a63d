//! Lines of styled text wrapped to a width, and the visible window of the
//! chat transcript, measured in wrapped lines and addressed by how far its
//! bottom lies above the transcript's end.
use vstd::prelude::*;

use crate::text::{chars_of, push_char};

verus! {

pub open spec fn sat_sub(a: int, b: int) -> int {
    if a > b {
        a - b
    } else {
        0
    }
}

pub open spec fn min_of(a: int, b: int) -> int {
    if a <= b {
        a
    } else {
        b
    }
}

pub open spec fn max_of(a: int, b: int) -> int {
    if a >= b {
        a
    } else {
        b
    }
}

/// The window over `total_lines` lines that shows `visible_lines` lines
/// (at least one) and ends `requested_end_offset` lines above the end, with
/// that offset clamped so the window never runs past the top. Returns the
/// clamped offset, the first and one-past-last line shown, and how many
/// lines lie above the window.
pub fn chat_window_bounds(total_lines: usize, visible_lines: usize, requested_end_offset: usize) -> (r: (
    usize,
    usize,
    usize,
    usize,
))
    ensures
        ({
            let visible = max_of(visible_lines as int, 1);
            let clamped = min_of(requested_end_offset as int, sat_sub(total_lines as int, visible));
            &&& r.0 == clamped
            &&& r.2 == total_lines - clamped
            &&& r.1 == sat_sub(total_lines - clamped, visible)
            &&& r.3 == r.1
            &&& r.1 <= r.2 <= total_lines
            &&& r.2 - r.1 == min_of(visible, total_lines as int)
        }),
{
    let visible_lines = if visible_lines > 1 {
        visible_lines
    } else {
        1
    };
    let max_end_offset = total_lines.saturating_sub(visible_lines);
    let clamped_end_offset = if requested_end_offset < max_end_offset {
        requested_end_offset
    } else {
        max_end_offset
    };
    let end = total_lines.saturating_sub(clamped_end_offset);
    let start = end.saturating_sub(visible_lines);
    let top_offset = total_lines.saturating_sub(visible_lines.saturating_add(clamped_end_offset));
    (clamped_end_offset, start, end, top_offset)
}

/// The first offset in `offsets` above `top`, scanning from the front.
pub open spec fn first_after(offsets: Seq<usize>, top: int) -> Option<usize>
    decreases offsets.len(),
{
    if offsets.len() == 0 {
        None
    } else if offsets[0] > top {
        Some(offsets[0])
    } else {
        first_after(offsets.drop_first(), top)
    }
}

/// The last offset in `offsets` below `top`, scanning from the back.
pub open spec fn last_before(offsets: Seq<usize>, top: int) -> Option<usize>
    decreases offsets.len(),
{
    if offsets.len() == 0 {
        None
    } else if offsets.last() < top {
        Some(offsets.last())
    } else {
        last_before(offsets.drop_last(), top)
    }
}

/// The end offset that puts line `target_top` at the top of a window of
/// `visible` lines, capped at `u16::MAX`.
pub open spec fn end_offset_for_top(total: int, visible: int, target_top: int) -> int {
    min_of(sat_sub(total, min_of(visible + target_top, usize::MAX as int)), u16::MAX as int)
}

/// Where jumping to the next (`forward`) or previous user message puts the
/// chat window, given the line offsets where user messages start. Forward
/// goes to the first message below the current top, or to the bottom when
/// there is none and the view is scrolled up; backward goes to the last
/// message above the current top, or to the first message. `None` leaves
/// the window where it is.
pub open spec fn user_message_jump_target(
    total_lines: int,
    visible_lines: int,
    requested_end_offset: int,
    offsets: Seq<usize>,
    forward: bool,
) -> Option<int> {
    let visible = max_of(visible_lines, 1);
    let clamped = min_of(requested_end_offset, sat_sub(total_lines, visible));
    let top = sat_sub(total_lines - clamped, visible);
    if offsets.len() == 0 {
        None
    } else {
        let target = if forward {
            match first_after(offsets, top) {
                Some(o) => Some(o as int),
                None => if requested_end_offset != 0 {
                    Some(sat_sub(total_lines, visible))
                } else {
                    None
                },
            }
        } else {
            match last_before(offsets, top) {
                Some(o) => Some(o as int),
                None => Some(offsets[0] as int),
            }
        };
        match target {
            Some(t) => Some(end_offset_for_top(total_lines, visible, t)),
            None => None,
        }
    }
}

pub proof fn lemma_first_after_skip(offsets: Seq<usize>, i: int, top: int)
    requires
        0 <= i < offsets.len(),
        offsets[i] <= top,
    ensures
        first_after(offsets.skip(i), top) == first_after(offsets.skip(i + 1), top),
{
    assert(offsets.skip(i).drop_first() =~= offsets.skip(i + 1));
}

pub proof fn lemma_last_before_take(offsets: Seq<usize>, i: int, top: int)
    requires
        0 < i <= offsets.len(),
        offsets[i - 1] >= top,
    ensures
        last_before(offsets.take(i), top) == last_before(offsets.take(i - 1), top),
{
    assert(offsets.take(i).drop_last() =~= offsets.take(i - 1));
}

/// The new chat end offset after jumping between user messages, if the
/// jump moves the window.
pub fn user_message_jump(
    total_lines: usize,
    visible_lines: usize,
    requested_end_offset: usize,
    offsets: &[usize],
    forward: bool,
) -> (r: Option<u16>)
    ensures
        match user_message_jump_target(
            total_lines as int,
            visible_lines as int,
            requested_end_offset as int,
            offsets@,
            forward,
        ) {
            None => r is None,
            Some(t) => r is Some && r->0 == t,
        },
{
    let visible = if visible_lines > 1 {
        visible_lines
    } else {
        1
    };
    let (_, _, _, top) = chat_window_bounds(total_lines, visible, requested_end_offset);
    if offsets.len() == 0 {
        return None;
    }
    let mut target: Option<usize> = None;
    if forward {
        let mut i: usize = 0;
        proof {
            assert(offsets@.skip(0) =~= offsets@);
        }
        while i < offsets.len() && offsets[i] <= top
            invariant
                i <= offsets@.len(),
                first_after(offsets@, top as int) == first_after(offsets@.skip(i as int), top as int),
            decreases offsets@.len() - i,
        {
            proof {
                lemma_first_after_skip(offsets@, i as int, top as int);
            }
            i = i + 1;
        }
        if i < offsets.len() {
            proof {
                assert(offsets@.skip(i as int)[0] == offsets@[i as int]);
            }
            target = Some(offsets[i]);
        } else if requested_end_offset != 0 {
            proof {
                assert(offsets@.skip(offsets@.len() as int) =~= Seq::<usize>::empty());
            }
            target = Some(total_lines.saturating_sub(visible));
        }
    } else {
        let mut i: usize = offsets.len();
        proof {
            assert(offsets@.take(offsets@.len() as int) =~= offsets@);
        }
        while i > 0 && offsets[i - 1] >= top
            invariant
                i <= offsets@.len(),
                last_before(offsets@, top as int) == last_before(offsets@.take(i as int), top as int),
            decreases i,
        {
            proof {
                lemma_last_before_take(offsets@, i as int, top as int);
            }
            i = i - 1;
        }
        if i > 0 {
            target = Some(offsets[i - 1]);
        } else {
            proof {
                assert(offsets@.take(0) =~= Seq::<usize>::empty());
            }
            target = Some(offsets[0]);
        }
    }
    match target {
        Some(t) => {
            let offset = total_lines.saturating_sub(visible.saturating_add(t));
            Some(
                if offset > 65535 {
                    65535u16
                } else {
                    offset as u16
                },
            )
        },
        None => None,
    }
}

/// The chat end offset that brings line `line_index` into a window of
/// `visible_lines` lines: the window ends `visible_lines` below the line (or
/// at the end), capped at `u16::MAX`.
pub fn conversation_match_end_offset(line_index: usize, total_lines: usize, visible_lines: usize) -> (r: u16)
    requires
        line_index + visible_lines <= usize::MAX,
    ensures
        r == min_of(
            sat_sub(total_lines as int, min_of(line_index + visible_lines, total_lines as int)),
            u16::MAX as int,
        ),
{
    let end = if line_index + visible_lines < total_lines {
        line_index + visible_lines
    } else {
        total_lines
    };
    let offset = total_lines.saturating_sub(end);
    if offset > 65535 {
        65535u16
    } else {
        offset as u16
    }
}

/// The chat end offset after scrolling by `delta` lines (positive scrolls
/// toward the end), kept within `0..=u16::MAX`.
pub fn scrolled_end_offset(end_offset: u16, delta: i32) -> (r: u16)
    ensures
        r == max_of(min_of(end_offset - delta, u16::MAX as int), 0),
{
    let offset = end_offset as i64 - delta as i64;
    if offset < 0 {
        0
    } else if offset > 65535 {
        65535
    } else {
        offset as u16
    }
}

/// A run of text in one style.
#[derive(Debug, Clone)]
pub struct StyledSpan<S> {
    pub content: String,
    pub style: S,
}

/// A line of styled runs. The line's own style lies under those of its
/// runs when it is drawn.
#[derive(Debug, Clone)]
pub struct StyledLine<S> {
    pub spans: Vec<StyledSpan<S>>,
    pub style: S,
}

/// A run as its text and style.
pub open spec fn span_view<S>(s: StyledSpan<S>) -> (Seq<char>, S) {
    (s.content@, s.style)
}

/// Runs as texts and styles.
pub open spec fn spans_view<S>(v: Seq<StyledSpan<S>>) -> Seq<(Seq<char>, S)> {
    v.map_values(|s: StyledSpan<S>| span_view(s))
}

/// A line as its runs and its style.
pub open spec fn styled_view<S>(l: StyledLine<S>) -> (Seq<(Seq<char>, S)>, S) {
    (spans_view(l.spans@), l.style)
}

/// The chars of the runs in order, each with its run's style.
pub open spec fn cells<S>(spans: Seq<(Seq<char>, S)>) -> Seq<(char, S)>
    decreases spans.len(),
{
    if spans.len() == 0 {
        Seq::empty()
    } else {
        cells(spans.drop_last()) + spans.last().0.map_values(|c: char| (c, spans.last().1))
    }
}

/// `cs` cut into consecutive rows of `width` items, the last row possibly
/// shorter; there is always at least one row.
pub open spec fn rows_of<T>(cs: Seq<T>, width: nat) -> Seq<Seq<T>>
    decreases cs.len(),
{
    if width == 0 || cs.len() <= width {
        seq![cs]
    } else {
        seq![cs.take(width as int)] + rows_of(cs.skip(width as int), width)
    }
}

/// A cell as a run of one char.
pub open spec fn cell_run<S>(c: (char, S)) -> (Seq<char>, S) {
    (seq![c.0], c.1)
}

/// The runs of a line wrapped at `width` chars: each char becomes a run
/// of its own, rows hold `width` chars, and a first run that is empty
/// stays, empty, at the head of the first row. No rows at width zero.
pub open spec fn wrapped_rows<S>(spans: Seq<(Seq<char>, S)>, width: nat) -> Seq<Seq<(Seq<char>, S)>> {
    if width == 0 {
        Seq::empty()
    } else {
        let rows = rows_of(cells(spans), width);
        Seq::new(rows.len(), |r: int| wrapped_row(spans, rows[r], r))
    }
}

/// Row `r` of a wrapped line, from its cells `row`.
pub open spec fn wrapped_row<S>(spans: Seq<(Seq<char>, S)>, row: Seq<(char, S)>, r: int) -> Seq<
    (Seq<char>, S),
> {
    (if r == 0 && spans.len() > 0 && spans[0].0.len() == 0 {
        seq![(Seq::<char>::empty(), spans[0].1)]
    } else {
        Seq::empty()
    }) + row.map_values(|c: (char, S)| cell_run(c))
}

/// The lines a line wraps into, each with the line's style.
pub open spec fn line_rows<S>(l: StyledLine<S>, width: nat) -> Seq<(Seq<(Seq<char>, S)>, S)> {
    wrapped_rows(spans_view(l.spans@), width).map_values(
        |row: Seq<(Seq<char>, S)>| (row, l.style),
    )
}

/// The lines that lines wrap into, in order.
pub open spec fn all_rows<S>(ls: Seq<StyledLine<S>>, width: nat) -> Seq<(Seq<(Seq<char>, S)>, S)>
    decreases ls.len(),
{
    if ls.len() == 0 {
        Seq::empty()
    } else {
        all_rows(ls.drop_last(), width) + line_rows(ls.last(), width)
    }
}

fn flatten_cells<S: Copy>(spans: &Vec<StyledSpan<S>>) -> (r: Vec<(char, S)>)
    ensures
        r@ == cells(spans_view(spans@)),
{
    let mut cs: Vec<(char, S)> = Vec::new();
    let mut j: usize = 0;
    while j < spans.len()
        invariant
            j <= spans@.len(),
            cs@ == cells(spans_view(spans@).take(j as int)),
        decreases spans@.len() - j,
    {
        let chars = chars_of(spans[j].content.as_str());
        let st = spans[j].style;
        let ghost base = cs@;
        let mut k: usize = 0;
        while k < chars.len()
            invariant
                k <= chars@.len(),
                chars@ == spans@[j as int].content@,
                st == spans@[j as int].style,
                cs@ == base + chars@.take(k as int).map_values(|c: char| (c, st)),
            decreases chars@.len() - k,
        {
            cs.push((chars[k], st));
            k = k + 1;
            proof {
                assert(cs@ =~= base + chars@.take(k as int).map_values(|c: char| (c, st)));
            }
        }
        proof {
            let upto = spans_view(spans@).take(j + 1);
            assert(upto.drop_last() =~= spans_view(spans@).take(j as int));
            assert(upto.last() == span_view(spans@[j as int]));
            assert(chars@.take(k as int) =~= chars@);
        }
        j = j + 1;
    }
    proof {
        assert(spans_view(spans@).take(spans@.len() as int) =~= spans_view(spans@));
    }
    cs
}

fn make_row<S: Copy>(cs: &Vec<(char, S)>, a: usize, b: usize, lead: Option<S>, style: S) -> (r:
    StyledLine<S>)
    requires
        a <= b <= cs@.len(),
    ensures
        r.style == style,
        spans_view(r.spans@) == (match lead {
            Some(s) => seq![(Seq::<char>::empty(), s)],
            None => Seq::empty(),
        }) + cs@.subrange(a as int, b as int).map_values(|c: (char, S)| cell_run(c)),
{
    let mut spans: Vec<StyledSpan<S>> = Vec::new();
    match lead {
        Some(s) => {
            spans.push(StyledSpan { content: String::new(), style: s });
        },
        None => {},
    }
    let ghost head = spans_view(spans@);
    let mut i: usize = a;
    while i < b
        invariant
            a <= i <= b <= cs@.len(),
            spans_view(spans@) == head + cs@.subrange(a as int, i as int).map_values(
                |c: (char, S)| cell_run(c),
            ),
        decreases b - i,
    {
        let (c, st) = cs[i];
        let mut t = String::new();
        push_char(&mut t, c);
        let ghost before = spans@;
        spans.push(StyledSpan { content: t, style: st });
        proof {
            assert(spans@ == before.push(StyledSpan { content: t, style: st }));
            assert(spans_view(spans@) =~= spans_view(before).push((seq![c], st)));
            assert(cs@.subrange(a as int, i + 1) =~= cs@.subrange(a as int, i as int).push(cs@[i as int]));
            assert(t@ =~= seq![c]);
        }
        i = i + 1;
        proof {
            assert(spans_view(spans@) =~= head + cs@.subrange(a as int, i as int).map_values(
                |c: (char, S)| cell_run(c),
            ));
        }
    }
    StyledLine { spans, style }
}

/// Wraps a line at `width` chars: every char becomes a run of its own with
/// its run's style, each row holds `width` chars (the last one fewer), an
/// empty first run stays at the head of the first row, and every row keeps
/// the line's style. A line without chars gives one row; width zero gives
/// none.
pub fn wrap_line<S: Copy>(line: &StyledLine<S>, width: usize) -> (r: Vec<StyledLine<S>>)
    ensures
        r@.map_values(|l: StyledLine<S>| styled_view(l)) == line_rows(*line, width as nat),
{
    if width == 0 {
        let none: Vec<StyledLine<S>> = Vec::new();
        proof {
            assert(none@.map_values(|l: StyledLine<S>| styled_view(l)) =~= line_rows(
                *line,
                width as nat,
            ));
        }
        return none;
    }
    let cs = flatten_cells(&line.spans);
    let ghost sv = spans_view(line.spans@);
    let ghost rows = rows_of(cs@, width as nat);
    let lead: Option<S> = if line.spans.len() > 0 && chars_of(line.spans[0].content.as_str()).len()
        == 0 {
        Some(line.spans[0].style)
    } else {
        None
    };
    proof {
        if line.spans@.len() > 0 {
            assert(sv[0] == span_view(line.spans@[0]));
        }
    }
    let mut out: Vec<StyledLine<S>> = Vec::new();
    let mut start: usize = 0;
    let ghost mut done: Seq<Seq<(char, S)>> = Seq::empty();
    proof {
        assert(cs@.skip(0) =~= cs@);
        assert(done + rows_of(cs@.skip(0), width as nat) =~= rows);
    }
    loop
        invariant_except_break
            start <= cs@.len(),
            rows == done + rows_of(cs@.skip(start as int), width as nat),
            out@.len() == done.len(),
            forall|k: int| 0 <= k < done.len() ==> #[trigger] rows[k] == done[k],
        invariant
            width > 0,
            cs@ == cells(sv),
            rows == rows_of(cs@, width as nat),
            sv == spans_view(line.spans@),
            lead == (if sv.len() > 0 && sv[0].0.len() == 0 {
                Some(sv[0].1)
            } else {
                None::<S>
            }),
            forall|k: int|
                0 <= k < out@.len() ==> #[trigger] styled_view(out@[k]) == (
                    wrapped_rows(sv, width as nat)[k],
                    line.style,
                ),
        ensures
            out@.len() == rows.len(),
            forall|k: int|
                0 <= k < out@.len() ==> #[trigger] styled_view(out@[k]) == (
                    wrapped_rows(sv, width as nat)[k],
                    line.style,
                ),
        decreases cs@.len() - start,
    {
        let first = out.len() == 0;
        let row_lead = if first {
            lead
        } else {
            None
        };
        let rest = cs.len() - start;
        let ghost tail = cs@.skip(start as int);
        let ghost k = done.len() as int;
        proof {
            assert(rows_of(tail, width as nat).len() >= 1);
            assert(rows.len() > k);
            assert(rows[k] == rows_of(tail, width as nat)[0]);
            assert(rows_of(cells(sv), width as nat) == rows);
            assert(wrapped_rows(sv, width as nat) == Seq::new(
                rows.len(),
                |r: int| wrapped_row(sv, rows[r], r),
            ));
            assert(wrapped_rows(sv, width as nat)[k] == wrapped_row(sv, rows[k], k));
        }
        if rest <= width {
            let row = make_row(&cs, start, cs.len(), row_lead, line.style);
            proof {
                assert(rows_of(tail, width as nat) == seq![tail]);
                assert(cs@.subrange(start as int, cs@.len() as int) =~= tail);
                let k = done.len() as int;
            }
            let ghost prev = out@;
            out.push(row);
            proof {
                assert(rows =~= done.push(tail));
                assert(styled_view(out@[k]) == (wrapped_rows(sv, width as nat)[k], line.style));
                assert forall|j: int| 0 <= j < out@.len() implies #[trigger] styled_view(out@[j]) == (
                    wrapped_rows(sv, width as nat)[j],
                    line.style,
                ) by {
                    if j < k {
                        assert(out@[j] == prev[j]);
                    }
                }
            }
            break;
        } else {
            let row = make_row(&cs, start, start + width, row_lead, line.style);
            proof {
                assert(rows_of(tail, width as nat) == seq![tail.take(width as int)] + rows_of(
                    tail.skip(width as int),
                    width as nat,
                ));
                assert(cs@.subrange(start as int, start + width) =~= tail.take(width as int));
                assert(tail.skip(width as int) =~= cs@.skip(start + width));
            }
            let ghost prev = out@;
            out.push(row);
            proof {
                done = done.push(tail.take(width as int));
                assert(rows =~= done + rows_of(cs@.skip(start + width), width as nat));
            }
            start = start + width;
        }
    }
    proof {
        assert(out@.map_values(|l: StyledLine<S>| styled_view(l)) =~= line_rows(*line, width as nat));
    }
    out
}

/// Wraps each line at `width` chars, in order.
pub fn wrap_lines<S: Copy>(lines: &Vec<StyledLine<S>>, width: usize) -> (r: Vec<StyledLine<S>>)
    ensures
        r@.map_values(|l: StyledLine<S>| styled_view(l)) == all_rows(lines@, width as nat),
{
    let mut out: Vec<StyledLine<S>> = Vec::new();
    let mut i: usize = 0;
    while i < lines.len()
        invariant
            i <= lines@.len(),
            out@.map_values(|l: StyledLine<S>| styled_view(l)) == all_rows(
                lines@.take(i as int),
                width as nat,
            ),
        decreases lines@.len() - i,
    {
        let mut rows = wrap_line(&lines[i], width);
        let ghost before = out@;
        let ghost added = rows@;
        out.append(&mut rows);
        proof {
            assert(out@ == before + added);
            assert(lines@.take(i + 1).drop_last() =~= lines@.take(i as int));
            assert(out@.map_values(|l: StyledLine<S>| styled_view(l)) =~= before.map_values(
                |l: StyledLine<S>| styled_view(l),
            ) + added.map_values(|l: StyledLine<S>| styled_view(l)));
        }
        i = i + 1;
    }
    proof {
        assert(lines@.take(lines@.len() as int) =~= lines@);
    }
    out
}

/// The text of runs, one after another.
pub open spec fn spans_text<S>(spans: Seq<(Seq<char>, S)>) -> Seq<char>
    decreases spans.len(),
{
    if spans.len() == 0 {
        Seq::empty()
    } else {
        spans_text(spans.drop_last()) + spans.last().0
    }
}

/// The text of rows of runs, one after another.
pub open spec fn rows_text<S>(rows: Seq<Seq<(Seq<char>, S)>>) -> Seq<char>
    decreases rows.len(),
{
    if rows.len() == 0 {
        Seq::empty()
    } else {
        rows_text(rows.drop_last()) + spans_text(rows.last())
    }
}

/// The chars of rows of cells, one after another.
pub open spec fn cells_text<S>(rows: Seq<Seq<(char, S)>>) -> Seq<char>
    decreases rows.len(),
{
    if rows.len() == 0 {
        Seq::empty()
    } else {
        cells_text(rows.drop_last()) + rows.last().map_values(|c: (char, S)| c.0)
    }
}

proof fn lemma_spans_text_concat<S>(a: Seq<(Seq<char>, S)>, b: Seq<(Seq<char>, S)>)
    ensures
        spans_text(a + b) == spans_text(a) + spans_text(b),
    decreases b.len(),
{
    if b.len() == 0 {
        assert(a + b =~= a);
        assert(spans_text(a) + spans_text(b) =~= spans_text(a));
    } else {
        assert((a + b).drop_last() =~= a + b.drop_last());
        lemma_spans_text_concat(a, b.drop_last());
        assert(spans_text(a + b) =~= spans_text(a) + spans_text(b));
    }
}

proof fn lemma_cells_text_concat<S>(a: Seq<Seq<(char, S)>>, b: Seq<Seq<(char, S)>>)
    ensures
        cells_text(a + b) == cells_text(a) + cells_text(b),
    decreases b.len(),
{
    if b.len() == 0 {
        assert(a + b =~= a);
        assert(cells_text(a) + cells_text(b) =~= cells_text(a));
    } else {
        assert((a + b).drop_last() =~= a + b.drop_last());
        lemma_cells_text_concat(a, b.drop_last());
        assert(cells_text(a + b) =~= cells_text(a) + cells_text(b));
    }
}

proof fn lemma_cells_chars<S>(spans: Seq<(Seq<char>, S)>)
    ensures
        cells(spans).map_values(|c: (char, S)| c.0) == spans_text(spans),
    decreases spans.len(),
{
    if spans.len() == 0 {
        assert(cells(spans).map_values(|c: (char, S)| c.0) =~= spans_text(spans));
    } else {
        lemma_cells_chars(spans.drop_last());
        let last = spans.last();
        let tail = last.0.map_values(|c: char| (c, last.1));
        assert(tail.map_values(|c: (char, S)| c.0) =~= last.0);
        assert((cells(spans.drop_last()) + tail).map_values(|c: (char, S)| c.0) =~= cells(
            spans.drop_last(),
        ).map_values(|c: (char, S)| c.0) + tail.map_values(|c: (char, S)| c.0));
    }
}

proof fn lemma_run_text<S>(row: Seq<(char, S)>)
    ensures
        spans_text(row.map_values(|c: (char, S)| cell_run(c))) == row.map_values(|c: (char, S)| c.0),
    decreases row.len(),
{
    if row.len() == 0 {
        assert(row.map_values(|c: (char, S)| cell_run(c)) =~= Seq::<(Seq<char>, S)>::empty());
        assert(row.map_values(|c: (char, S)| c.0) =~= Seq::<char>::empty());
    } else {
        lemma_run_text(row.drop_last());
        assert(row.map_values(|c: (char, S)| cell_run(c)).drop_last() =~= row.drop_last().map_values(
            |c: (char, S)| cell_run(c),
        ));
        assert(row.map_values(|c: (char, S)| c.0) =~= row.drop_last().map_values(|c: (char, S)| c.0).push(
            row.last().0,
        ));
    }
}

proof fn lemma_row_text<S>(spans: Seq<(Seq<char>, S)>, row: Seq<(char, S)>, r: int)
    ensures
        spans_text(wrapped_row(spans, row, r)) == row.map_values(|c: (char, S)| c.0),
{
    let lead: Seq<(Seq<char>, S)> = if r == 0 && spans.len() > 0 && spans[0].0.len() == 0 {
        seq![(Seq::<char>::empty(), spans[0].1)]
    } else {
        Seq::empty()
    };
    let runs = row.map_values(|c: (char, S)| cell_run(c));
    assert(wrapped_row(spans, row, r) == lead + runs);
    lemma_spans_text_concat(lead, runs);
    lemma_run_text(row);
    assert(spans_text(Seq::<(Seq<char>, S)>::empty()) == Seq::<char>::empty());
    if lead.len() == 1 {
        assert(lead.drop_last() =~= Seq::<(Seq<char>, S)>::empty());
        assert(lead.last().0 =~= Seq::<char>::empty());
        assert(spans_text(lead) == spans_text(lead.drop_last()) + lead.last().0);
    }
    assert(spans_text(lead) =~= Seq::<char>::empty());
    assert(spans_text(lead) + spans_text(runs) =~= spans_text(runs));
}

proof fn lemma_rows_of_text<S>(cs: Seq<(char, S)>, width: nat)
    requires
        width > 0,
    ensures
        cells_text(rows_of(cs, width)) == cs.map_values(|c: (char, S)| c.0),
        forall|k: int|
            0 <= k < rows_of(cs, width).len() ==> (#[trigger] rows_of(cs, width)[k]).len() <= width,
        forall|k: int|
            0 <= k < rows_of(cs, width).len() - 1 ==> (#[trigger] rows_of(cs, width)[k]).len()
                == width,
    decreases cs.len(),
{
    let rows = rows_of(cs, width);
    if cs.len() <= width {
        assert(rows == seq![cs]);
        assert(rows.drop_last() =~= Seq::<Seq<(char, S)>>::empty());
        assert(cells_text(Seq::<Seq<(char, S)>>::empty()) == Seq::<char>::empty());
        assert(rows.last() == cs);
        assert(cells_text(rows) == cells_text(rows.drop_last()) + rows.last().map_values(
            |c: (char, S)| c.0,
        ));
        assert(cells_text(rows) =~= cs.map_values(|c: (char, S)| c.0));
    } else {
        let head = cs.take(width as int);
        let rest = cs.skip(width as int);
        lemma_rows_of_text(rest, width);
        assert(rows == seq![head] + rows_of(rest, width));
        lemma_cells_text_concat(seq![head], rows_of(rest, width));
        assert(seq![head].drop_last() =~= Seq::<Seq<(char, S)>>::empty());
        assert(cells_text(Seq::<Seq<(char, S)>>::empty()) == Seq::<char>::empty());
        assert(seq![head].last() == head);
        assert(cells_text(seq![head]) == cells_text(seq![head].drop_last()) + seq![head].last().map_values(
            |c: (char, S)| c.0,
        ));
        assert(cells_text(seq![head]) =~= head.map_values(|c: (char, S)| c.0));
        assert(cs.map_values(|c: (char, S)| c.0) =~= head.map_values(|c: (char, S)| c.0)
            + rest.map_values(|c: (char, S)| c.0));
        assert forall|k: int| 0 <= k < rows.len() implies (#[trigger] rows[k]).len() <= width by {
            if k > 0 {
                assert(rows[k] == rows_of(rest, width)[k - 1]);
            }
        }
        assert forall|k: int| 0 <= k < rows.len() - 1 implies (#[trigger] rows[k]).len() == width by {
            if k > 0 {
                assert(rows[k] == rows_of(rest, width)[k - 1]);
            }
        }
    }
}

proof fn lemma_rows_text_prefix<S>(spans: Seq<(Seq<char>, S)>, width: nat, k: int)
    requires
        width > 0,
        0 <= k <= rows_of(cells(spans), width).len(),
    ensures
        rows_text(wrapped_rows(spans, width).take(k)) == cells_text(rows_of(cells(spans), width).take(k)),
    decreases k,
{
    let rows = rows_of(cells(spans), width);
    let w = wrapped_rows(spans, width);
    if k == 0 {
        assert(w.take(0) =~= Seq::<Seq<(Seq<char>, S)>>::empty());
        assert(rows.take(0) =~= Seq::<Seq<(char, S)>>::empty());
    } else {
        lemma_rows_text_prefix(spans, width, k - 1);
        assert(w.take(k).drop_last() =~= w.take(k - 1));
        assert(rows.take(k).drop_last() =~= rows.take(k - 1));
        assert(w[k - 1] == wrapped_row(spans, rows[k - 1], k - 1));
        lemma_row_text(spans, rows[k - 1], k - 1);
    }
}

/// Wrapping keeps a line's text: the rows' texts, one after another, are
/// the text of the line's runs; no row holds more than `width` chars, and
/// every row but the last holds exactly `width`.
pub proof fn lemma_wrap_keeps_text<S>(spans: Seq<(Seq<char>, S)>, width: nat)
    requires
        width > 0,
    ensures
        rows_text(wrapped_rows(spans, width)) == spans_text(spans),
        forall|r: int|
            0 <= r < wrapped_rows(spans, width).len() ==> spans_text(
                #[trigger] wrapped_rows(spans, width)[r],
            ).len() <= width,
        forall|r: int|
            0 <= r < wrapped_rows(spans, width).len() - 1 ==> spans_text(
                #[trigger] wrapped_rows(spans, width)[r],
            ).len() == width,
{
    let rows = rows_of(cells(spans), width);
    let w = wrapped_rows(spans, width);
    lemma_rows_text_prefix(spans, width, rows.len() as int);
    assert(w.take(rows.len() as int) =~= w);
    assert(rows.take(rows.len() as int) =~= rows);
    lemma_rows_of_text(cells(spans), width);
    lemma_cells_chars(spans);
    assert forall|r: int| 0 <= r < w.len() implies spans_text(#[trigger] w[r]).len() <= width by {
        lemma_row_text(spans, rows[r], r);
        assert(rows[r].len() <= width);
    }
    assert forall|r: int| 0 <= r < w.len() - 1 implies spans_text(#[trigger] w[r]).len() == width by {
        lemma_row_text(spans, rows[r], r);
        assert(rows[r].len() == width);
    }
}

} // verus!
