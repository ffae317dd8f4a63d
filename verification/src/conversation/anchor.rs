//! Keeping the chat's view on the same lines when the chat is rendered
//! again: the first lines in view are remembered, and found again.
use vstd::prelude::*;

use crate::conversation::wrap::{min_of, sat_sub};

verus! {

/// Where the chat's view was: the top line's offset and the texts of the
/// first (up to three) lines in view.
#[derive(Debug, Clone, PartialEq, Eq)]
pub struct ChatViewportAnchor {
    pub top_offset: usize,
    pub visible_line_texts: Vec<String>,
}

/// The texts of strings.
pub open spec fn texts_of(s: Seq<String>) -> Seq<Seq<char>> {
    s.map_values(|x: String| x@)
}

/// Remembers the view of the chat's line texts when it is scrolled up
/// (`clamped_end_offset` above zero): the top offset and the first three
/// lines of the window `start..end`.
pub fn capture_chat_viewport_anchor(
    line_texts: &Vec<String>,
    clamped_end_offset: usize,
    start: usize,
    end: usize,
    top_offset: usize,
) -> (r: Option<ChatViewportAnchor>)
    requires
        start <= end <= line_texts@.len(),
    ensures
        clamped_end_offset == 0 ==> r is None,
        clamped_end_offset != 0 ==> (r matches Some(a) && a.top_offset == top_offset && texts_of(
            a.visible_line_texts@,
        ) == texts_of(line_texts@.subrange(start as int, min_of(end as int, start + 3)))),
{
    if clamped_end_offset == 0 {
        return None;
    }
    let stop = if end - start > 3 {
        start + 3
    } else {
        end
    };
    let mut texts: Vec<String> = Vec::new();
    let mut i: usize = start;
    while i < stop
        invariant
            start <= i <= stop <= end <= line_texts@.len(),
            stop == min_of(end as int, start + 3),
            texts_of(texts@) == texts_of(line_texts@.subrange(start as int, i as int)),
        decreases stop - i,
    {
        let ghost before = texts@;
        texts.push(line_texts[i].clone());
        proof {
            assert(texts_of(texts@) =~= texts_of(before).push(line_texts@[i as int]@));
            assert(texts_of(line_texts@.subrange(start as int, i + 1)) =~= texts_of(
                line_texts@.subrange(start as int, i as int),
            ).push(line_texts@[i as int]@));
        }
        i = i + 1;
    }
    Some(ChatViewportAnchor { top_offset, visible_line_texts: texts })
}

/// The lines from `i` on begin with `anchor`.
pub open spec fn window_at(lines: Seq<Seq<char>>, anchor: Seq<Seq<char>>, i: int) -> bool {
    i + anchor.len() <= lines.len() && lines.subrange(i, i + anchor.len()) == anchor
}

/// The first index from `i` on where the lines begin with `anchor`.
pub open spec fn first_window(lines: Seq<Seq<char>>, anchor: Seq<Seq<char>>, i: int) -> Option<int>
    decreases lines.len() + 1 - i,
{
    if i < 0 || i + anchor.len() > lines.len() {
        None
    } else if window_at(lines, anchor, i) {
        Some(i)
    } else {
        first_window(lines, anchor, i + 1)
    }
}

/// The first line from `i` on with text `t`.
pub open spec fn first_line(lines: Seq<Seq<char>>, t: Seq<char>, i: int) -> Option<int>
    decreases lines.len() - i,
{
    if i < 0 || i >= lines.len() {
        None
    } else if lines[i] == t {
        Some(i)
    } else {
        first_line(lines, t, i + 1)
    }
}

/// Where the remembered lines are now: where all of them appear together,
/// else where the first of them appears; with none remembered, the old top
/// offset.
pub open spec fn anchor_top(lines: Seq<Seq<char>>, anchor: Seq<Seq<char>>, top_offset: usize) -> Option<int> {
    if anchor.len() == 0 {
        Some(top_offset as int)
    } else {
        match first_window(lines, anchor, 0) {
            Some(i) => Some(i),
            None => first_line(lines, anchor[0], 0),
        }
    }
}

fn lines_match_at(lines: &Vec<String>, anchor: &Vec<String>, i: usize) -> (r: bool)
    requires
        i + anchor@.len() <= lines@.len(),
    ensures
        r == window_at(texts_of(lines@), texts_of(anchor@), i as int),
{
    let n = lines.len();
    let mut k: usize = 0;
    while k < anchor.len()
        invariant
            k <= anchor@.len(),
            n == lines@.len(),
            i + anchor@.len() <= lines@.len(),
            forall|j: int| 0 <= j < k ==> lines@[i + j]@ == anchor@[j]@,
        decreases anchor@.len() - k,
    {
        if lines[i + k] != anchor[k] {
            proof {
                assert(texts_of(lines@).subrange(i as int, i + anchor@.len())[k as int] != texts_of(anchor@)[k as int]);
            }
            return false;
        }
        k = k + 1;
    }
    proof {
        assert(texts_of(lines@).subrange(i as int, i + anchor@.len()) =~= texts_of(anchor@));
    }
    true
}

/// Finds the remembered lines in the chat's current line texts.
pub fn find_chat_anchor_top_offset(lines: &Vec<String>, anchor: &ChatViewportAnchor) -> (r: Option<usize>)
    ensures
        match r {
            Some(t) => anchor_top(texts_of(lines@), texts_of(anchor.visible_line_texts@), anchor.top_offset)
                == Some(t as int),
            None => anchor_top(texts_of(lines@), texts_of(anchor.visible_line_texts@), anchor.top_offset) is None,
        },
{
    let a = &anchor.visible_line_texts;
    let ghost ls = texts_of(lines@);
    let ghost ats = texts_of(a@);
    if a.len() == 0 {
        return Some(anchor.top_offset);
    }
    assert(ats.len() == a@.len());
    let n = lines.len();
    if a.len() <= n {
        let last = n - a.len();
        let mut i: usize = 0;
        while i <= last
            invariant
                n == lines@.len(),
                a@.len() <= lines@.len(),
                a@.len() > 0,
                anchor.visible_line_texts@ == a@,
                last == lines@.len() - a@.len(),
                i <= last + 1,
                ls == texts_of(lines@),
                ats == texts_of(a@),
                first_window(ls, ats, 0) == first_window(ls, ats, i as int),
            decreases last + 1 - i,
        {
            if lines_match_at(lines, a, i) {
                return Some(i);
            }
            i = i + 1;
        }
    }
    let mut j: usize = 0;
    while j < lines.len()
        invariant
            j <= lines@.len(),
            ls == texts_of(lines@),
            ats == texts_of(a@),
            a@.len() > 0,
            anchor.visible_line_texts@ == a@,
            first_window(ls, ats, 0) is None,
            first_line(ls, ats[0], 0) == first_line(ls, ats[0], j as int),
        decreases lines@.len() - j,
    {
        if lines[j] == a[0] {
            return Some(j);
        }
        j = j + 1;
    }
    None
}

/// The chat end offset that puts line `top` at the top of a window of
/// `visible` lines among `total`, capped at `u16::MAX`.
pub open spec fn end_offset_for_top(total: int, visible: int, top: int) -> int {
    min_of(sat_sub(total, visible + top), u16::MAX as int)
}

/// The chat end offset that brings the remembered lines back into view
/// (at the old top offset when they are gone).
pub fn restore_chat_viewport_anchor(lines: &Vec<String>, visible_lines: usize, anchor: &ChatViewportAnchor) -> (r: u16)
    ensures
        r == end_offset_for_top(
            lines@.len() as int,
            visible_lines as int,
            match anchor_top(texts_of(lines@), texts_of(anchor.visible_line_texts@), anchor.top_offset) {
                Some(i) => i,
                None => anchor.top_offset as int,
            },
        ),
{
    let top = match find_chat_anchor_top_offset(lines, anchor) {
        Some(t) => t,
        None => anchor.top_offset,
    };
    let total = lines.len();
    let span: usize = if top > usize::MAX - visible_lines {
        usize::MAX
    } else {
        visible_lines + top
    };
    let offset: usize = if total > span {
        total - span
    } else {
        0
    };
    if offset > 65535 {
        65535u16
    } else {
        offset as u16
    }
}

proof fn lemma_window_found_from(lines: Seq<Seq<char>>, anchor: Seq<Seq<char>>, i: int, t: int)
    requires
        0 <= i <= t,
        window_at(lines, anchor, t),
    ensures
        first_window(lines, anchor, i) matches Some(k) && i <= k <= t,
    decreases t - i,
{
    if !window_at(lines, anchor, i) {
        lemma_window_found_from(lines, anchor, i + 1, t);
    }
}

/// Remembered lines that are still in the chat are found again, at
/// their old place or at an earlier copy of them.
pub proof fn lemma_anchor_found(lines: Seq<Seq<char>>, anchor: Seq<Seq<char>>, top_offset: usize, t: int)
    requires
        0 <= t,
        anchor.len() > 0,
        window_at(lines, anchor, t),
    ensures
        anchor_top(lines, anchor, top_offset) matches Some(k) && 0 <= k <= t,
{
    lemma_window_found_from(lines, anchor, 0, t);
}

} // verus!
