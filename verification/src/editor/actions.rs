//! Text edits and cursor moves applied to a buffer and its cursor.
use vstd::prelude::*;

use crate::editor::buffer::{
    line_end_at, line_end_char, line_start_at, line_start_char, lemma_line_end_bounds,
    lemma_line_start_bounds, vertical_target, vertical_target_at,
};
use crate::editor::vim::{
    lemma_next_word_char_advances, lemma_prev_word_char_retreats, min_cursor, next_word_at,
    next_word_char, prev_word_at, prev_word_char,
};
use crate::text::{
    byte_len, byte_offset, char_utf8_width, char_width, chars_of, floor_char, floor_index,
    is_boundary, len_fits, lemma_floor_char, lemma_offset_full, lemma_offset_is_boundary,
    lemma_offset_le_len, lemma_offset_prefix, lemma_take_succ, offset_of, string_of,
};

verus! {

#[derive(Debug, Clone, Copy, PartialEq, Eq, Structural)]
pub enum TextEditAction {
    InsertChar(char),
    InsertNewline,
    Backspace,
    Delete,
    BackspaceWord,
    DeleteWord,
    MoveLeft,
    MoveRight,
    MoveWordLeft,
    MoveWordRight,
    MoveUp,
    MoveDown,
    MoveLineStart,
    MoveLineEnd,
}

/// `s` with the chars from index `start` up to `end` replaced by `ins`.
pub open spec fn splice(s: Seq<char>, start: int, end: int, ins: Seq<char>) -> Seq<char> {
    s.take(start) + ins + s.skip(end)
}

/// A cursor move: the text stays, the cursor goes to byte position `target`,
/// and the action counts as a change when the cursor moved.
pub open spec fn moved(s: Seq<char>, cursor: int, target: int) -> (Seq<char>, int, bool) {
    (s, target, target != cursor)
}

/// What an action does to text `s` with cursor `cursor`: the new text, the
/// new cursor, and whether anything changed. Edits act at the clamped
/// cursor (the char boundary at or before it); an edit that finds nothing
/// to remove changes nothing but still leaves the cursor clamped.
pub open spec fn edit_outcome(s: Seq<char>, cursor: int, action: TextEditAction) -> (
    Seq<char>,
    int,
    bool,
) {
    let k = floor_char(s, cursor) as int;
    let at = byte_offset(s, k) as int;
    match action {
        TextEditAction::InsertChar(ch) => (
            splice(s, k, k, seq![ch]),
            at + char_width(ch),
            true,
        ),
        TextEditAction::InsertNewline => (splice(s, k, k, seq!['\n']), at + 1, true),
        TextEditAction::Backspace => if k > 0 {
            (splice(s, k - 1, k, Seq::empty()), byte_offset(s, k - 1) as int, true)
        } else {
            (s, at, false)
        },
        TextEditAction::BackspaceWord => if k > 0 {
            let start = prev_word_char(s, k);
            (splice(s, start, k, Seq::empty()), byte_offset(s, start) as int, true)
        } else {
            (s, at, false)
        },
        TextEditAction::Delete => if k < s.len() {
            (splice(s, k, k + 1, Seq::empty()), at, true)
        } else {
            (s, at, false)
        },
        TextEditAction::DeleteWord => if k < s.len() {
            (splice(s, k, next_word_char(s, k), Seq::empty()), at, true)
        } else {
            (s, at, false)
        },
        TextEditAction::MoveLeft => moved(
            s,
            cursor,
            if k == 0 {
                0
            } else {
                byte_offset(s, k - 1) as int
            },
        ),
        TextEditAction::MoveRight => moved(
            s,
            cursor,
            if k == s.len() {
                byte_len(s) as int
            } else {
                byte_offset(s, k + 1) as int
            },
        ),
        TextEditAction::MoveWordLeft => moved(
            s,
            cursor,
            byte_offset(s, prev_word_char(s, k)) as int,
        ),
        TextEditAction::MoveWordRight => moved(
            s,
            cursor,
            byte_offset(s, next_word_char(s, k)) as int,
        ),
        TextEditAction::MoveUp => moved(s, cursor, byte_offset(s, vertical_target(s, k, -1)) as int),
        TextEditAction::MoveDown => moved(s, cursor, byte_offset(s, vertical_target(s, k, 1)) as int),
        TextEditAction::MoveLineStart => moved(
            s,
            cursor,
            byte_offset(s, line_start_char(s, k)) as int,
        ),
        TextEditAction::MoveLineEnd => moved(
            s,
            cursor,
            byte_offset(s, line_end_char(s, k)) as int,
        ),
    }
}

/// Word moves read the text right at the cursor, so that cursor must lie on
/// a char boundary (a cursor past the end counts as the end).
pub open spec fn action_allowed(s: Seq<char>, cursor: usize, action: TextEditAction) -> bool {
    (action == TextEditAction::MoveWordLeft || action == TextEditAction::MoveWordRight)
        ==> is_boundary(s, min_cursor(s, cursor))
}

/// Offsets up to the splice point are untouched, and the inserted chars
/// follow immediately.
pub proof fn lemma_splice_offsets(s: Seq<char>, a: int, b: int, ins: Seq<char>)
    requires
        0 <= a <= b <= s.len(),
    ensures
        byte_offset(splice(s, a, b, ins), a) == byte_offset(s, a),
        byte_offset(splice(s, a, b, ins), a + ins.len()) == byte_offset(s, a) + byte_len(ins),
        splice(s, a, b, ins).len() == s.len() - (b - a) + ins.len(),
{
    let t = splice(s, a, b, ins);
    assert(t.take(a) =~= s.take(a));
    assert(t.take(a + ins.len()) =~= s.take(a) + ins);
    crate::text::lemma_byte_len_concat(s.take(a), ins);
}

pub proof fn lemma_byte_len_single(c: char)
    ensures
        byte_len(seq![c]) == char_width(c),
{
    assert(seq![c].drop_last() =~= Seq::<char>::empty());
    assert(byte_len(Seq::<char>::empty()) == 0);
    assert(seq![c].last() == c);
}

/// Whatever the action and wherever the cursor was, afterwards the
/// cursor lies on a char boundary of the new text, and an action that
/// reports no change left the text as it was.
pub proof fn lemma_edit_cursor_on_boundary(s: Seq<char>, cursor: int, action: TextEditAction)
    requires
        0 <= cursor,
    ensures
        is_boundary(edit_outcome(s, cursor, action).0, edit_outcome(s, cursor, action).1),
        !edit_outcome(s, cursor, action).2 ==> edit_outcome(s, cursor, action).0 == s,
{
    let k = floor_char(s, cursor) as int;
    lemma_floor_char(s, cursor);
    lemma_line_start_bounds(s, k);
    lemma_line_end_bounds(s, k);
    lemma_next_word_char_advances(s, k);
    lemma_prev_word_char_retreats(s, k);
    lemma_offset_is_boundary(s, k);
    lemma_offset_full(s);
    crate::text::lemma_offset_zero(s);
    match action {
        TextEditAction::InsertChar(ch) => {
            lemma_splice_offsets(s, k, k, seq![ch]);
            lemma_byte_len_single(ch);
            lemma_offset_is_boundary(splice(s, k, k, seq![ch]), k + 1);
        },
        TextEditAction::InsertNewline => {
            lemma_splice_offsets(s, k, k, seq!['\n']);
            lemma_byte_len_single('\n');
            lemma_offset_is_boundary(splice(s, k, k, seq!['\n']), k + 1);
        },
        TextEditAction::Backspace => {
            if k > 0 {
                lemma_splice_offsets(s, k - 1, k, Seq::empty());
                lemma_offset_is_boundary(splice(s, k - 1, k, Seq::empty()), k - 1);
            }
        },
        TextEditAction::BackspaceWord => {
            if k > 0 {
                let p = prev_word_char(s, k);
                lemma_splice_offsets(s, p, k, Seq::empty());
                lemma_offset_is_boundary(splice(s, p, k, Seq::empty()), p);
            }
        },
        TextEditAction::Delete => {
            if k < s.len() {
                lemma_splice_offsets(s, k, k + 1, Seq::empty());
                lemma_offset_is_boundary(splice(s, k, k + 1, Seq::empty()), k);
            }
        },
        TextEditAction::DeleteWord => {
            if k < s.len() {
                let e = next_word_char(s, k);
                lemma_splice_offsets(s, k, e, Seq::empty());
                lemma_offset_is_boundary(splice(s, k, e, Seq::empty()), k);
            }
        },
        TextEditAction::MoveLeft => {
            if k > 0 {
                lemma_offset_is_boundary(s, k - 1);
            }
        },
        TextEditAction::MoveRight => {
            if k < s.len() {
                lemma_offset_is_boundary(s, k + 1);
            } else {
                lemma_offset_is_boundary(s, s.len() as int);
            }
        },
        TextEditAction::MoveWordLeft => {
            lemma_offset_is_boundary(s, prev_word_char(s, k));
        },
        TextEditAction::MoveWordRight => {
            lemma_offset_is_boundary(s, next_word_char(s, k));
        },
        TextEditAction::MoveUp => {
            crate::editor::buffer::lemma_vertical_target_bounds(s, k, -1);
            lemma_offset_is_boundary(s, vertical_target(s, k, -1));
        },
        TextEditAction::MoveDown => {
            crate::editor::buffer::lemma_vertical_target_bounds(s, k, 1);
            lemma_offset_is_boundary(s, vertical_target(s, k, 1));
        },
        TextEditAction::MoveLineStart => {
            lemma_offset_is_boundary(s, line_start_char(s, k));
        },
        TextEditAction::MoveLineEnd => {
            lemma_offset_is_boundary(s, line_end_char(s, k));
        },
    }
}

/// Typing a char and then deleting it with backspace gives back the text
/// as it was, with the cursor on the char boundary where the char went.
pub proof fn lemma_insert_then_backspace(s: Seq<char>, cursor: int, ch: char)
    requires
        0 <= cursor,
    ensures
        ({
            let typed = edit_outcome(s, cursor, TextEditAction::InsertChar(ch));
            let erased = edit_outcome(typed.0, typed.1, TextEditAction::Backspace);
            &&& erased.0 == s
            &&& erased.1 == byte_offset(s, floor_char(s, cursor) as int)
            &&& erased.2
        }),
{
    let k = floor_char(s, cursor) as int;
    lemma_floor_char(s, cursor);
    let t = splice(s, k, k, seq![ch]);
    lemma_splice_offsets(s, k, k, seq![ch]);
    lemma_byte_len_single(ch);
    lemma_offset_is_boundary(t, k + 1);
    assert(splice(t, k, k + 1, Seq::empty()) =~= s);
    lemma_splice_offsets(s, k, k, seq![ch]);
}

/// The chars of `v` from `start` up to `end` replaced by `ins`.
pub fn splice_chars(v: &Vec<char>, start: usize, end: usize, ins: &Vec<char>) -> (r: Vec<char>)
    requires
        start <= end <= v@.len(),
    ensures
        r@ == splice(v@, start as int, end as int, ins@),
{
    let mut r: Vec<char> = Vec::new();
    let mut i: usize = 0;
    while i < start
        invariant
            i <= start <= end <= v@.len(),
            r@ == v@.take(i as int),
        decreases start - i,
    {
        r.push(v[i]);
        i = i + 1;
        proof {
            assert(r@ =~= v@.take(i as int));
        }
    }
    let mut j: usize = 0;
    while j < ins.len()
        invariant
            i == start,
            j <= ins@.len(),
            r@ == v@.take(start as int) + ins@.take(j as int),
        decreases ins@.len() - j,
    {
        r.push(ins[j]);
        j = j + 1;
        proof {
            assert(r@ =~= v@.take(start as int) + ins@.take(j as int));
        }
    }
    let mut m: usize = end;
    while m < v.len()
        invariant
            end <= m <= v@.len(),
            r@ == v@.take(start as int) + ins@ + v@.subrange(end as int, m as int),
        decreases v@.len() - m,
    {
        proof {
            assert(ins@.take(ins@.len() as int) =~= ins@);
        }
        r.push(v[m]);
        m = m + 1;
        proof {
            assert(r@ =~= v@.take(start as int) + ins@ + v@.subrange(end as int, m as int));
        }
    }
    proof {
        assert(ins@.take(ins@.len() as int) =~= ins@);
        assert(v@.subrange(end as int, v@.len() as int) =~= v@.skip(end as int));
    }
    r
}

/// Applies `action` to `buffer` and `cursor` (a byte position) and reports
/// whether anything changed.
pub fn apply_text_edit_action(
    buffer: &mut String,
    cursor: &mut usize,
    action: TextEditAction,
) -> (changed: bool)
    requires
        len_fits(old(buffer)@),
        action_allowed(old(buffer)@, *old(cursor), action),
    ensures
        (final(buffer)@, *final(cursor) as int, changed) == edit_outcome(
            old(buffer)@,
            *old(cursor) as int,
            action,
        ),
{
    let v = chars_of(buffer.as_str());
    let previous = *cursor;
    let k = floor_index(&v, previous);
    proof {
        lemma_floor_char(v@, previous as int);
        lemma_offset_le_len(v@, k as int);
        lemma_line_start_bounds(v@, k as int);
        lemma_line_end_bounds(v@, k as int);
        lemma_next_word_char_advances(v@, k as int);
        lemma_prev_word_char_retreats(v@, k as int);
    }
    let at = offset_of(&v, k);
    let empty: Vec<char> = Vec::new();
    match action {
        TextEditAction::InsertChar(ch) => {
            let ins = vec![ch];
            let text = splice_chars(&v, k, k, &ins);
            *buffer = string_of(text.as_slice());
            *cursor = at + char_utf8_width(ch);
            true
        },
        TextEditAction::InsertNewline => {
            let ins = vec!['\n'];
            let text = splice_chars(&v, k, k, &ins);
            *buffer = string_of(text.as_slice());
            *cursor = at + 1;
            true
        },
        TextEditAction::Backspace => {
            if k > 0 {
                let text = splice_chars(&v, k - 1, k, &empty);
                *buffer = string_of(text.as_slice());
                *cursor = offset_of(&v, k - 1);
                true
            } else {
                *cursor = at;
                false
            }
        },
        TextEditAction::BackspaceWord => {
            if k > 0 {
                let start = prev_word_at(&v, k);
                let text = splice_chars(&v, start, k, &empty);
                *buffer = string_of(text.as_slice());
                *cursor = offset_of(&v, start);
                true
            } else {
                *cursor = at;
                false
            }
        },
        TextEditAction::Delete => {
            *cursor = at;
            if k < v.len() {
                let text = splice_chars(&v, k, k + 1, &empty);
                *buffer = string_of(text.as_slice());
                true
            } else {
                false
            }
        },
        TextEditAction::DeleteWord => {
            *cursor = at;
            if k < v.len() {
                let end = next_word_at(&v, k);
                let text = splice_chars(&v, k, end, &empty);
                *buffer = string_of(text.as_slice());
                true
            } else {
                false
            }
        },
        _ => {
            let target = match action {
                TextEditAction::MoveLeft => if k == 0 {
                    0
                } else {
                    k - 1
                },
                TextEditAction::MoveRight => if k == v.len() {
                    k
                } else {
                    k + 1
                },
                TextEditAction::MoveWordLeft => prev_word_at(&v, k),
                TextEditAction::MoveWordRight => next_word_at(&v, k),
                TextEditAction::MoveUp => vertical_target_at(&v, k, -1),
                TextEditAction::MoveDown => vertical_target_at(&v, k, 1),
                TextEditAction::MoveLineStart => line_start_at(&v, k),
                _ => line_end_at(&v, k),
            };
            proof {
                lemma_offset_full(v@);
                crate::text::lemma_offset_zero(v@);
            }
            *cursor = offset_of(&v, target);
            *cursor != previous
        },
    }
}

} // verus!
