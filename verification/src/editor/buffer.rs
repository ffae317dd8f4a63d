//! Cursor arithmetic on a text buffer. Cursors are byte positions into the
//! UTF-8 encoding; every function first moves a cursor back onto the char
//! boundary at or before it.
use vstd::prelude::*;

use crate::text::{
    byte_len, byte_offset, char_width, chars_of, floor_char, floor_index, is_boundary, len_fits,
    lemma_floor_char, lemma_offset_full, lemma_offset_is_boundary, lemma_offset_le_len,
    lemma_offset_mono, lemma_offset_subrange, lemma_take_succ, offset_of,
};

verus! {

/// Char index where the line holding char index `k` starts: just after the
/// closest newline before `k`, or 0.
pub open spec fn line_start_char(s: Seq<char>, k: int) -> int
    decreases k,
{
    if k <= 0 {
        0
    } else if s[k - 1] == '\n' {
        k
    } else {
        line_start_char(s, k - 1)
    }
}

/// Char index where the line holding char index `k` ends: the first newline
/// at or after `k`, or the end of the text.
pub open spec fn line_end_char(s: Seq<char>, k: int) -> int
    decreases s.len() - k,
{
    if k >= s.len() {
        s.len() as int
    } else if s[k] == '\n' {
        k
    } else {
        line_end_char(s, k + 1)
    }
}

pub open spec fn min_int(a: int, b: int) -> int {
    if a <= b {
        a
    } else {
        b
    }
}

/// Char index reached by moving from char index `k` one line up
/// (`direction < 0`) or down, keeping the column where the target line is
/// long enough and stopping at its end otherwise. On the first line going up,
/// or the last line going down, the cursor stays.
pub open spec fn vertical_target(s: Seq<char>, k: int, direction: int) -> int {
    let start = line_start_char(s, k);
    let column = k - start;
    if direction < 0 {
        if start == 0 {
            k
        } else {
            let prev_start = line_start_char(s, start - 1);
            prev_start + min_int(column, start - 1 - prev_start)
        }
    } else {
        let end = line_end_char(s, k);
        if end >= s.len() {
            k
        } else {
            let next_start = end + 1;
            next_start + min_int(column, line_end_char(s, next_start) - next_start)
        }
    }
}

pub proof fn lemma_line_start_bounds(s: Seq<char>, k: int)
    requires
        0 <= k <= s.len(),
    ensures
        0 <= line_start_char(s, k) <= k,
        line_start_char(s, k) > 0 ==> s[line_start_char(s, k) - 1] == '\n',
        forall|j: int| line_start_char(s, k) <= j < k ==> s[j] != '\n',
    decreases k,
{
    if k > 0 && s[k - 1] != '\n' {
        lemma_line_start_bounds(s, k - 1);
    }
}

pub proof fn lemma_line_end_bounds(s: Seq<char>, k: int)
    requires
        0 <= k <= s.len(),
    ensures
        k <= line_end_char(s, k) <= s.len(),
        line_end_char(s, k) < s.len() ==> s[line_end_char(s, k)] == '\n',
        forall|j: int| k <= j < line_end_char(s, k) ==> s[j] != '\n',
    decreases s.len() - k,
{
    if k < s.len() && s[k] != '\n' {
        lemma_line_end_bounds(s, k + 1);
    }
}

pub proof fn lemma_vertical_target_bounds(s: Seq<char>, k: int, direction: int)
    requires
        0 <= k <= s.len(),
    ensures
        0 <= vertical_target(s, k, direction) <= s.len(),
{
    lemma_line_start_bounds(s, k);
    lemma_line_end_bounds(s, k);
    let start = line_start_char(s, k);
    if start > 0 {
        lemma_line_start_bounds(s, start - 1);
    }
    let end = line_end_char(s, k);
    if end < s.len() {
        lemma_line_end_bounds(s, end + 1);
    }
}

/// Char index where the line holding char index `k` starts.
pub fn line_start_at(v: &Vec<char>, k: usize) -> (r: usize)
    requires
        k <= v@.len(),
    ensures
        r == line_start_char(v@, k as int),
{
    let mut i = k;
    while i > 0 && v[i - 1] != '\n'
        invariant
            i <= k <= v@.len(),
            line_start_char(v@, i as int) == line_start_char(v@, k as int),
        decreases i,
    {
        i = i - 1;
    }
    i
}

/// Char index where the line holding char index `k` ends.
pub fn line_end_at(v: &Vec<char>, k: usize) -> (r: usize)
    requires
        k <= v@.len(),
    ensures
        r == line_end_char(v@, k as int),
{
    let mut i = k;
    while i < v.len() && v[i] != '\n'
        invariant
            k <= i <= v@.len(),
            line_end_char(v@, i as int) == line_end_char(v@, k as int),
        decreases v@.len() - i,
    {
        i = i + 1;
    }
    i
}

/// Moves `cursor` back onto the closest char boundary at or before it; a
/// cursor past the end lands on the end.
pub fn clamp_char_boundary(buffer: &str, cursor: usize) -> (r: usize)
    requires
        len_fits(buffer@),
    ensures
        r == byte_offset(buffer@, floor_char(buffer@, cursor as int) as int),
        is_boundary(buffer@, r as int),
        r <= cursor,
{
    let v = chars_of(buffer);
    let k = floor_index(&v, cursor);
    proof {
        lemma_floor_char(v@, cursor as int);
        lemma_offset_is_boundary(v@, k as int);
    }
    offset_of(&v, k)
}

/// The char boundary before the (clamped) cursor, or 0 at the start.
pub fn prev_char_boundary(buffer: &str, cursor: usize) -> (r: usize)
    requires
        len_fits(buffer@),
    ensures
        r == if floor_char(buffer@, cursor as int) == 0 {
            0
        } else {
            byte_offset(buffer@, floor_char(buffer@, cursor as int) - 1)
        },
{
    let v = chars_of(buffer);
    let k = floor_index(&v, cursor);
    if k == 0 {
        return 0;
    }
    offset_of(&v, k - 1)
}

/// The char boundary after the (clamped) cursor, or the end of the text.
pub fn next_char_boundary(buffer: &str, cursor: usize) -> (r: usize)
    requires
        len_fits(buffer@),
    ensures
        r == if floor_char(buffer@, cursor as int) == buffer@.len() {
            byte_len(buffer@)
        } else {
            byte_offset(buffer@, floor_char(buffer@, cursor as int) + 1int)
        },
{
    let v = chars_of(buffer);
    let k = floor_index(&v, cursor);
    if k == v.len() {
        proof {
            lemma_offset_full(v@);
        }
        return offset_of(&v, k);
    }
    offset_of(&v, k + 1)
}

/// Byte position where the line holding the (clamped) cursor starts.
pub fn line_start_index(buffer: &str, cursor: usize) -> (r: usize)
    requires
        len_fits(buffer@),
    ensures
        r == byte_offset(buffer@, line_start_char(buffer@, floor_char(buffer@, cursor as int) as int)),
{
    let v = chars_of(buffer);
    let k = floor_index(&v, cursor);
    let start = line_start_at(&v, k);
    proof {
        lemma_line_start_bounds(v@, k as int);
    }
    offset_of(&v, start)
}

/// Byte position where the line holding the (clamped) cursor ends (its
/// newline, or the end of the text).
pub fn line_end_index(buffer: &str, cursor: usize) -> (r: usize)
    requires
        len_fits(buffer@),
    ensures
        r == byte_offset(buffer@, line_end_char(buffer@, floor_char(buffer@, cursor as int) as int)),
{
    let v = chars_of(buffer);
    let k = floor_index(&v, cursor);
    let end = line_end_at(&v, k);
    proof {
        lemma_line_end_bounds(v@, k as int);
    }
    offset_of(&v, end)
}

/// Number of chars between the start of the line and the (clamped) cursor.
pub fn cursor_column(buffer: &str, cursor: usize) -> (r: usize)
    requires
        len_fits(buffer@),
    ensures
        r == floor_char(buffer@, cursor as int) - line_start_char(
            buffer@,
            floor_char(buffer@, cursor as int) as int,
        ),
{
    let v = chars_of(buffer);
    let k = floor_index(&v, cursor);
    let start = line_start_at(&v, k);
    proof {
        lemma_line_start_bounds(v@, k as int);
    }
    k - start
}

/// Byte position of the char with index `column` in `line`, or the end of
/// the line when it is shorter.
pub fn byte_index_for_column(line: &str, column: usize) -> (r: usize)
    requires
        len_fits(line@),
    ensures
        r == byte_offset(line@, min_int(column as int, line@.len() as int)),
{
    let v = chars_of(line);
    let k = if column < v.len() {
        column
    } else {
        v.len()
    };
    offset_of(&v, k)
}

/// Moves the (clamped) cursor one line up (`direction < 0`) or down.
pub fn move_cursor_vertical(buffer: &str, cursor: usize, direction: i32) -> (r: usize)
    requires
        len_fits(buffer@),
    ensures
        r == byte_offset(
            buffer@,
            vertical_target(buffer@, floor_char(buffer@, cursor as int) as int, direction as int),
        ),
{
    let v = chars_of(buffer);
    let k = floor_index(&v, cursor);
    let target = vertical_target_at(&v, k, direction);
    offset_of(&v, target)
}

/// Char index reached by a vertical move from char index `k`.
pub fn vertical_target_at(v: &Vec<char>, k: usize, direction: i32) -> (r: usize)
    requires
        k <= v@.len(),
    ensures
        r == vertical_target(v@, k as int, direction as int),
        r <= v@.len(),
{
    let start = line_start_at(v, k);
    proof {
        lemma_line_start_bounds(v@, k as int);
    }
    let column = k - start;
    if direction < 0 {
        if start == 0 {
            return k;
        }
        let prev_start = line_start_at(v, start - 1);
        proof {
            lemma_line_start_bounds(v@, start - 1);
        }
        let prev_len = start - 1 - prev_start;
        if column <= prev_len {
            prev_start + column
        } else {
            prev_start + prev_len
        }
    } else {
        let end = line_end_at(v, k);
        proof {
            lemma_line_end_bounds(v@, k as int);
        }
        if end >= v.len() {
            return k;
        }
        let next_start = end + 1;
        let next_end = line_end_at(v, next_start);
        proof {
            lemma_line_end_bounds(v@, next_start as int);
        }
        let next_len = next_end - next_start;
        if column <= next_len {
            next_start + column
        } else {
            next_start + next_len
        }
    }
}

proof fn lemma_line_start_is(s: Seq<char>, k: int, a: int)
    requires
        0 <= a <= k <= s.len(),
        a == 0 || s[a - 1] == '\n',
        forall|j: int| a <= j < k ==> s[j] != '\n',
    ensures
        line_start_char(s, k) == a,
{
    lemma_line_start_bounds(s, k);
    let st = line_start_char(s, k);
    if st < a {
        assert(s[a - 1] == '\n');
    }
    if a < st {
        assert(s[st - 1] == '\n');
    }
}

proof fn lemma_line_end_is(s: Seq<char>, k: int, e: int)
    requires
        0 <= k <= e <= s.len(),
        e == s.len() || s[e] == '\n',
        forall|j: int| k <= j < e ==> s[j] != '\n',
    ensures
        line_end_char(s, k) == e,
{
    lemma_line_end_bounds(s, k);
    let en = line_end_char(s, k);
    if en < e {
        assert(s[en] == '\n');
    }
    if e < en {
        assert(s[e] == '\n');
    }
}

/// Moving down keeps the column. Say the cursor stands at char `k` of a
/// line that starts at char `a` and is ended by the newline at char `b`,
/// and the next line runs from `b + 1` to `e` (a newline or the text's
/// end): the cursor lands on the next line at the same column `k - a`, or
/// at its end when the next line is shorter. On the last line it stays.
pub proof fn lemma_move_down_keeps_column(s: Seq<char>, k: int, a: int, b: int, e: int)
    requires
        0 <= a <= k <= b,
        b + 1 <= e <= s.len(),
        b < s.len(),
        a == 0 || s[a - 1] == '\n',
        s[b] == '\n',
        forall|j: int| a <= j < b ==> s[j] != '\n',
        e == s.len() || s[e] == '\n',
        forall|j: int| b < j < e ==> s[j] != '\n',
    ensures
        vertical_target(s, k, 1) == b + 1 + (if k - a <= e - (b + 1) {
            k - a
        } else {
            e - (b + 1)
        }),
{
    lemma_line_start_is(s, k, a);
    lemma_line_end_is(s, k, b);
    lemma_line_end_is(s, b + 1, e);
}

/// On the last line, moving down leaves the cursor where it is.
pub proof fn lemma_move_down_on_last_line(s: Seq<char>, k: int)
    requires
        0 <= k <= s.len(),
        forall|j: int| k <= j < s.len() ==> s[j] != '\n',
    ensures
        vertical_target(s, k, 1) == k,
{
    lemma_line_end_is(s, k, s.len() as int);
}

/// Moving up keeps the column. Say the cursor stands at char `k` of a line
/// that starts at char `a` just after a newline, and the line above starts
/// at `p`: the cursor lands on the line above at the same column `k - a`,
/// or at its end when that line is shorter. On the first line it stays.
pub proof fn lemma_move_up_keeps_column(s: Seq<char>, k: int, a: int, p: int)
    requires
        0 <= p < a <= k <= s.len(),
        s[a - 1] == '\n',
        forall|j: int| a <= j < k ==> s[j] != '\n',
        p == 0 || s[p - 1] == '\n',
        forall|j: int| p <= j < a - 1 ==> s[j] != '\n',
    ensures
        vertical_target(s, k, -1) == p + (if k - a <= a - 1 - p {
            k - a
        } else {
            a - 1 - p
        }),
{
    lemma_line_start_is(s, k, a);
    lemma_line_start_is(s, a - 1, p);
}

/// On the first line, moving up leaves the cursor where it is.
pub proof fn lemma_move_up_on_first_line(s: Seq<char>, k: int)
    requires
        0 <= k <= s.len(),
        forall|j: int| 0 <= j < k ==> s[j] != '\n',
    ensures
        vertical_target(s, k, -1) == k,
{
    lemma_line_start_is(s, k, 0);
}

} // verus!
