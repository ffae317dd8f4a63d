//! Vim normal mode: what each key does to a buffer and its cursor.
use vstd::prelude::*;

use crate::editor::actions::{lemma_splice_offsets, splice, splice_chars};
use crate::editor::buffer::{
    line_end_at, line_end_char, line_start_at, line_start_char, lemma_line_end_bounds,
    lemma_line_start_bounds, lemma_vertical_target_bounds, vertical_target, vertical_target_at,
};
use crate::editor::vim::{
    lemma_next_word_char_advances, lemma_prev_word_char_retreats, min_cursor, next_word_at,
    next_word_char, prev_word_at, prev_word_char, VimOperator,
};
use crate::input::keys::{KeyCode, KeyEvent};
use crate::text::{
    byte_len, byte_offset, chars_of, floor_char, floor_index, is_boundary, len_fits,
    lemma_floor_char, lemma_offset_full, lemma_offset_le_len, lemma_offset_zero, offset_of,
    string_of,
};

verus! {

/// The status line that a normal-mode key sets.
#[derive(Debug, Clone, Copy, PartialEq, Eq, Structural)]
pub enum VimStatus {
    /// "Editor mode: Vim Insert"
    Insert,
    /// "Editor mode: Vim Normal"
    Normal,
    /// "d..." while a delete waits for its motion
    PendingDelete,
}

impl VimStatus {
    /// The status line's text.
    pub fn text(&self) -> (r: &'static str)
        ensures
            r@ == match *self {
                VimStatus::Insert => "Editor mode: Vim Insert"@,
                VimStatus::Normal => "Editor mode: Vim Normal"@,
                VimStatus::PendingDelete => "d..."@,
            },
    {
        match self {
            VimStatus::Insert => "Editor mode: Vim Insert",
            VimStatus::Normal => "Editor mode: Vim Normal",
            VimStatus::PendingDelete => "d...",
        }
    }
}

/// What a normal-mode key asks of the editor around the buffer.
#[derive(Debug, Clone, Copy, PartialEq, Eq, Structural)]
pub struct VimKeyOutcome {
    /// The key is a normal-mode command.
    pub handled: bool,
    /// Submit the prompt (enter in the composer).
    pub submit: bool,
    /// Switch to insert mode.
    pub enter_insert: bool,
    /// The buffer's text changed.
    pub dirty: bool,
    /// New status line, if the key sets one.
    pub status: Option<VimStatus>,
}

pub open spec fn outcome(
    handled: bool,
    submit: bool,
    enter_insert: bool,
    dirty: bool,
    status: Option<VimStatus>,
) -> VimKeyOutcome {
    VimKeyOutcome { handled, submit, enter_insert, dirty, status }
}

pub open spec fn is_char_key(code: KeyCode, c: char) -> bool {
    code == KeyCode::Char(c)
}

/// Chars deleted by `d` followed by the key `code`, as a char-index range,
/// with the cursor at char index `k`: `dd` takes the whole line and one
/// newline next to it, `dw`/`db` the span to the next/previous word start,
/// `d$`/`d0` the span to the line's end/start.
pub open spec fn delete_range(s: Seq<char>, k: int, code: KeyCode) -> Option<(int, int)> {
    let start = line_start_char(s, k);
    let end = line_end_char(s, k);
    if is_char_key(code, 'd') {
        if end < s.len() {
            Some((start, end + 1))
        } else if start > 0 {
            Some((start - 1, end))
        } else {
            Some((0, end))
        }
    } else if is_char_key(code, 'w') {
        Some((k, next_word_char(s, k)))
    } else if is_char_key(code, 'b') {
        Some((prev_word_char(s, k), k))
    } else if is_char_key(code, '$') || code == KeyCode::End {
        Some((k, end))
    } else if is_char_key(code, '0') || code == KeyCode::Home {
        Some((start, k))
    } else {
        None
    }
}

/// Result of a normal-mode key: new text, new cursor, pending operator and
/// the outcome. A pending delete consumes the key as its motion; otherwise
/// the key is a motion, an insert-mode entry, a deletion, or `d` to start a
/// delete. Keys are matched by code alone.
pub open spec fn normal_key_result(
    s: Seq<char>,
    cursor: int,
    pending: Option<VimOperator>,
    key: KeyEvent,
    submits: bool,
) -> (Seq<char>, int, Option<VimOperator>, VimKeyOutcome) {
    let k = floor_char(s, cursor) as int;
    let code = key.code;
    let at = |i: int| byte_offset(s, i) as int;
    let plain = outcome(true, false, false, false, None);
    let insert = outcome(true, false, true, false, Some(VimStatus::Insert));
    if pending is Some {
        let normal = outcome(true, false, false, false, Some(VimStatus::Normal));
        match delete_range(s, k, code) {
            Some((a, b)) => if a < b {
                (
                    splice(s, a, b, Seq::empty()),
                    at(a),
                    None,
                    outcome(true, false, false, true, Some(VimStatus::Normal)),
                )
            } else {
                (s, cursor, None, normal)
            },
            None => (s, cursor, None, normal),
        }
    } else if code == KeyCode::Enter {
        (s, cursor, None, outcome(true, submits, false, false, None))
    } else if is_char_key(code, 'i') {
        (s, cursor, None, insert)
    } else if is_char_key(code, 'a') {
        (s, if k == s.len() { byte_len(s) as int } else { at(k + 1) }, None, insert)
    } else if is_char_key(code, 'I') {
        (s, at(line_start_char(s, k)), None, insert)
    } else if is_char_key(code, 'A') {
        (s, at(line_end_char(s, k)), None, insert)
    } else if is_char_key(code, 'h') || code == KeyCode::Left {
        (s, if k == 0 { 0 } else { at(k - 1) }, None, plain)
    } else if is_char_key(code, 'l') || code == KeyCode::Right {
        (s, if k == s.len() { byte_len(s) as int } else { at(k + 1) }, None, plain)
    } else if is_char_key(code, 'k') || code == KeyCode::Up {
        (s, at(vertical_target(s, k, -1)), None, plain)
    } else if is_char_key(code, 'j') || code == KeyCode::Down {
        (s, at(vertical_target(s, k, 1)), None, plain)
    } else if is_char_key(code, 'w') {
        (s, at(next_word_char(s, k)), None, plain)
    } else if is_char_key(code, 'b') {
        (s, at(prev_word_char(s, k)), None, plain)
    } else if is_char_key(code, 'd') {
        (
            s,
            cursor,
            Some(VimOperator::Delete),
            outcome(true, false, false, false, Some(VimStatus::PendingDelete)),
        )
    } else if is_char_key(code, '0') || code == KeyCode::Home {
        (s, at(line_start_char(s, k)), None, plain)
    } else if is_char_key(code, '$') || code == KeyCode::End {
        (s, at(line_end_char(s, k)), None, plain)
    } else if is_char_key(code, 'x') || code == KeyCode::Delete {
        if k < s.len() {
            (splice(s, k, k + 1, Seq::empty()), at(k), None, outcome(true, false, false, true, None))
        } else {
            (s, at(k), None, plain)
        }
    } else if is_char_key(code, 'o') {
        let end = line_end_char(s, k);
        (
            splice(s, end, end, seq!['\n']),
            at(end) + 1,
            None,
            outcome(true, false, true, true, Some(VimStatus::Insert)),
        )
    } else if is_char_key(code, 'O') {
        let start = line_start_char(s, k);
        (
            splice(s, start, start, seq!['\n']),
            at(start),
            None,
            outcome(true, false, true, true, Some(VimStatus::Insert)),
        )
    } else {
        (s, cursor, None, outcome(false, false, false, false, None))
    }
}

/// The cursor (or the end, when the cursor lies past it) is a char boundary.
pub open spec fn cursor_valid(s: Seq<char>, cursor: int) -> bool {
    is_boundary(s, if cursor <= byte_len(s) { cursor } else { byte_len(s) as int })
}

/// A cursor at the start of any char index is valid.
pub proof fn lemma_char_target_valid(s: Seq<char>, t: int)
    requires
        0 <= t <= s.len(),
    ensures
        cursor_valid(s, byte_offset(s, t) as int),
{
    crate::text::lemma_offset_is_boundary(s, t);
    lemma_offset_le_len(s, t);
}

/// Inserting a newline at char index `at` leaves valid cursors at `at` and
/// just after the newline.
pub proof fn lemma_newline_targets_valid(s: Seq<char>, at: int)
    requires
        0 <= at <= s.len(),
    ensures
        cursor_valid(splice(s, at, at, seq!['\n']), byte_offset(s, at) as int),
        cursor_valid(splice(s, at, at, seq!['\n']), byte_offset(s, at) + 1int),
{
    let t = splice(s, at, at, seq!['\n']);
    lemma_splice_offsets(s, at, at, seq!['\n']);
    crate::editor::actions::lemma_byte_len_single('\n');
    lemma_char_target_valid(t, at);
    lemma_char_target_valid(t, at + 1);
}

/// Removing chars `a..b` leaves a valid cursor at `a`.
pub proof fn lemma_removal_target_valid(s: Seq<char>, a: int, b: int)
    requires
        0 <= a <= b <= s.len(),
    ensures
        cursor_valid(splice(s, a, b, Seq::empty()), byte_offset(s, a) as int),
{
    lemma_splice_offsets(s, a, b, Seq::empty());
    lemma_char_target_valid(splice(s, a, b, Seq::empty()), a);
}

/// Normal mode keeps the editor's invariant. If the cursor starts on a
/// char boundary, it ends on a char boundary of the new text, whatever the
/// key; and the text changes only when the outcome reports it dirty.
#[verifier::rlimit(80)]
#[verifier::spinoff_prover]
pub proof fn lemma_normal_key_keeps_cursor_valid(
    s: Seq<char>,
    cursor: int,
    pending: Option<VimOperator>,
    key: KeyEvent,
    submits: bool,
)
    requires
        0 <= cursor,
        cursor_valid(s, cursor),
    ensures
        ({
            let (t, c, _, out) = normal_key_result(s, cursor, pending, key, submits);
            &&& cursor_valid(t, c)
            &&& !out.dirty ==> t == s
        }),
{
    let k = floor_char(s, cursor) as int;
    lemma_floor_char(s, cursor);
    lemma_offset_full(s);
    lemma_offset_zero(s);
    lemma_line_start_bounds(s, k);
    lemma_line_end_bounds(s, k);
    lemma_next_word_char_advances(s, k);
    lemma_prev_word_char_retreats(s, k);
    lemma_vertical_target_bounds(s, k, -1);
    lemma_vertical_target_bounds(s, k, 1);
    lemma_char_target_valid(s, k);
    lemma_char_target_valid(s, line_start_char(s, k));
    lemma_char_target_valid(s, line_end_char(s, k));
    lemma_char_target_valid(s, vertical_target(s, k, -1));
    lemma_char_target_valid(s, vertical_target(s, k, 1));
    lemma_char_target_valid(s, next_word_char(s, k));
    lemma_char_target_valid(s, prev_word_char(s, k));
    lemma_char_target_valid(s, s.len() as int);
    if k > 0 {
        lemma_char_target_valid(s, k - 1);
    }
    if k < s.len() {
        lemma_char_target_valid(s, k + 1);
        lemma_removal_target_valid(s, k, k + 1);
    }
    lemma_newline_targets_valid(s, line_end_char(s, k));
    lemma_newline_targets_valid(s, line_start_char(s, k));
    match delete_range(s, k, key.code) {
        Some((a, b)) => {
            if a < b {
                lemma_removal_target_valid(s, a, b);
            }
        },
        None => {},
    }
}

fn char_key(code: KeyCode, c: char) -> (r: bool)
    ensures
        r == is_char_key(code, c),
{
    match code {
        KeyCode::Char(x) => x == c,
        _ => false,
    }
}

fn delete_range_at(v: &Vec<char>, k: usize, code: KeyCode) -> (r: Option<(usize, usize)>)
    requires
        k <= v@.len(),
    ensures
        match delete_range(v@, k as int, code) {
            None => r is None,
            Some((a, b)) => r matches Some((x, y)) && x == a && y == b && x <= v@.len()
                && y <= v@.len(),
        },
{
    proof {
        lemma_line_start_bounds(v@, k as int);
        lemma_line_end_bounds(v@, k as int);
        lemma_next_word_char_advances(v@, k as int);
        lemma_prev_word_char_retreats(v@, k as int);
    }
    let start = line_start_at(v, k);
    let end = line_end_at(v, k);
    if char_key(code, 'd') {
        if end < v.len() {
            Some((start, end + 1))
        } else if start > 0 {
            Some((start - 1, end))
        } else {
            Some((0, end))
        }
    } else if char_key(code, 'w') {
        Some((k, next_word_at(v, k)))
    } else if char_key(code, 'b') {
        Some((prev_word_at(v, k), k))
    } else if char_key(code, '$') || code == KeyCode::End {
        Some((k, end))
    } else if char_key(code, '0') || code == KeyCode::Home {
        Some((start, k))
    } else {
        None
    }
}

/// The key is a word motion, `w` or `b`, with no operator waiting: these
/// read the text from the cursor on as it stands, so the cursor must lie
/// on a char boundary. Every other key first moves the cursor back to the
/// boundary at or before it.
pub open spec fn moves_by_word(pending: Option<VimOperator>, key: KeyEvent) -> bool {
    pending is None && (is_char_key(key.code, 'w') || is_char_key(key.code, 'b'))
}

/// Handles a key in vim normal mode on `buffer` and `cursor`, with
/// `pending` holding an operator that waits for its motion. `submits` tells
/// whether enter submits (it does in the composer).
pub fn handle_vim_normal_key(
    buffer: &mut String,
    cursor: &mut usize,
    pending: &mut Option<VimOperator>,
    key: KeyEvent,
    submits: bool,
) -> (r: VimKeyOutcome)
    requires
        len_fits(old(buffer)@),
        moves_by_word(*old(pending), key) ==> is_boundary(
            old(buffer)@,
            min_cursor(old(buffer)@, *old(cursor)),
        ),
    ensures
        (final(buffer)@, *final(cursor) as int, *final(pending), r) == normal_key_result(
            old(buffer)@,
            *old(cursor) as int,
            *old(pending),
            key,
            submits,
        ),
{
    let v = chars_of(buffer.as_str());
    let k = floor_index(&v, *cursor);
    proof {
        lemma_floor_char(v@, *cursor as int);
        lemma_offset_le_len(v@, k as int);
        lemma_offset_full(v@);
        lemma_offset_zero(v@);
        lemma_line_start_bounds(v@, k as int);
        lemma_line_end_bounds(v@, k as int);
        lemma_next_word_char_advances(v@, k as int);
        lemma_prev_word_char_retreats(v@, k as int);
        lemma_vertical_target_bounds(v@, k as int, -1);
        lemma_vertical_target_bounds(v@, k as int, 1);
    }
    let code = key.code;
    let plain = VimKeyOutcome {
        handled: true,
        submit: false,
        enter_insert: false,
        dirty: false,
        status: None,
    };
    let insert = VimKeyOutcome {
        handled: true,
        submit: false,
        enter_insert: true,
        dirty: false,
        status: Some(VimStatus::Insert),
    };
    if pending.is_some() {
        *pending = None;
        let range = delete_range_at(&v, k, code);
        let mut changed = false;
        match range {
            Some((a, b)) => {
                if a < b {
                    let empty: Vec<char> = Vec::new();
                    let text = splice_chars(&v, a, b, &empty);
                    *cursor = offset_of(&v, a);
                    *buffer = string_of(text.as_slice());
                    changed = true;
                }
            },
            None => {},
        }
        return VimKeyOutcome {
            handled: true,
            submit: false,
            enter_insert: false,
            dirty: changed,
            status: Some(VimStatus::Normal),
        };
    }
    if code == KeyCode::Enter {
        return VimKeyOutcome {
            handled: true,
            submit: submits,
            enter_insert: false,
            dirty: false,
            status: None,
        };
    }
    if char_key(code, 'i') {
        return insert;
    }
    if char_key(code, 'a') {
        *cursor = offset_of(&v, if k == v.len() { k } else { k + 1 });
        return insert;
    }
    if char_key(code, 'I') {
        *cursor = offset_of(&v, line_start_at(&v, k));
        return insert;
    }
    if char_key(code, 'A') {
        *cursor = offset_of(&v, line_end_at(&v, k));
        return insert;
    }
    if char_key(code, 'h') || code == KeyCode::Left {
        *cursor = offset_of(&v, if k == 0 { 0 } else { k - 1 });
        return plain;
    }
    if char_key(code, 'l') || code == KeyCode::Right {
        *cursor = offset_of(&v, if k == v.len() { k } else { k + 1 });
        return plain;
    }
    if char_key(code, 'k') || code == KeyCode::Up {
        *cursor = offset_of(&v, vertical_target_at(&v, k, -1));
        return plain;
    }
    if char_key(code, 'j') || code == KeyCode::Down {
        *cursor = offset_of(&v, vertical_target_at(&v, k, 1));
        return plain;
    }
    if char_key(code, 'w') {
        *cursor = offset_of(&v, next_word_at(&v, k));
        return plain;
    }
    if char_key(code, 'b') {
        *cursor = offset_of(&v, prev_word_at(&v, k));
        return plain;
    }
    if char_key(code, 'd') {
        *pending = Some(VimOperator::Delete);
        return VimKeyOutcome {
            handled: true,
            submit: false,
            enter_insert: false,
            dirty: false,
            status: Some(VimStatus::PendingDelete),
        };
    }
    if char_key(code, '0') || code == KeyCode::Home {
        *cursor = offset_of(&v, line_start_at(&v, k));
        return plain;
    }
    if char_key(code, '$') || code == KeyCode::End {
        *cursor = offset_of(&v, line_end_at(&v, k));
        return plain;
    }
    if char_key(code, 'x') || code == KeyCode::Delete {
        *cursor = offset_of(&v, k);
        if k < v.len() {
            let empty: Vec<char> = Vec::new();
            let text = splice_chars(&v, k, k + 1, &empty);
            *buffer = string_of(text.as_slice());
            return VimKeyOutcome {
                handled: true,
                submit: false,
                enter_insert: false,
                dirty: true,
                status: None,
            };
        }
        return plain;
    }
    if char_key(code, 'o') || char_key(code, 'O') {
        let at = if char_key(code, 'o') {
            line_end_at(&v, k)
        } else {
            line_start_at(&v, k)
        };
        let ins = vec!['\n'];
        let text = splice_chars(&v, at, at, &ins);
        let off = offset_of(&v, at);
        proof {
            lemma_offset_le_len(v@, at as int);
        }
        *cursor = if char_key(code, 'o') { off + 1 } else { off };
        *buffer = string_of(text.as_slice());
        return VimKeyOutcome {
            handled: true,
            submit: false,
            enter_insert: true,
            dirty: true,
            status: Some(VimStatus::Insert),
        };
    }
    VimKeyOutcome {
        handled: false,
        submit: false,
        enter_insert: false,
        dirty: false,
        status: None,
    }
}

/// `dd` on a line that a newline ends deletes the whole line with that
/// newline. Say the cursor stands at char `k` of a line that runs from char
/// `a` (the text's start or just after a newline) to the newline at char
/// `b`: the text becomes the text without chars `a` through `b`, the
/// cursor goes to where the line began, and the edit is reported.
pub proof fn lemma_dd_deletes_line_with_newline(
    s: Seq<char>,
    k: int,
    a: int,
    b: int,
    key: KeyEvent,
    submits: bool,
)
    requires
        0 <= a <= k <= b < s.len(),
        a == 0 || s[a - 1] == '\n',
        s[b] == '\n',
        forall|j: int| a <= j < b ==> s[j] != '\n',
        key.code == KeyCode::Char('d'),
    ensures
        ({
            let r = normal_key_result(
                s,
                byte_offset(s, k) as int,
                Some(VimOperator::Delete),
                key,
                submits,
            );
            &&& r.0 == s.take(a) + s.skip(b + 1)
            &&& r.1 == byte_offset(s, a)
            &&& r.2 is None
            &&& r.3.dirty
        }),
{
    crate::text::lemma_offset_is_boundary(s, k);
    lemma_line_start_bounds(s, k);
    lemma_line_end_bounds(s, k);
    let st = line_start_char(s, k);
    let en = line_end_char(s, k);
    if st < a {
        assert(s[a - 1] == '\n');
    }
    if a < st {
        assert(s[st - 1] == '\n');
    }
    if en < b {
        assert(s[en] == '\n');
    }
    if b < en {
        assert(s[b] != '\n');
    }
    assert(st == a && en == b);
    assert(splice(s, a, b + 1, Seq::empty()) =~= s.take(a) + s.skip(b + 1));
}

/// `dd` on the last line, which no newline ends, deletes the line with the
/// newline before it, so the line above becomes the last; when it is the
/// only line, the text becomes empty. The cursor goes to where the deleted
/// chars began.
pub proof fn lemma_dd_deletes_last_line(s: Seq<char>, k: int, a: int, key: KeyEvent, submits: bool)
    requires
        0 <= a <= k <= s.len(),
        a < s.len(),
        a == 0 || s[a - 1] == '\n',
        forall|j: int| a <= j < s.len() ==> s[j] != '\n',
        key.code == KeyCode::Char('d'),
    ensures
        ({
            let r = normal_key_result(
                s,
                byte_offset(s, k) as int,
                Some(VimOperator::Delete),
                key,
                submits,
            );
            let from = if a > 0 {
                a - 1
            } else {
                0
            };
            &&& r.0 == s.take(from)
            &&& r.1 == byte_offset(s, from)
            &&& r.2 is None
            &&& r.3.dirty
        }),
{
    crate::text::lemma_offset_is_boundary(s, k);
    lemma_line_start_bounds(s, k);
    lemma_line_end_bounds(s, k);
    let st = line_start_char(s, k);
    let en = line_end_char(s, k);
    if st < a {
        assert(s[a - 1] == '\n');
    }
    if a < st {
        assert(s[st - 1] == '\n');
    }
    if en < s.len() {
        assert(s[en] == '\n');
    }
    assert(st == a && en == s.len());
    let from = if a > 0 {
        a - 1
    } else {
        0
    };
    assert(splice(s, from, s.len() as int, Seq::empty()) =~= s.take(from));
}

} // verus!
