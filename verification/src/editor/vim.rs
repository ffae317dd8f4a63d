//! Vim-style editor modes and word motions.
use vstd::prelude::*;

use crate::text::{
    alphanumeric, byte_offset, char_is_alphanumeric, char_is_whitespace, chars_of, floor_char,
    floor_index, is_boundary, len_fits, lemma_floor_char, lemma_offset_le_len, offset_of,
    whitespace,
};

verus! {

#[derive(Clone, Copy, PartialEq, Eq, Structural)]
pub enum ComposerEditorMode {
    Standard,
    Vim(VimMode),
}

#[derive(Clone, Copy, PartialEq, Eq, Structural)]
pub enum VimMode {
    Normal,
    Insert,
}

#[derive(Clone, Copy, PartialEq, Eq, Structural)]
pub enum VimOperator {
    Delete,
}

/// The three kinds of char that word motions tell apart.
#[derive(Clone, Copy, PartialEq, Eq, Structural)]
pub enum CharClass {
    /// Alphanumeric or underscore.
    Word,
    Space,
    /// Anything else.
    Punct,
}

pub open spec fn class_of(c: char) -> CharClass {
    if alphanumeric(c) || c == '_' {
        CharClass::Word
    } else if whitespace(c) {
        CharClass::Space
    } else {
        CharClass::Punct
    }
}

/// Index of the first char at or after `i` that is not of class `class`.
pub open spec fn skip_forward(s: Seq<char>, i: int, class: CharClass) -> int
    decreases s.len() - i,
{
    if 0 <= i < s.len() && class_of(s[i]) == class {
        skip_forward(s, i + 1, class)
    } else {
        i
    }
}

/// Index just after the last char before `i` that is not of class `class`.
pub open spec fn skip_backward(s: Seq<char>, i: int, class: CharClass) -> int
    decreases i,
{
    if 0 < i <= s.len() && class_of(s[i - 1]) == class {
        skip_backward(s, i - 1, class)
    } else {
        i
    }
}

/// Char index of the start of the next word after char index `k`: skip the
/// run of word or punctuation chars under the cursor, then any whitespace.
pub open spec fn next_word_char(s: Seq<char>, k: int) -> int {
    if k >= s.len() {
        k
    } else {
        let after_run = if class_of(s[k]) == CharClass::Space {
            k
        } else {
            skip_forward(s, k, class_of(s[k]))
        };
        skip_forward(s, after_run, CharClass::Space)
    }
}

/// Char index of the start of the word before char index `k`: skip back over
/// whitespace, then over the run of word or punctuation chars before it.
pub open spec fn prev_word_char(s: Seq<char>, k: int) -> int {
    let i = skip_backward(s, k, CharClass::Space);
    if i <= 0 {
        0
    } else {
        skip_backward(s, i, class_of(s[i - 1]))
    }
}

pub proof fn lemma_skip_forward(s: Seq<char>, i: int, class: CharClass)
    requires
        0 <= i <= s.len(),
    ensures
        i <= skip_forward(s, i, class) <= s.len(),
        i < s.len() && class_of(s[i]) == class ==> i < skip_forward(s, i, class),
        forall|j: int| i <= j < skip_forward(s, i, class) ==> class_of(s[j]) == class,
        skip_forward(s, i, class) < s.len() ==> class_of(s[skip_forward(s, i, class)]) != class,
    decreases s.len() - i,
{
    if i < s.len() && class_of(s[i]) == class {
        lemma_skip_forward(s, i + 1, class);
    }
}

pub proof fn lemma_skip_backward(s: Seq<char>, i: int, class: CharClass)
    requires
        0 <= i <= s.len(),
    ensures
        0 <= skip_backward(s, i, class) <= i,
        i > 0 && class_of(s[i - 1]) == class ==> skip_backward(s, i, class) < i,
        forall|j: int| skip_backward(s, i, class) <= j < i ==> class_of(s[j]) == class,
        skip_backward(s, i, class) > 0 ==> class_of(s[skip_backward(s, i, class) - 1]) != class,
    decreases i,
{
    if i > 0 && class_of(s[i - 1]) == class {
        lemma_skip_backward(s, i - 1, class);
    }
}

/// The next word start lies strictly after any position before the end, and
/// never past the end.
pub proof fn lemma_next_word_char_advances(s: Seq<char>, k: int)
    requires
        0 <= k <= s.len(),
    ensures
        k <= next_word_char(s, k) <= s.len(),
        k < s.len() ==> k < next_word_char(s, k),
{
    if k < s.len() {
        let c = class_of(s[k]);
        if c == CharClass::Space {
            lemma_skip_forward(s, k, CharClass::Space);
        } else {
            lemma_skip_forward(s, k, c);
            lemma_skip_forward(s, skip_forward(s, k, c), CharClass::Space);
        }
    }
}

/// The previous word start lies strictly before any position after the
/// start, and never before the start.
pub proof fn lemma_prev_word_char_retreats(s: Seq<char>, k: int)
    requires
        0 <= k <= s.len(),
    ensures
        0 <= prev_word_char(s, k) <= k,
        k > 0 ==> prev_word_char(s, k) < k,
{
    lemma_skip_backward(s, k, CharClass::Space);
    let i = skip_backward(s, k, CharClass::Space);
    if i > 0 {
        lemma_skip_backward(s, i, class_of(s[i - 1]));
    }
}

/// A printable ASCII char that is neither a letter, a digit nor the
/// underscore: `.`, `-`, `(` and the like.
pub open spec fn ascii_punctuation(c: char) -> bool {
    0x21 <= (c as u32) <= 0x7e && !crate::text::ascii_alphanumeric(c) && c != '_'
}

/// The class of one char. ASCII punctuation is its own class, apart from
/// words and whitespace.
pub fn char_class(c: char) -> (r: CharClass)
    ensures
        r == class_of(c),
        ascii_punctuation(c) ==> r == CharClass::Punct,
{
    if char_is_alphanumeric(c) || c == '_' {
        CharClass::Word
    } else if char_is_whitespace(c) {
        CharClass::Space
    } else {
        CharClass::Punct
    }
}

fn skip_forward_at(v: &Vec<char>, i: usize, class: CharClass) -> (r: usize)
    requires
        i <= v@.len(),
    ensures
        r == skip_forward(v@, i as int, class),
{
    let mut j = i;
    while j < v.len() && char_class(v[j]) == class
        invariant
            i <= j <= v@.len(),
            skip_forward(v@, j as int, class) == skip_forward(v@, i as int, class),
        decreases v@.len() - j,
    {
        j = j + 1;
    }
    j
}

fn skip_backward_at(v: &Vec<char>, i: usize, class: CharClass) -> (r: usize)
    requires
        i <= v@.len(),
    ensures
        r == skip_backward(v@, i as int, class),
{
    let mut j = i;
    while j > 0 && char_class(v[j - 1]) == class
        invariant
            j <= i <= v@.len(),
            skip_backward(v@, j as int, class) == skip_backward(v@, i as int, class),
        decreases j,
    {
        j = j - 1;
    }
    j
}

/// Char index of the next word start after char index `k`.
pub fn next_word_at(v: &Vec<char>, k: usize) -> (r: usize)
    requires
        k <= v@.len(),
    ensures
        r == next_word_char(v@, k as int),
        r <= v@.len(),
{
    proof {
        lemma_next_word_char_advances(v@, k as int);
    }
    if k >= v.len() {
        return k;
    }
    let class = char_class(v[k]);
    let after_run = if class == CharClass::Space {
        k
    } else {
        skip_forward_at(v, k, class)
    };
    proof {
        lemma_skip_forward(v@, k as int, class);
    }
    skip_forward_at(v, after_run, CharClass::Space)
}

/// Char index of the previous word start before char index `k`.
pub fn prev_word_at(v: &Vec<char>, k: usize) -> (r: usize)
    requires
        k <= v@.len(),
    ensures
        r == prev_word_char(v@, k as int),
        r <= k,
{
    proof {
        lemma_prev_word_char_retreats(v@, k as int);
        lemma_skip_backward(v@, k as int, CharClass::Space);
    }
    let i = skip_backward_at(v, k, CharClass::Space);
    if i == 0 {
        return 0;
    }
    let class = char_class(v[i - 1]);
    skip_backward_at(v, i, class)
}

/// Byte position of the start of the next word after `cursor`, which must
/// lie on a char boundary (or past the end, which counts as the end).
pub fn next_word_start(buffer: &str, cursor: usize) -> (r: usize)
    requires
        len_fits(buffer@),
        is_boundary(buffer@, min_cursor(buffer@, cursor)),
    ensures
        r == byte_offset(
            buffer@,
            next_word_char(buffer@, floor_char(buffer@, cursor as int) as int),
        ),
{
    let v = chars_of(buffer);
    let k = floor_index(&v, cursor);
    let target = next_word_at(&v, k);
    offset_of(&v, target)
}

/// Byte position of the start of the word before `cursor`, which must lie on
/// a char boundary (or past the end, which counts as the end).
pub fn prev_word_start(buffer: &str, cursor: usize) -> (r: usize)
    requires
        len_fits(buffer@),
        is_boundary(buffer@, min_cursor(buffer@, cursor)),
    ensures
        r == byte_offset(
            buffer@,
            prev_word_char(buffer@, floor_char(buffer@, cursor as int) as int),
        ),
{
    let v = chars_of(buffer);
    let k = floor_index(&v, cursor);
    let target = prev_word_at(&v, k);
    offset_of(&v, target)
}

/// The cursor, or the end of the text when the cursor lies past it.
pub open spec fn min_cursor(s: Seq<char>, cursor: usize) -> int {
    if cursor <= crate::text::byte_len(s) {
        cursor as int
    } else {
        crate::text::byte_len(s) as int
    }
}

} // verus!
