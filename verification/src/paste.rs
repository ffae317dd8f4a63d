//! Pasted text in the composer. A long paste is collapsed into one
//! placeholder char in the editor, with its full text kept beside it as a
//! snippet; the document is expanded again when it is sent.
use vstd::prelude::*;

pub mod roundtrip;

use crate::codec::{
    base64_decode, base64_encode, decode_base64, encode_base64, format_uuid, parse_uuid, random_uuid,
    string_from_utf8, uuid_hyphenated, uuid_parse,
};
use crate::text::{
    contains, lemma_find_from_none, chars_of, decimal, find_at, find_from, len_fits, lemma_find_from_found, occurs_at, push_char,
    push_decimal, push_str, string_of, sub_chars,
};
use vstd::utf8::{decode_utf8, encode_utf8, valid_utf8};

verus! {

/// Pastes longer than this many chars are collapsed.
pub const PASTE_COLLAPSE_THRESHOLD_CHARS: usize = 1200;

/// Pastes longer than this many chars are refused.
pub const PASTE_HARD_CEILING_CHARS: usize = 250000;

/// Stands in the editor for one collapsed snippet.
pub const SNIPPET_PLACEHOLDER_CHAR: char = '\u{FFFC}';

#[derive(Debug, Clone, PartialEq, Eq)]
pub struct TuiComposerSnippet {
    /// The snippet's UUID, as its 128-bit value.
    pub id: u128,
    pub full_text: String,
    pub char_count: usize,
    pub line_count: usize,
    pub collapsed: bool,
}

/// Number of occurrences of `c` in `s`.
pub open spec fn count_char(s: Seq<char>, c: char) -> nat
    decreases s.len(),
{
    if s.len() == 0 {
        0
    } else {
        count_char(s.drop_last(), c) + if s.last() == c {
            1nat
        } else {
            0nat
        }
    }
}

/// Number of lines in `s` as `str::lines` yields them: one per newline, plus
/// one for text after the last newline.
pub open spec fn line_count(s: Seq<char>) -> nat {
    if s.len() == 0 {
        0
    } else if s.last() == '\n' {
        count_char(s, '\n')
    } else {
        count_char(s, '\n') + 1
    }
}

/// `document` with each placeholder replaced by the next of `fills`; a
/// placeholder with no fill left is dropped.
pub open spec fn expand(document: Seq<char>, fills: Seq<Seq<char>>) -> Seq<char>
    decreases document.len(),
{
    if document.len() == 0 {
        Seq::empty()
    } else if document[0] == SNIPPET_PLACEHOLDER_CHAR {
        if fills.len() > 0 {
            fills[0] + expand(document.drop_first(), fills.drop_first())
        } else {
            expand(document.drop_first(), fills)
        }
    } else {
        seq![document[0]] + expand(document.drop_first(), fills)
    }
}

/// The full texts of the snippets, in order.
pub open spec fn snippet_texts(snippets: Seq<TuiComposerSnippet>) -> Seq<Seq<char>> {
    snippets.map_values(|s: TuiComposerSnippet| s.full_text@)
}

pub proof fn lemma_count_char_step(s: Seq<char>, i: int, c: char)
    requires
        0 <= i < s.len(),
    ensures
        count_char(s.take(i + 1), c) == count_char(s.take(i), c) + if s[i] == c {
            1nat
        } else {
            0nat
        },
{
    assert(s.take(i + 1).drop_last() =~= s.take(i));
}

pub proof fn lemma_count_char_le_len(s: Seq<char>, c: char)
    ensures
        count_char(s, c) <= s.len(),
    decreases s.len(),
{
    if s.len() > 0 {
        lemma_count_char_le_len(s.drop_last(), c);
    }
}

/// Number of chars in the pasted text.
pub fn paste_char_count(text: &str) -> (r: usize)
    ensures
        r == text@.len(),
{
    text.unicode_len()
}

/// Number of lines in the pasted text, at least one.
pub fn paste_line_count(text: &str) -> (r: usize)
    ensures
        r == if line_count(text@) == 0 {
            1
        } else {
            line_count(text@)
        },
{
    let v = chars_of(text);
    let mut newlines: usize = 0;
    let mut i: usize = 0;
    while i < v.len()
        invariant
            i <= v@.len(),
            v@ == text@,
            newlines == count_char(v@.take(i as int), '\n'),
            newlines <= i,
        decreases v@.len() - i,
    {
        proof {
            lemma_count_char_step(v@, i as int, '\n');
        }
        if v[i] == '\n' {
            newlines = newlines + 1;
        }
        i = i + 1;
    }
    proof {
        assert(v@.take(v@.len() as int) =~= v@);
    }
    if v.len() == 0 {
        return 1;
    }
    proof {
        let n = v@.len() as int;
        lemma_count_char_step(v@, n - 1, '\n');
        lemma_count_char_le_len(v@.take(n - 1), '\n');
        assert(v@.take(n) =~= v@);
    }
    let lines = if v[v.len() - 1] == '\n' {
        newlines
    } else {
        newlines + 1
    };
    if lines == 0 {
        1
    } else {
        lines
    }
}

/// A paste this long is collapsed into a snippet.
pub fn should_collapse_paste(text: &str) -> (r: bool)
    ensures
        r == (text@.len() > PASTE_COLLAPSE_THRESHOLD_CHARS),
{
    paste_char_count(text) > PASTE_COLLAPSE_THRESHOLD_CHARS
}

/// A paste this long is refused.
pub fn exceeds_paste_ceiling(text: &str) -> (r: bool)
    ensures
        r == (text@.len() > PASTE_HARD_CEILING_CHARS),
{
    paste_char_count(text) > PASTE_HARD_CEILING_CHARS
}

/// A collapsed snippet holding `full_text`, with a fresh random id.
pub fn new_snippet(full_text: String) -> (r: TuiComposerSnippet)
    ensures
        r.full_text@ == full_text@,
        r.char_count == full_text@.len(),
        r.line_count == if line_count(full_text@) == 0 {
            1
        } else {
            line_count(full_text@)
        },
        r.collapsed,
{
    let char_count = paste_char_count(full_text.as_str());
    let line_count = paste_line_count(full_text.as_str());
    TuiComposerSnippet {
        id: random_uuid(),
        full_text,
        char_count,
        line_count,
        collapsed: true,
    }
}

/// The label shown for a collapsed snippet.
pub fn snippet_label(snippet: &TuiComposerSnippet) -> (r: String)
    ensures
        r@ == "[Pasted Text] "@ + decimal(snippet.char_count as nat) + " chars, "@ + decimal(
            snippet.line_count as nat,
        ) + " lines"@,
{
    let mut label = String::new();
    push_str(&mut label, "[Pasted Text] ");
    push_decimal(&mut label, snippet.char_count as u64);
    push_str(&mut label, " chars, ");
    push_decimal(&mut label, snippet.line_count as u64);
    push_str(&mut label, " lines");
    label
}

/// Number of placeholders before `cursor`, a byte position that must lie on
/// a char boundary (a cursor past the end counts as the end).
pub fn placeholder_count_before(text: &str, cursor: usize) -> (r: usize)
    requires
        crate::text::len_fits(text@),
        crate::text::is_boundary(text@, crate::editor::vim::min_cursor(text@, cursor)),
    ensures
        r == count_char(
            text@.take(crate::text::floor_char(text@, cursor as int) as int),
            SNIPPET_PLACEHOLDER_CHAR,
        ),
{
    let v = chars_of(text);
    let k = crate::text::floor_index(&v, cursor);
    let mut count: usize = 0;
    let mut i: usize = 0;
    while i < k
        invariant
            i <= k <= v@.len(),
            count == count_char(v@.take(i as int), SNIPPET_PLACEHOLDER_CHAR),
            count <= i,
        decreases k - i,
    {
        proof {
            lemma_count_char_step(v@, i as int, SNIPPET_PLACEHOLDER_CHAR);
        }
        if v[i] == SNIPPET_PLACEHOLDER_CHAR {
            count = count + 1;
        }
        i = i + 1;
    }
    count
}

pub proof fn lemma_expand_step(document: Seq<char>, fills: Seq<Seq<char>>, i: int, j: int)
    requires
        0 <= i < document.len(),
        0 <= j <= fills.len(),
    ensures
        expand(document.skip(i), fills.skip(j)) == if document[i] == SNIPPET_PLACEHOLDER_CHAR {
            if j < fills.len() {
                fills[j] + expand(document.skip(i + 1), fills.skip(j + 1))
            } else {
                expand(document.skip(i + 1), fills.skip(j))
            }
        } else {
            seq![document[i]] + expand(document.skip(i + 1), fills.skip(j))
        },
{
    assert(document.skip(i).drop_first() =~= document.skip(i + 1));
    if j < fills.len() {
        assert(fills.skip(j).drop_first() =~= fills.skip(j + 1));
    }
}

/// The document with each placeholder replaced by the full text of the next
/// snippet, in order.
pub fn expand_document(text: &str, snippets: &[TuiComposerSnippet]) -> (r: String)
    ensures
        r@ == expand(text@, snippet_texts(snippets@)),
{
    let v = chars_of(text);
    let ghost fills = snippet_texts(snippets@);
    let mut expanded = String::new();
    let mut i: usize = 0;
    let mut j: usize = 0;
    proof {
        assert(v@.skip(0) =~= v@);
        assert(fills.skip(0) =~= fills);
    }
    while i < v.len()
        invariant
            i <= v@.len(),
            j <= snippets@.len(),
            v@ == text@,
            fills == snippet_texts(snippets@),
            fills.len() == snippets@.len(),
            expanded@ + expand(v@.skip(i as int), fills.skip(j as int)) == expand(text@, fills),
        decreases v@.len() - i,
    {
        proof {
            lemma_expand_step(v@, fills, i as int, j as int);
        }
        let ch = v[i];
        if ch == SNIPPET_PLACEHOLDER_CHAR {
            if j < snippets.len() {
                push_str(&mut expanded, snippets[j].full_text.as_str());
                j = j + 1;
            }
        } else {
            push_char(&mut expanded, ch);
        }
        i = i + 1;
        proof {
            assert(expanded@ + expand(v@.skip(i as int), fills.skip(j as int)) =~= expand(
                text@,
                fills,
            ));
        }
    }
    proof {
        assert(v@.skip(v@.len() as int) =~= Seq::<char>::empty());
    }
    expanded
}


/// Opens a snippet marker in a serialized draft.
pub open spec fn marker_prefix() -> Seq<char> {
    seq!['<', '|', 'V', 'K', '_', 'P', 'A', 'S', 'T', 'E', 'D', '_', 'T', 'E', 'X', 'T', ':']
}

/// Closes a snippet marker in a serialized draft.
pub open spec fn marker_suffix() -> Seq<char> {
    seq!['|', '>']
}

/// What a marker holds between its prefix and suffix: the snippet's UUID, a
/// colon, the Base64 of its text's UTF-8.
pub open spec fn marker_inner(id: u128, text: Seq<char>) -> Seq<char> {
    uuid_hyphenated(id) + seq![':'] + base64_encode(encode_utf8(text))
}

/// The marker that stands for a snippet in a serialized draft.
pub open spec fn marker(id: u128, text: Seq<char>) -> Seq<char> {
    marker_prefix() + marker_inner(id, text) + marker_suffix()
}

/// The id and text of each snippet, in order.
pub open spec fn snippet_models(snippets: Seq<TuiComposerSnippet>) -> Seq<(u128, Seq<char>)> {
    snippets.map_values(|s: TuiComposerSnippet| (s.id, s.full_text@))
}

pub open spec fn snippet_markers(snippets: Seq<TuiComposerSnippet>) -> Seq<Seq<char>> {
    snippets.map_values(|s: TuiComposerSnippet| marker(s.id, s.full_text@))
}

/// Every snippet text fits in a Rust string.
pub open spec fn snippets_fit(snippets: Seq<TuiComposerSnippet>) -> bool {
    forall|i: int| 0 <= i < snippets.len() ==> len_fits(#[trigger] snippets[i].full_text@)
}

/// The marker for one snippet.
pub fn snippet_marker(snippet: &TuiComposerSnippet) -> (r: String)
    requires
        len_fits(snippet.full_text@),
    ensures
        r@ == marker(snippet.id, snippet.full_text@),
        parse_marker(marker_inner(snippet.id, snippet.full_text@)) == Some(
            (snippet.id, snippet.full_text@),
        ),
{
    proof {
        reveal_strlit("<|VK_PASTED_TEXT:");
        reveal_strlit(":");
        reveal_strlit("|>");
        crate::text::lemma_byte_len_is_encoded_len(snippet.full_text@);
        assert("<|VK_PASTED_TEXT:"@ =~= marker_prefix());
        assert("|>"@ =~= marker_suffix());
        assert(":"@ =~= seq![':']);
    }
    let bytes = snippet.full_text.as_str().as_bytes();
    let payload = encode_base64(bytes);
    let id = format_uuid(snippet.id);
    let mut out = String::new();
    push_str(&mut out, "<|VK_PASTED_TEXT:");
    push_str(&mut out, id.as_str());
    push_str(&mut out, ":");
    push_str(&mut out, payload.as_str());
    push_str(&mut out, "|>");
    proof {
        assert(out@ =~= marker(snippet.id, snippet.full_text@));
        roundtrip::lemma_parse_marker_inner(snippet.id, snippet.full_text@);
    }
    out
}

/// The document as a draft is saved: each placeholder replaced by the
/// marker of the next snippet, in order (a placeholder with no snippet left
/// is dropped).
pub fn serialize_document_for_draft(text: &str, snippets: &[TuiComposerSnippet]) -> (r: String)
    requires
        snippets_fit(snippets@),
    ensures
        r@ == expand(text@, snippet_markers(snippets@)),
        count_char(text@, SNIPPET_PLACEHOLDER_CHAR) == snippets@.len() && !contains(
            text@,
            marker_prefix(),
        ) ==> restore_from(r@, 0) == (text@, snippet_models(snippets@)),
{
    let v = chars_of(text);
    let ghost fills = snippet_markers(snippets@);
    let mut serialized = String::new();
    let mut i: usize = 0;
    let mut j: usize = 0;
    proof {
        assert(v@.skip(0) =~= v@);
        assert(fills.skip(0) =~= fills);
    }
    while i < v.len()
        invariant
            i <= v@.len(),
            j <= snippets@.len(),
            v@ == text@,
            snippets_fit(snippets@),
            fills == snippet_markers(snippets@),
            fills.len() == snippets@.len(),
            serialized@ + expand(v@.skip(i as int), fills.skip(j as int)) == expand(text@, fills),
            j == if count_char(v@.take(i as int), SNIPPET_PLACEHOLDER_CHAR) < snippets@.len() {
                count_char(v@.take(i as int), SNIPPET_PLACEHOLDER_CHAR)
            } else {
                snippets@.len()
            },
            forall|k: int|
                0 <= k < j ==> #[trigger] parse_marker(
                    marker_inner(snippets@[k].id, snippets@[k].full_text@),
                ) == Some((snippets@[k].id, snippets@[k].full_text@)),
        decreases v@.len() - i,
    {
        proof {
            lemma_expand_step(v@, fills, i as int, j as int);
            lemma_count_char_step(v@, i as int, SNIPPET_PLACEHOLDER_CHAR);
        }
        let ch = v[i];
        if ch == SNIPPET_PLACEHOLDER_CHAR {
            if j < snippets.len() {
                let m = snippet_marker(&snippets[j]);
                push_str(&mut serialized, m.as_str());
                j = j + 1;
            }
        } else {
            push_char(&mut serialized, ch);
        }
        i = i + 1;
        proof {
            assert(serialized@ + expand(v@.skip(i as int), fills.skip(j as int)) =~= expand(
                text@,
                fills,
            ));
        }
    }
    proof {
        assert(v@.skip(v@.len() as int) =~= Seq::<char>::empty());
        assert(v@.take(v@.len() as int) =~= v@);
        if count_char(text@, SNIPPET_PLACEHOLDER_CHAR) == snippets@.len() && !contains(
            text@,
            marker_prefix(),
        ) {
            lemma_find_from_none(text@, marker_prefix(), 0);
            roundtrip::lemma_draft_roundtrip(text@, snippets@);
        }
    }
    serialized
}


/// What a marker's inner text (between prefix and suffix) stands for: the
/// text before the first colon must parse as a UUID, and the rest must be
/// Base64 of valid UTF-8. The result is the id and the snippet's text.
pub open spec fn parse_marker(m: Seq<char>) -> Option<(u128, Seq<char>)> {
    match find_from(m, seq![':'], 0) {
        None => None,
        Some(c) => match uuid_parse(m.take(c as int)) {
            None => None,
            Some(id) => match base64_decode(m.skip(c + 1int)) {
                None => None,
                Some(bytes) => if valid_utf8(bytes) {
                    Some((id, decode_utf8(bytes)))
                } else {
                    None
                },
            },
        },
    }
}

/// Reading a saved draft from index `i` on: each well-formed marker becomes a
/// placeholder and a snippet; a marker that does not parse stays as text; an
/// unclosed marker and everything after it stays as text.
pub open spec fn restore_from(msg: Seq<char>, i: int) -> (Seq<char>, Seq<(u128, Seq<char>)>)
    decreases msg.len() - i,
{
    let all = msg.subrange(i, msg.len() as int);
    if i < 0 || i > msg.len() {
        (Seq::empty(), Seq::empty())
    } else {
        match find_from(msg, marker_prefix(), i) {
            None => (all, Seq::empty()),
            Some(d) => {
                let start = i + d;
                let after = start + marker_prefix().len();
                match find_from(msg, marker_suffix(), after) {
                    None => (all, Seq::empty()),
                    Some(d2) => {
                        let close = after + d2;
                        let end = close + marker_suffix().len();
                        if end > msg.len() {
                            (all, Seq::empty())
                        } else {
                            let rest = restore_from(msg, end);
                            match parse_marker(msg.subrange(after, close)) {
                                None => (msg.subrange(i, end) + rest.0, rest.1),
                                Some(x) => (
                                    msg.subrange(i, start) + seq![SNIPPET_PLACEHOLDER_CHAR]
                                        + rest.0,
                                    seq![x] + rest.1,
                                ),
                            }
                        }
                    },
                }
            },
        }
    }
}

/// A restored snippet: the id and text that its marker held, its counts
/// computed from the text, collapsed.
pub open spec fn restored_snippet(s: TuiComposerSnippet, model: (u128, Seq<char>)) -> bool {
    &&& s.id == model.0
    &&& s.full_text@ == model.1
    &&& s.char_count == model.1.len()
    &&& s.line_count == if line_count(model.1) == 0 {
        1
    } else {
        line_count(model.1)
    }
    &&& s.collapsed
}

/// Parses a marker's inner text into a snippet.
pub fn parse_snippet_marker(m: &Vec<char>) -> (r: Option<TuiComposerSnippet>)
    ensures
        match parse_marker(m@) {
            None => r is None,
            Some(model) => r matches Some(s) && restored_snippet(s, model),
        },
{
    let mlen = m.len();
    let colon = vec![':'];
    proof {
        assert(colon@ =~= seq![':']);
    }
    let c = match find_at(m, &colon, 0) {
        Some(c) => c,
        None => {
            return None;
        },
    };
    proof {
        lemma_find_from_found(m@, seq![':'], 0);
        assert(occurs_at(m@, c as int, seq![':']));
        assert(c < m@.len());
    }
    let id_chars = sub_chars(m, 0, c);
    let id_text = string_of(id_chars.as_slice());
    proof {
        assert(m@.subrange(0, c as int) =~= m@.take(c as int));
    }
    let id = match parse_uuid(id_text.as_str()) {
        Some(id) => id,
        None => {
            return None;
        },
    };
    let payload_chars = sub_chars(m, c + 1, m.len());
    let payload = string_of(payload_chars.as_slice());
    proof {
        assert(m@.subrange(c + 1, m@.len() as int) =~= m@.skip(c + 1));
    }
    let bytes = match decode_base64(payload.as_str()) {
        Some(b) => b,
        None => {
            return None;
        },
    };
    let full_text = match string_from_utf8(bytes) {
        Some(t) => t,
        None => {
            return None;
        },
    };
    let char_count = paste_char_count(full_text.as_str());
    let line_count = paste_line_count(full_text.as_str());
    Some(TuiComposerSnippet { id, full_text, char_count, line_count, collapsed: true })
}

/// Reads a saved draft back into the editor's document and its snippets:
/// each marker that parses becomes a placeholder and a collapsed snippet.
pub fn restore_document_from_draft(message: &str) -> (r: (String, Vec<TuiComposerSnippet>))
    ensures
        r.0@ == restore_from(message@, 0).0,
        r.1@.len() == restore_from(message@, 0).1.len(),
        forall|k: int|
            0 <= k < r.1@.len() ==> restored_snippet(
                #[trigger] r.1@[k],
                restore_from(message@, 0).1[k],
            ),
{
    let v = chars_of(message);
    let prefix = vec!['<', '|', 'V', 'K', '_', 'P', 'A', 'S', 'T', 'E', 'D', '_', 'T', 'E', 'X', 'T', ':'];
    let suffix = vec!['|', '>'];
    proof {
        assert(prefix@ =~= marker_prefix());
        assert(suffix@ =~= marker_suffix());
    }
    let ghost whole = restore_from(v@, 0);
    let mut text = String::new();
    let mut snippets: Vec<TuiComposerSnippet> = Vec::new();
    let mut cursor: usize = 0;
    loop
        invariant_except_break
            v@ == message@,
            prefix@ == marker_prefix(),
            suffix@ == marker_suffix(),
            whole == restore_from(v@, 0),
            cursor <= v@.len(),
            text@ + restore_from(v@, cursor as int).0 == whole.0,
            snippets@.len() + restore_from(v@, cursor as int).1.len() == whole.1.len(),
            forall|k: int|
                0 <= k < snippets@.len() ==> restored_snippet(#[trigger] snippets@[k], whole.1[k]),
            forall|k: int|
                0 <= k < restore_from(v@, cursor as int).1.len() ==> whole.1[snippets@.len()
                    + k] == #[trigger] restore_from(v@, cursor as int).1[k],
        ensures
            text@ == whole.0,
            snippets@.len() == whole.1.len(),
            forall|k: int|
                0 <= k < snippets@.len() ==> restored_snippet(#[trigger] snippets@[k], whole.1[k]),
        decreases v@.len() - cursor,
    {
        let ghost here = restore_from(v@, cursor as int);
        let tail_all = sub_chars(&v, cursor, v.len());
        let start = match find_at(&v, &prefix, cursor) {
            Some(p) => p,
            None => {
                let tail = string_of(tail_all.as_slice());
                push_str(&mut text, tail.as_str());
                proof {
                    assert(here.1 =~= Seq::<(u128, Seq<char>)>::empty());
                }
                break;
            },
        };
        proof {
            lemma_find_from_found(v@, marker_prefix(), cursor as int);
        }
        let after = start + 17;
        let close = match find_at(&v, &suffix, after) {
            Some(q) => q,
            None => {
                let tail = string_of(tail_all.as_slice());
                push_str(&mut text, tail.as_str());
                proof {
                    assert(here.1 =~= Seq::<(u128, Seq<char>)>::empty());
                }
                break;
            },
        };
        proof {
            lemma_find_from_found(v@, marker_suffix(), after as int);
        }
        let end = close + 2;
        let inner = sub_chars(&v, after, close);
        let ghost rest = restore_from(v@, end as int);
        match parse_snippet_marker(&inner) {
            None => {
                let piece = sub_chars(&v, cursor, end);
                let piece_text = string_of(piece.as_slice());
                push_str(&mut text, piece_text.as_str());
                proof {
                    assert(text@ + rest.0 =~= whole.0);
                }
            },
            Some(snippet) => {
                let ghost old_len = snippets@.len();
                proof {
                    assert(whole.1[old_len + 0int] == here.1[0]);
                }
                let piece = sub_chars(&v, cursor, start);
                let piece_text = string_of(piece.as_slice());
                push_str(&mut text, piece_text.as_str());
                push_char(&mut text, SNIPPET_PLACEHOLDER_CHAR);
                snippets.push(snippet);
                proof {
                    assert(text@ + rest.0 =~= whole.0);
                    assert forall|k: int|
                        0 <= k < rest.1.len() implies whole.1[snippets@.len() + k]
                        == #[trigger] rest.1[k] by {
                        assert(here.1[k + 1] == rest.1[k]);
                    }
                }
            },
        }
        cursor = end;
    }
    (text, snippets)
}

} // verus!
