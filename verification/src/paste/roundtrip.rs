//! Why a saved draft reads back as the document and the snippets it was
//! saved from: the markers that `serialize_document_for_draft` writes are
//! found again, one by one, by `restore_from`.
use vstd::prelude::*;

use vstd::arithmetic::power2::lemma_pow2_pos;
use vstd::utf8::{encode_utf8, encode_utf8_decode_utf8, encode_utf8_valid_utf8};
use crate::codec::{b64_symbol, base64_decode, base64_encode, uuid_hex, uuid_hyphenated, uuid_nibble, uuid_parse};
use crate::text::{
    find_from, lemma_find_from_absent, lemma_find_from_first, lemma_find_from_none,
    lemma_find_from_shift, occurs_at,
};
use super::{
    count_char, expand, marker, marker_inner, marker_prefix, marker_suffix, parse_marker,
    restore_from, snippet_markers, snippet_models, TuiComposerSnippet, SNIPPET_PLACEHOLDER_CHAR,
};

verus! {

/// No char of `s` is a bar, the first char of a marker's suffix.
pub open spec fn bar_free(s: Seq<char>) -> bool {
    forall|k: int| 0 <= k < s.len() ==> #[trigger] s[k] != '|'
}

/// A hyphenated UUID has 36 chars, hex digits and hyphens: no colon and no
/// bar among them.
pub proof fn lemma_uuid_chars(id: u128)
    ensures
        uuid_hyphenated(id).len() == 36,
        bar_free(uuid_hyphenated(id)),
        forall|k: int| 0 <= k < 36 ==> #[trigger] uuid_hyphenated(id)[k] != ':',
{
    let h = uuid_hex(id);
    assert forall|i: int| 0 <= i < 32 implies #[trigger] h[i] != ':' && h[i] != '|' by {
        lemma_pow2_pos((4 * (31 - i)) as nat);
        let d = uuid_nibble(id, i);
        assert(0 <= d < 16);
    }
    let u = uuid_hyphenated(id);
    assert forall|k: int| 0 <= k < 36 implies #[trigger] u[k] != ':' && u[k] != '|' by {
        if k < 8 {
            assert(u[k] == h[k]);
        } else if k == 8 || k == 13 || k == 18 || k == 23 {
            assert(u[k] == '-');
        } else if k < 13 {
            assert(u[k] == h[k - 1]);
        } else if k < 18 {
            assert(u[k] == h[k - 2]);
        } else if k < 23 {
            assert(u[k] == h[k - 3]);
        } else {
            assert(u[k] == h[k - 4]);
        }
    }
}

/// Base64 text holds alphabet symbols and padding, no bar.
pub proof fn lemma_base64_chars(b: Seq<u8>)
    ensures
        bar_free(base64_encode(b)),
    decreases b.len(),
{
    let e = base64_encode(b);
    if b.len() >= 3 {
        lemma_base64_chars(b.skip(3));
        let v0 = b[0] as int / 4;
        let v1 = (b[0] as int % 4) * 16 + b[1] as int / 16;
        let v2 = (b[1] as int % 16) * 4 + b[2] as int / 64;
        let v3 = b[2] as int % 64;
        assert(0 <= v0 < 64 && 0 <= v1 < 64 && 0 <= v2 < 64 && 0 <= v3 < 64);
        assert forall|k: int| 0 <= k < e.len() implies #[trigger] e[k] != '|' by {
            if k >= 4 {
                assert(e[k] == base64_encode(b.skip(3))[k - 4]);
            }
        }
    }
}

/// The text between a marker's prefix and suffix.
pub proof fn lemma_marker_inner_bar_free(id: u128, text: Seq<char>)
    ensures
        bar_free(marker_inner(id, text)),
{
    lemma_uuid_chars(id);
    lemma_base64_chars(encode_utf8(text));
    let u = uuid_hyphenated(id);
    let b = base64_encode(encode_utf8(text));
    let m = marker_inner(id, text);
    assert forall|k: int| 0 <= k < m.len() implies #[trigger] m[k] != '|' by {
        if k < 36 {
            assert(m[k] == u[k]);
        } else if k > 36 {
            assert(m[k] == b[k - 37]);
        }
    }
}

/// A marker's inner text parses back to its UUID and text, given that the
/// UUID parser reads the hyphenated form back and the Base64 decoder reads
/// the encoding back (what `format_uuid` and `encode_base64` state).
pub proof fn lemma_parse_marker_inner(id: u128, text: Seq<char>)
    requires
        uuid_parse(uuid_hyphenated(id)) == Some(id),
        base64_decode(base64_encode(encode_utf8(text))) == Some(encode_utf8(text)),
    ensures
        parse_marker(marker_inner(id, text)) == Some((id, text)),
{
    lemma_uuid_chars(id);
    let u = uuid_hyphenated(id);
    let b = base64_encode(encode_utf8(text));
    let m = marker_inner(id, text);
    assert forall|j: int| 0 <= j < 36 implies !#[trigger] occurs_at(m, j, seq![':']) by {
        assert(m.subrange(j, j + 1)[0] == u[j]);
    }
    assert(m.subrange(36, 37) =~= seq![':']);
    lemma_find_from_first(m, seq![':'], 0, 36);
    assert(m.take(36) =~= u);
    assert(m.skip(37) =~= b);
    encode_utf8_valid_utf8(text);
    encode_utf8_decode_utf8(text);
}

/// Restoring from inside the second part of `a + b` is restoring `b`.
pub proof fn lemma_restore_shift(a: Seq<char>, b: Seq<char>, k: int)
    requires
        0 <= k <= b.len(),
    ensures
        restore_from(a + b, a.len() + k) == restore_from(b, k),
    decreases b.len() - k,
{
    let s = a + b;
    let i = a.len() + k;
    assert(s.subrange(i, s.len() as int) =~= b.subrange(k, b.len() as int));
    lemma_find_from_shift(a, b, marker_prefix(), k);
    match find_from(b, marker_prefix(), k) {
        None => {},
        Some(d) => {
            let after = k + d + marker_prefix().len();
            lemma_find_from_shift(a, b, marker_suffix(), after);
            match find_from(b, marker_suffix(), after) {
                None => {},
                Some(d2) => {
                    let close = after + d2;
                    let end = close + marker_suffix().len();
                    if end <= b.len() {
                        lemma_restore_shift(a, b, end);
                        assert(s.subrange(a.len() + after, a.len() + close) =~= b.subrange(
                            after,
                            close,
                        ));
                        assert(s.subrange(i, a.len() + end) =~= b.subrange(k, end));
                        assert(s.subrange(i, a.len() + k + d) =~= b.subrange(k, k + d));
                    }
                },
            }
        },
    }
}

/// Text in which no marker opens is restored as it is, with no snippet.
pub proof fn lemma_restore_plain(t: Seq<char>)
    requires
        forall|j: int| !#[trigger] occurs_at(t, j, marker_prefix()),
    ensures
        restore_from(t, 0) == (t, Seq::<(u128, Seq<char>)>::empty()),
{
    lemma_find_from_absent(t, marker_prefix(), 0);
    assert(t.subrange(0, t.len() as int) =~= t);
}

/// Only the first char of a marker's prefix is `<`.
pub proof fn lemma_prefix_opens_once()
    ensures
        forall|t: int| 1 <= t < marker_prefix().len() ==> #[trigger] marker_prefix()[t] != '<',
{
    let p = marker_prefix();
    assert forall|t: int| 1 <= t < p.len() implies #[trigger] p[t] != '<' by {
        assert(p[t] == seq!['<', '|', 'V', 'K', '_', 'P', 'A', 'S', 'T', 'E', 'D', '_', 'T', 'E', 'X', 'T', ':'][t]);
    }
}

/// No opening marker starts in `a` when `a` has none and what follows `a`
/// starts with `<`.
pub proof fn lemma_no_opening_before(a: Seq<char>, rest: Seq<char>)
    requires
        forall|j: int| !#[trigger] occurs_at(a, j, marker_prefix()),
        rest.len() > 0,
        rest[0] == '<',
    ensures
        forall|j: int| 0 <= j < a.len() ==> !#[trigger] occurs_at(a + rest, j, marker_prefix()),
{
    let p = marker_prefix();
    let m = a + rest;
    lemma_prefix_opens_once();
    assert forall|j: int| 0 <= j < a.len() implies !#[trigger] occurs_at(m, j, p) by {
        if j + p.len() <= a.len() {
            assert(m.subrange(j, j + p.len()) =~= a.subrange(j, j + p.len()));
            assert(!occurs_at(a, j, p));
        } else if occurs_at(m, j, p) {
            let t = a.len() - j;
            assert(m.subrange(j, j + p.len())[t] == m[a.len() as int]);
            assert(p[t] != '<');
        }
    }
}

/// The first closing from `after` on in `m` is the one past `inner`, when
/// `inner` stands at `after` and has no bar.
pub proof fn lemma_closing_found(m: Seq<char>, after: int, inner: Seq<char>)
    requires
        0 <= after,
        after + inner.len() + marker_suffix().len() <= m.len(),
        m.subrange(after, after + inner.len()) == inner,
        m.subrange(after + inner.len(), after + inner.len() + marker_suffix().len())
            == marker_suffix(),
        bar_free(inner),
    ensures
        find_from(m, marker_suffix(), after) == Some(inner.len()),
{
    let q = marker_suffix();
    assert forall|j: int| after <= j < after + inner.len() implies !#[trigger] occurs_at(m, j, q) by {
        assert(m.subrange(j, j + q.len())[0] == m[j]);
        assert(m.subrange(after, after + inner.len())[j - after] == m[j]);
    }
    lemma_find_from_first(m, q, after, inner.len() as int);
}

/// Text without an opening marker, then a well-formed marker, then the rest:
/// the marker becomes a placeholder and its snippet comes first.
pub proof fn lemma_restore_marker(a: Seq<char>, inner: Seq<char>, r: Seq<char>, x: (u128, Seq<char>))
    requires
        forall|j: int| !#[trigger] occurs_at(a, j, marker_prefix()),
        bar_free(inner),
        parse_marker(inner) == Some(x),
    ensures
        restore_from(a + (marker_prefix() + inner + marker_suffix()) + r, 0) == (
            a + seq![SNIPPET_PLACEHOLDER_CHAR] + restore_from(r, 0).0,
            seq![x] + restore_from(r, 0).1,
        ),
{
    let p = marker_prefix();
    let q = marker_suffix();
    let mk = p + inner + q;
    let head = a + mk;
    let m = head + r;
    assert(m =~= a + (mk + r));
    lemma_no_opening_before(a, mk + r);
    assert(m.subrange(a.len() as int, a.len() + p.len() as int) =~= p);
    lemma_find_from_first(m, p, 0, a.len() as int);
    let after: int = (a.len() + p.len()) as int;
    let close: int = after + inner.len();
    assert(m.subrange(close, close + q.len()) =~= q);
    assert(m.subrange(after, close) =~= inner);
    lemma_closing_found(m, after, inner);
    assert(close + q.len() == head.len());
    assert(m.subrange(after, close) =~= inner);
    assert(m.subrange(0, a.len() as int) =~= a);
    lemma_restore_shift(head, r, 0);
}

/// Concatenation adds the counts.
pub proof fn lemma_count_concat(x: Seq<char>, y: Seq<char>, c: char)
    ensures
        count_char(x + y, c) == count_char(x, c) + count_char(y, c),
    decreases y.len(),
{
    if y.len() == 0 {
        assert(x + y =~= x);
    } else {
        assert((x + y).drop_last() =~= x + y.drop_last());
        lemma_count_concat(x, y.drop_last(), c);
    }
}

/// The count is zero exactly when the char does not occur.
pub proof fn lemma_count_zero(s: Seq<char>, c: char)
    ensures
        count_char(s, c) == 0 <==> forall|k: int| 0 <= k < s.len() ==> #[trigger] s[k] != c,
    decreases s.len(),
{
    if s.len() > 0 {
        lemma_count_zero(s.drop_last(), c);
        if count_char(s, c) == 0 {
            assert forall|k: int| 0 <= k < s.len() implies #[trigger] s[k] != c by {
                if k < s.len() - 1 {
                    assert(s[k] == s.drop_last()[k]);
                }
            }
        } else {
            if forall|k: int| 0 <= k < s.len() ==> #[trigger] s[k] != c {
                assert forall|k: int| 0 <= k < s.drop_last().len() implies #[trigger] s.drop_last()[k]
                    != c by {
                    assert(s[k] != c);
                }
            }
        }
    }
}

/// Where a char that occurs first occurs.
pub proof fn lemma_first_index(s: Seq<char>, c: char) -> (i: int)
    requires
        count_char(s, c) > 0,
    ensures
        0 <= i < s.len(),
        s[i] == c,
        forall|j: int| 0 <= j < i ==> #[trigger] s[j] != c,
    decreases s.len(),
{
    let d = s.drop_last();
    if count_char(d, c) > 0 {
        let i = lemma_first_index(d, c);
        assert forall|j: int| 0 <= j < i implies #[trigger] s[j] != c by {
            assert(s[j] == d[j]);
        }
        i
    } else {
        lemma_count_zero(d, c);
        assert forall|j: int| 0 <= j < s.len() - 1 implies #[trigger] s[j] != c by {
            assert(s[j] == d[j]);
        }
        s.len() - 1
    }
}

/// Text without placeholders goes through unchanged.
pub proof fn lemma_expand_plain(a: Seq<char>, z: Seq<char>, fills: Seq<Seq<char>>)
    requires
        forall|k: int| 0 <= k < a.len() ==> #[trigger] a[k] != SNIPPET_PLACEHOLDER_CHAR,
    ensures
        expand(a + z, fills) == a + expand(z, fills),
    decreases a.len(),
{
    if a.len() == 0 {
        assert(a + z =~= z);
        assert(a + expand(z, fills) =~= expand(z, fills));
    } else {
        assert((a + z)[0] == a[0]);
        assert((a + z).drop_first() =~= a.drop_first() + z);
        lemma_expand_plain(a.drop_first(), z, fills);
        assert(seq![a[0]] + (a.drop_first() + expand(z, fills)) =~= a + expand(z, fills));
    }
}

/// The draft of a document with as many placeholders as snippets, in which
/// no marker opens, reads back as the document and the snippets' ids and
/// texts, given that each snippet's marker parses back (what
/// `snippet_marker` states).
pub proof fn lemma_draft_roundtrip(text: Seq<char>, snippets: Seq<TuiComposerSnippet>)
    requires
        count_char(text, SNIPPET_PLACEHOLDER_CHAR) == snippets.len(),
        forall|j: int| !#[trigger] occurs_at(text, j, marker_prefix()),
        forall|k: int|
            0 <= k < snippets.len() ==> #[trigger] parse_marker(
                marker_inner(snippets[k].id, snippets[k].full_text@),
            ) == Some((snippets[k].id, snippets[k].full_text@)),
    ensures
        restore_from(expand(text, snippet_markers(snippets)), 0) == (text, snippet_models(snippets)),
    decreases text.len(),
{
    let fills = snippet_markers(snippets);
    let pc = SNIPPET_PLACEHOLDER_CHAR;
    if count_char(text, pc) == 0 {
        lemma_count_zero(text, pc);
        lemma_expand_plain(text, Seq::empty(), fills);
        assert(text + Seq::<char>::empty() =~= text);
        lemma_restore_plain(text);
        assert(snippet_models(snippets) =~= Seq::<(u128, Seq<char>)>::empty());
    } else {
        let i = lemma_first_index(text, pc);
        let a = text.take(i);
        let b = text.skip(i + 1);
        assert(text =~= a + (seq![pc] + b));
        lemma_count_zero(a, pc);
        lemma_count_concat(a, seq![pc] + b, pc);
        lemma_count_concat(seq![pc], b, pc);
        assert(seq![pc].drop_last() =~= Seq::<char>::empty());
        assert(count_char(Seq::<char>::empty(), pc) == 0);
        assert(count_char(seq![pc], pc) == 1);
        assert forall|j: int| !#[trigger] occurs_at(b, j, marker_prefix()) by {
            if occurs_at(b, j, marker_prefix()) {
                assert(text.subrange(i + 1 + j, i + 1 + j + marker_prefix().len()) =~= b.subrange(
                    j,
                    j + marker_prefix().len(),
                ));
                assert(occurs_at(text, i + 1 + j, marker_prefix()));
            }
        }
        assert forall|j: int| !#[trigger] occurs_at(a, j, marker_prefix()) by {
            if occurs_at(a, j, marker_prefix()) {
                assert(text.subrange(j, j + marker_prefix().len()) =~= a.subrange(
                    j,
                    j + marker_prefix().len(),
                ));
                assert(occurs_at(text, j, marker_prefix()));
            }
        }
        let rest = snippets.drop_first();
        assert(fills.drop_first() =~= snippet_markers(rest));
        assert forall|k: int| 0 <= k < rest.len() implies #[trigger] parse_marker(
            marker_inner(rest[k].id, rest[k].full_text@),
        ) == Some((rest[k].id, rest[k].full_text@)) by {
            assert(rest[k] == snippets[k + 1]);
        }
        lemma_draft_roundtrip(b, rest);
        lemma_expand_plain(a, seq![pc] + b, fills);
        assert((seq![pc] + b).drop_first() =~= b);
        let s0 = snippets[0];
        let inner = marker_inner(s0.id, s0.full_text@);
        assert(fills[0] == marker(s0.id, s0.full_text@));
        lemma_marker_inner_bar_free(s0.id, s0.full_text@);
        let r = expand(b, snippet_markers(rest));
        assert(expand(text, fills) == a + (fills[0] + r));
        assert(a + (fills[0] + r) =~= a + (marker_prefix() + inner + marker_suffix()) + r);
        lemma_restore_marker(a, inner, r, (s0.id, s0.full_text@));
        assert(a + seq![pc] + b =~= text);
        assert(seq![(s0.id, s0.full_text@)] + snippet_models(rest) =~= snippet_models(snippets));
    }
}

} // verus!
