//! Searching the rendered conversation.
use vstd::prelude::*;

use crate::text::{chars_of, contains, contains_chars, lowercase, push_str, string_of, to_lowercase, trim, trim_chars};

verus! {

/// The text of a line: its spans' contents, concatenated.
pub open spec fn joined(spans: Seq<String>) -> Seq<char>
    decreases spans.len(),
{
    if spans.len() == 0 {
        Seq::empty()
    } else {
        joined(spans.drop_last()) + spans.last()@
    }
}

/// The text of a line made of the given span contents.
pub fn line_text(spans: &[String]) -> (r: String)
    ensures
        r@ == joined(spans@),
{
    let mut text = String::new();
    let mut i: usize = 0;
    while i < spans.len()
        invariant
            i <= spans@.len(),
            text@ == joined(spans@.take(i as int)),
        decreases spans@.len() - i,
    {
        proof {
            assert(spans@.take(i + 1).drop_last() =~= spans@.take(i as int));
        }
        push_str(&mut text, spans[i].as_str());
        i = i + 1;
    }
    proof {
        assert(spans@.take(spans@.len() as int) =~= spans@);
    }
    text
}

/// The line indexes whose text contains the query, ignoring case; the query
/// is trimmed first, and an empty query matches nothing.
pub open spec fn line_matches(lines: Seq<Vec<String>>, query: Seq<char>, index: int) -> bool {
    contains(lowercase(joined(lines[index]@)), lowercase(trim(query)))
}

/// Indexes of the lines that match `query`, in order.
pub fn matching_line_indexes(lines: &[Vec<String>], query: &str) -> (r: Vec<usize>)
    ensures
        lowercase(trim(query@)).len() == 0 ==> r@.len() == 0,
        lowercase(trim(query@)).len() != 0 ==> {
            &&& forall|k: int| 0 <= k < r@.len() ==> r@[k] < lines@.len() && line_matches(lines@, query@, r@[k] as int)
            &&& forall|a: int, b: int| 0 <= a < b < r@.len() ==> r@[a] < r@[b]
            &&& forall|i: int| 0 <= i < lines@.len() && line_matches(lines@, query@, i) ==> r@.contains(i as usize)
        },
{
    let trimmed = trim_chars(&chars_of(query));
    let trimmed_text = string_of(trimmed.as_slice());
    let q_text = to_lowercase(trimmed_text.as_str());
    let q = chars_of(q_text.as_str());
    let mut found: Vec<usize> = Vec::new();
    if q.len() == 0 {
        return found;
    }
    let mut i: usize = 0;
    while i < lines.len()
        invariant
            i <= lines@.len(),
            q@ == lowercase(trim(query@)),
            q@.len() != 0,
            forall|k: int| 0 <= k < found@.len() ==> found@[k] < i && line_matches(lines@, query@, found@[k] as int),
            forall|a: int, b: int| 0 <= a < b < found@.len() ==> found@[a] < found@[b],
            forall|m: int| 0 <= m < i && line_matches(lines@, query@, m) ==> found@.contains(m as usize),
        decreases lines@.len() - i,
    {
        let text = line_text(lines[i].as_slice());
        let lowered = to_lowercase(text.as_str());
        let t = chars_of(lowered.as_str());
        if contains_chars(&t, &q) {
            let ghost old_found = found@;
            found.push(i);
            proof {
                assert(found@.last() == i);
                assert forall|m: int| 0 <= m < i + 1 && line_matches(lines@, query@, m) implies found@.contains(m as usize) by {
                    if m < i {
                        assert(old_found.contains(m as usize));
                        let w = choose|w: int| 0 <= w < old_found.len() && old_found[w] == m as usize;
                        assert(found@[w] == m as usize);
                    } else {
                        assert(found@[found@.len() - 1] == m as usize);
                    }
                }
            }
        } else {
            proof {
                assert forall|m: int| 0 <= m < i + 1 && line_matches(lines@, query@, m) implies found@.contains(m as usize) by {
                    assert(m < i);
                }
            }
        }
        i = i + 1;
    }
    found
}

} // verus!
