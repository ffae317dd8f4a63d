//! Small helpers of the workspace screen: variant names, fuzzy matching,
//! list scrolling.
use vstd::prelude::*;

use crate::text::{
    chars_of, contains, contains_chars, lowercase, push_str, string_of, to_lowercase, trim,
    trim_chars,
};

verus! {

/// The variant name that stands for "no variant".
pub open spec fn default_variant_name() -> Seq<char> {
    seq!['D', 'E', 'F', 'A', 'U', 'L', 'T']
}

/// `DEFAULT` means no variant; any other name is kept.
pub fn default_variant_to_none(variant: String) -> (r: Option<String>)
    ensures
        variant@ == default_variant_name() ==> r is None,
        variant@ != default_variant_name() ==> r == Some(variant),
{
    let default_name = String::from_str("DEFAULT");
    proof {
        reveal_strlit("DEFAULT");
        assert("DEFAULT"@ =~= default_variant_name());
    }
    if variant == default_name {
        None
    } else {
        Some(variant)
    }
}

/// `q` can be picked out of `c` in order, not necessarily adjacent.
pub open spec fn subsequence(q: Seq<char>, c: Seq<char>) -> bool
    decreases c.len(),
{
    if q.len() == 0 {
        true
    } else if c.len() == 0 {
        false
    } else if q[0] == c[0] {
        subsequence(q.drop_first(), c.drop_first())
    } else {
        subsequence(q, c.drop_first())
    }
}

/// Fuzzy match: after trimming the query and lowercasing both, an empty
/// query matches everything; otherwise the query must occur in the
/// candidate, or its chars must appear in the candidate in order.
pub open spec fn fuzzy_match(query: Seq<char>, candidate: Seq<char>) -> bool {
    let q = lowercase(trim(query));
    let c = lowercase(candidate);
    q.len() == 0 || contains(c, q) || subsequence(q, c)
}

pub proof fn lemma_subsequence_step(q: Seq<char>, c: Seq<char>, j: int, i: int)
    requires
        0 <= j < q.len(),
        0 <= i < c.len(),
    ensures
        subsequence(q.skip(j), c.skip(i)) == if q[j] == c[i] {
            subsequence(q.skip(j + 1), c.skip(i + 1))
        } else {
            subsequence(q.skip(j), c.skip(i + 1))
        },
{
    assert(q.skip(j).drop_first() =~= q.skip(j + 1));
    assert(c.skip(i).drop_first() =~= c.skip(i + 1));
}

/// Whether `query` fuzzily matches `candidate`.
pub fn fuzzy_contains(query: &str, candidate: &str) -> (r: bool)
    ensures
        r == fuzzy_match(query@, candidate@),
{
    let trimmed = trim_chars(&chars_of(query));
    let trimmed_text = string_of(trimmed.as_slice());
    let q_text = to_lowercase(trimmed_text.as_str());
    let q = chars_of(q_text.as_str());
    if q.len() == 0 {
        return true;
    }
    let c_text = to_lowercase(candidate);
    let c = chars_of(c_text.as_str());
    if contains_chars(&c, &q) {
        return true;
    }
    let mut i: usize = 0;
    let mut j: usize = 0;
    proof {
        assert(q@.skip(0) =~= q@);
        assert(c@.skip(0) =~= c@);
    }
    while i < c.len()
        invariant
            i <= c@.len(),
            j < q@.len(),
            q@ == lowercase(trim(query@)),
            c@ == lowercase(candidate@),
            q@.len() == q.len(),
            subsequence(q@, c@) == subsequence(q@.skip(j as int), c@.skip(i as int)),
        decreases c@.len() - i,
    {
        proof {
            lemma_subsequence_step(q@, c@, j as int, i as int);
        }
        if q[j] == c[i] {
            j = j + 1;
            if j == q.len() {
                proof {
                    assert(q@.skip(j as int).len() == 0);
                }
                return true;
            }
        }
        i = i + 1;
    }
    proof {
        assert(c@.skip(i as int).len() == 0);
    }
    false
}

pub open spec fn sat_sub(a: int, b: int) -> int {
    if a > b {
        a - b
    } else {
        0
    }
}

/// The first item to show so that item `selected` is visible in a list of
/// `total` items with room for `viewport`: no scrolling while everything
/// fits; otherwise the selection sits on the last visible row, without
/// scrolling past the end.
pub fn selected_list_offset(selected: usize, total: usize, viewport: usize) -> (r: usize)
    ensures
        r == if total <= viewport {
            0
        } else {
            let a = sat_sub(selected as int, sat_sub(viewport as int, 1));
            let b = total - viewport;
            if a <= b {
                a
            } else {
                b
            }
        },
{
    if total <= viewport {
        0
    } else {
        let a = selected.saturating_sub(viewport.saturating_sub(1));
        let b = total - viewport;
        if a <= b {
            a
        } else {
            b
        }
    }
}

/// How many list items of `rows_per_item` rows fit in a bordered area of
/// the given height (at least one).
pub fn viewport_capacity(height: u16, rows_per_item: u16) -> (r: usize)
    requires
        rows_per_item > 0,
    ensures
        ({
            let inner: int = if height > 2 {
                height - 2
            } else {
                1
            };
            let items = (inner + rows_per_item - 1) / (rows_per_item as int);
            r == if items > 1 {
                items
            } else {
                1
            }
        }),
{
    let inner: u16 = if height > 2 {
        height - 2
    } else {
        1
    };
    let items = inner / rows_per_item + if inner % rows_per_item != 0 {
        1u16
    } else {
        0u16
    };
    proof {
        let a = inner as int;
        let b = rows_per_item as int;
        assert((a + b - 1) / b == a / b + if a % b != 0 {
            1int
        } else {
            0int
        }) by (nonlinear_arith)
            requires
                b > 0,
                a >= 0,
        ;
    }
    if items > 1 {
        items as usize
    } else {
        1
    }
}

/// A reasoning effort that a model offers.
#[derive(Debug, Clone, PartialEq, Eq)]
pub struct ReasoningOption {
    pub id: String,
    pub label: String,
    pub is_default: bool,
}

/// A model that a composer can select.
#[derive(Debug, Clone, PartialEq, Eq)]
pub struct ModelInfo {
    pub id: String,
    pub name: String,
    pub provider_id: Option<String>,
    pub reasoning_options: Vec<ReasoningOption>,
}

/// The key under which a model is selected: `provider/id` when it has a
/// provider, else its id.
pub fn model_key(model: &ModelInfo) -> (r: String)
    ensures
        r@ == match model.provider_id {
            Some(p) => p@ + seq!['/'] + model.id@,
            None => model.id@,
        },
{
    match &model.provider_id {
        Some(provider_id) => {
            let mut key = String::new();
            push_str(&mut key, provider_id.as_str());
            push_str(&mut key, "/");
            push_str(&mut key, model.id.as_str());
            proof {
                reveal_strlit("/");
                assert("/"@ =~= seq!['/']);
            }
            key
        },
        None => String::from_str(model.id.as_str()),
    }
}

} // verus!
