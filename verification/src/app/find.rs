//! The search prompt: filtering the workspace and session lists, and
//! finding text in the conversation, moving from match to match.
use vstd::prelude::*;

use crate::app::search::{line_matches, matching_line_indexes};
use crate::conversation::wrap::{conversation_match_end_offset, min_of, sat_sub};
use crate::editor::actions::{action_allowed, apply_text_edit_action, edit_outcome};
use crate::input::editor::{map_text_input_key, text_input_event, TextInputEvent, TextInputOptions};
use crate::input::keys::{KeyCode, KeyEvent};
use crate::model::domain::{Focus, Pane};
use crate::text::{
    byte_len, chars_of, decimal, len_fits, lowercase, push_decimal, push_str, str_len,
    trim,
};

verus! {

/// What the search prompt searches.
#[derive(Debug, Clone, Copy, PartialEq, Eq, Structural)]
pub enum SearchTarget {
    Workspaces,
    Sessions,
    Conversation,
}

/// The open search prompt: its target, the query and the cursor in it.
#[derive(Debug, Clone, PartialEq, Eq)]
pub struct SearchPromptState {
    pub target: SearchTarget,
    pub query: String,
    pub cursor: usize,
}

/// A search of the conversation: the query, the lines that match it (by
/// index into the rendered chat), and which match is current.
#[derive(Debug, Clone, PartialEq, Eq)]
pub struct ConversationSearchState {
    pub query: String,
    pub matches: Vec<usize>,
    pub current_match: usize,
}

/// What the search prompt searches from where the focus is: the workspace
/// list, the sessions in the detail panel, or the conversation on the main
/// panel's chat pane.
pub open spec fn target_of(focus: Focus, pane: Pane) -> Option<SearchTarget> {
    match focus {
        Focus::WorkspaceList => Some(SearchTarget::Workspaces),
        Focus::Detail => Some(SearchTarget::Sessions),
        Focus::Main => if pane == Pane::Chat {
            Some(SearchTarget::Conversation)
        } else {
            None
        },
        Focus::Composer => None,
    }
}

/// What the search prompt searches.
pub fn search_target(focus: Focus, pane: Pane) -> (r: Option<SearchTarget>)
    ensures
        r == target_of(focus, pane),
{
    match focus {
        Focus::WorkspaceList => Some(SearchTarget::Workspaces),
        Focus::Detail => Some(SearchTarget::Sessions),
        Focus::Main => if pane == Pane::Chat {
            Some(SearchTarget::Conversation)
        } else {
            None
        },
        Focus::Composer => None,
    }
}

/// The query a prompt opens with: the target's current filter or search.
pub open spec fn opening_query(
    target: SearchTarget,
    workspace_filter: Seq<char>,
    session_filter: Seq<char>,
    conversation: Option<ConversationSearchState>,
) -> Seq<char> {
    match target {
        SearchTarget::Workspaces => workspace_filter,
        SearchTarget::Sessions => session_filter,
        SearchTarget::Conversation => match conversation {
            Some(c) => c.query@,
            None => Seq::empty(),
        },
    }
}

/// Opens the search prompt where the focus is, on the current filter or
/// search with the cursor at its end; returns the prompt and the status
/// ("Filter workspaces", "Filter sessions" or "Search conversation"; where
/// nothing can be searched, no prompt and "Search is available in
/// workspaces, sessions, and conversation").
pub fn open_search(
    focus: Focus,
    pane: Pane,
    workspace_filter: &String,
    session_filter: &String,
    conversation: &Option<ConversationSearchState>,
) -> (r: (Option<SearchPromptState>, String))
    ensures
        match target_of(focus, pane) {
            None => r.0 is None && r.1@ == "Search is available in workspaces, sessions, and conversation"@,
            Some(t) => r.0 matches Some(p) && p.target == t && p.query@ == opening_query(
                t,
                workspace_filter@,
                session_filter@,
                *conversation,
            ) && p.cursor == byte_len(p.query@) && r.1@ == match t {
                SearchTarget::Workspaces => "Filter workspaces"@,
                SearchTarget::Sessions => "Filter sessions"@,
                SearchTarget::Conversation => "Search conversation"@,
            },
        },
{
    let target = match search_target(focus, pane) {
        None => {
            return (None, String::from_str("Search is available in workspaces, sessions, and conversation"));
        },
        Some(t) => t,
    };
    let query = match target {
        SearchTarget::Workspaces => workspace_filter.clone(),
        SearchTarget::Sessions => session_filter.clone(),
        SearchTarget::Conversation => match conversation {
            Some(c) => c.query.clone(),
            None => String::new(),
        },
    };
    let cursor = str_len(query.as_str());
    let status = match target {
        SearchTarget::Workspaces => String::from_str("Filter workspaces"),
        SearchTarget::Sessions => String::from_str("Filter sessions"),
        SearchTarget::Conversation => String::from_str("Search conversation"),
    };
    (Some(SearchPromptState { target, query, cursor }), status)
}

/// What a key in the search prompt asks of the screen.
#[derive(Debug, Clone, Copy, PartialEq, Eq, Structural)]
pub enum PromptKey {
    /// Escape: close the prompt ("Closed search").
    Close,
    /// Enter: apply the query and close the prompt.
    Submit,
    /// The query was edited: apply it as it stands.
    Edited,
    Ignored,
}

/// The prompt takes enter as submit and never breaks the line.
pub open spec fn prompt_options() -> TextInputOptions {
    TextInputOptions { submit_on_enter: true, enter_inserts_newline: false, shift_enter_inserts_newline: false }
}

/// Handles a key in the search prompt. For a key that moves by a word the
/// cursor must lie on a char boundary of the query.
pub fn handle_search_prompt_key(prompt: &mut SearchPromptState, key: KeyEvent) -> (r: PromptKey)
    requires
        len_fits(old(prompt).query@),
        key.code != KeyCode::Esc ==> match text_input_event(key, prompt_options()) {
            Some(TextInputEvent::Edit(a)) => action_allowed(old(prompt).query@, old(prompt).cursor, a),
            _ => true,
        },
    ensures
        final(prompt).target == old(prompt).target,
        key.code == KeyCode::Esc ==> r == PromptKey::Close && *final(prompt) == *old(prompt),
        key.code != KeyCode::Esc ==> match text_input_event(key, prompt_options()) {
            Some(TextInputEvent::Submit) => r == PromptKey::Submit && *final(prompt) == *old(prompt),
            Some(TextInputEvent::Edit(a)) => r == PromptKey::Edited && final(prompt).query@
                == edit_outcome(old(prompt).query@, old(prompt).cursor as int, a).0 && final(prompt).cursor
                == edit_outcome(old(prompt).query@, old(prompt).cursor as int, a).1,
            None => r == PromptKey::Ignored && *final(prompt) == *old(prompt),
        },
{
    if key.code == KeyCode::Esc {
        return PromptKey::Close;
    }
    let options = TextInputOptions {
        submit_on_enter: true,
        enter_inserts_newline: false,
        shift_enter_inserts_newline: false,
    };
    match map_text_input_key(key, options) {
        Some(TextInputEvent::Submit) => PromptKey::Submit,
        Some(TextInputEvent::Edit(action)) => {
            apply_text_edit_action(&mut prompt.query, &mut prompt.cursor, action);
            PromptKey::Edited
        },
        None => PromptKey::Ignored,
    }
}

/// The status after applying a list filter: "Workspace filter cleared" or
/// "Workspace filter: " and the filter (likewise for sessions).
pub fn filter_status(target: SearchTarget, filter: &String) -> (r: String)
    requires
        target != SearchTarget::Conversation,
    ensures
        r@ == if target == SearchTarget::Workspaces {
            if filter@.len() == 0 {
                "Workspace filter cleared"@
            } else {
                "Workspace filter: "@ + filter@
            }
        } else {
            if filter@.len() == 0 {
                "Session filter cleared"@
            } else {
                "Session filter: "@ + filter@
            }
        },
{
    let empty = chars_of(filter.as_str()).len() == 0;
    if target == SearchTarget::Workspaces {
        if empty {
            String::from_str("Workspace filter cleared")
        } else {
            let mut s = String::from_str("Workspace filter: ");
            push_str(&mut s, filter.as_str());
            s
        }
    } else {
        if empty {
            String::from_str("Session filter cleared")
        } else {
            let mut s = String::from_str("Session filter: ");
            push_str(&mut s, filter.as_str());
            s
        }
    }
}

/// `m` lists the lines that match `query`, in order: none for a blank
/// query, else every matching line once, ascending.
pub open spec fn match_list(lines: Seq<Vec<String>>, query: Seq<char>, m: Seq<usize>) -> bool {
    &&& lowercase(trim(query)).len() == 0 ==> m.len() == 0
    &&& lowercase(trim(query)).len() != 0 ==> {
        &&& forall|k: int| 0 <= k < m.len() ==> m[k] < lines.len() && line_matches(lines, query, m[k] as int)
        &&& forall|a: int, b: int| 0 <= a < b < m.len() ==> m[a] < m[b]
        &&& forall|i: int| 0 <= i < lines.len() && line_matches(lines, query, i) ==> m.contains(i as usize)
    }
}

/// The chat end offset that shows line `line` of `total` at the top of a
/// window of `visible` lines (as far as the end allows).
pub open spec fn jump_offset(line: int, total: int, visible: int) -> int {
    min_of(sat_sub(total, min_of(line + visible, total)), u16::MAX as int)
}

fn jump_to(line: usize, total: usize, visible: usize) -> (r: u16)
    ensures
        r == jump_offset(line as int, total as int, visible as int),
{
    if line > usize::MAX - visible {
        0
    } else {
        conversation_match_end_offset(line, total, visible)
    }
}

/// "Conversation match {k}/{n} for {query}".
pub open spec fn match_status(k: nat, n: nat, query: Seq<char>) -> Seq<char> {
    "Conversation match "@ + decimal(k) + "/"@ + decimal(n) + " for "@ + query
}

fn match_status_text(k: usize, n: usize, query: &String) -> (r: String)
    ensures
        r@ == match_status(k as nat, n as nat, query@),
{
    let mut s = String::from_str("Conversation match ");
    push_decimal(&mut s, k as u64);
    push_str(&mut s, "/");
    push_decimal(&mut s, n as u64);
    push_str(&mut s, " for ");
    push_str(&mut s, query.as_str());
    s
}

/// What a conversation search step shows: the status text, and the chat
/// end offset to jump to, if it jumps.
#[derive(Debug, Clone, PartialEq, Eq)]
pub struct SearchReport {
    pub status: Option<String>,
    pub jump: Option<u16>,
}

/// The query a conversation search runs: the open prompt's, when it
/// searches the conversation, else the current search's.
pub open spec fn search_query(prompt: Option<SearchPromptState>, search: Option<ConversationSearchState>) -> Seq<char> {
    match prompt {
        Some(p) if p.target == SearchTarget::Conversation => p.query@,
        _ => match search {
            Some(st) => st.query@,
            None => Seq::empty(),
        },
    }
}

/// The match a refreshed search stays on: the first after a new query, an
/// empty result or a jump to the first; else the current one, kept within
/// the matches.
pub open spec fn kept_match(search: Option<ConversationSearchState>, query: Seq<char>, n: int, jump_to_first: bool) -> int {
    if n == 0 || jump_to_first {
        0
    } else {
        match search {
            Some(st) => if st.query@ == query && st.matches@.len() > 0 {
                min_of(st.current_match as int, n - 1)
            } else {
                0
            },
            None => 0,
        }
    }
}

/// Runs the conversation search again, on the chat's rendered `lines` (as
/// span texts; `None` when the chat is not shown) with `visible_lines` in
/// view. A blank query clears the search ("Conversation search cleared");
/// otherwise the search holds the matching lines and jumps to its current
/// match ("Conversation match k/n for query"), or reports "No conversation
/// matches for " and the query.
pub fn update_conversation_search(
    prompt: &Option<SearchPromptState>,
    search: &mut Option<ConversationSearchState>,
    lines: Option<&Vec<Vec<String>>>,
    visible_lines: usize,
    jump_to_first: bool,
) -> (r: SearchReport)
    ensures
        ({
            let q = search_query(*prompt, *old(search));
            if q.len() == 0 {
                &&& *final(search) is None
                &&& r.jump is None
                &&& r.status matches Some(t) && t@ == "Conversation search cleared"@
            } else {
                match lines {
                    None => *final(search) == *old(search) && r.status is None && r.jump is None,
                    Some(ls) => *final(search) matches Some(st) && st.query@ == q && match_list(
                        ls@,
                        q,
                        st.matches@,
                    ) && st.current_match == kept_match(*old(search), q, st.matches@.len() as int, jump_to_first)
                        && if st.matches@.len() > 0 {
                        &&& r.jump == Some(
                            jump_offset(st.matches@[st.current_match as int] as int, ls@.len() as int, visible_lines as int) as u16,
                        )
                        &&& r.status matches Some(t) && t@ == match_status(
                            (st.current_match + 1) as nat,
                            st.matches@.len(),
                            q,
                        )
                    } else {
                        &&& r.jump is None
                        &&& r.status matches Some(t) && t@ == "No conversation matches for "@ + q
                    },
                }
            }
        }),
{
    let query = match prompt {
        Some(p) if p.target == SearchTarget::Conversation => p.query.clone(),
        _ => match search {
            Some(st) => st.query.clone(),
            None => String::new(),
        },
    };
    if chars_of(query.as_str()).len() == 0 {
        *search = None;
        return SearchReport { status: Some(String::from_str("Conversation search cleared")), jump: None };
    }
    let ls = match lines {
        None => {
            return SearchReport { status: None, jump: None };
        },
        Some(ls) => ls,
    };
    let matches = matching_line_indexes(ls.as_slice(), query.as_str());
    let n = matches.len();
    let current = if n == 0 || jump_to_first {
        0
    } else {
        match search {
            Some(st) => if st.query == query && st.matches.len() > 0 {
                if st.current_match < n - 1 {
                    st.current_match
                } else {
                    n - 1
                }
            } else {
                0
            },
            None => 0,
        }
    };
    let report = if current < n {
        let jump = jump_to(matches[current], ls.len(), visible_lines);
        SearchReport { status: Some(match_status_text(current + 1, n, &query)), jump: Some(jump) }
    } else {
        let mut status = String::from_str("No conversation matches for ");
        push_str(&mut status, query.as_str());
        SearchReport { status: Some(status), jump: None }
    };
    *search = Some(ConversationSearchState { query, matches, current_match: current });
    report
}

/// The match after (or before) `current` among `n`, going round.
pub open spec fn stepped_match(current: int, n: int, forward: bool) -> int {
    if forward {
        (current + 1) % n
    } else if current == 0 {
        n - 1
    } else {
        current - 1
    }
}

/// Moves the conversation search to its next (or previous) match, on the
/// chat's rendered `lines` (`None` when the chat is not shown) with
/// `visible_lines` in view. Only on the chat pane; without a query: "No
/// active conversation search"; without the chat: "Conversation search
/// unavailable"; with no match: "No conversation matches".
pub fn advance_conversation_search(
    pane: Pane,
    search: &mut Option<ConversationSearchState>,
    lines: Option<&Vec<Vec<String>>>,
    visible_lines: usize,
    forward: bool,
) -> (r: SearchReport)
    ensures
        ({
            let q = match *old(search) {
                Some(st) => st.query@,
                None => Seq::empty(),
            };
            if pane != Pane::Chat {
                *final(search) == *old(search) && r.status is None && r.jump is None
            } else if q.len() == 0 {
                *final(search) == *old(search) && r.jump is None && (r.status matches Some(t) && t@
                    == "No active conversation search"@)
            } else {
                match lines {
                    None => *final(search) == *old(search) && r.jump is None && (r.status matches Some(t)
                        && t@ == "Conversation search unavailable"@),
                    Some(ls) => *final(search) matches Some(st) && st.query@ == q && match_list(
                        ls@,
                        q,
                        st.matches@,
                    ) && if st.matches@.len() == 0 {
                        &&& st.current_match == 0
                        &&& r.jump is None
                        &&& r.status matches Some(t) && t@ == "No conversation matches"@
                    } else {
                        &&& st.current_match == stepped_match(
                            min_of(old(search)->0.current_match as int, st.matches@.len() - 1),
                            st.matches@.len() as int,
                            forward,
                        )
                        &&& r.jump == Some(
                            jump_offset(st.matches@[st.current_match as int] as int, ls@.len() as int, visible_lines as int) as u16,
                        )
                        &&& r.status matches Some(t) && t@ == match_status(
                            (st.current_match + 1) as nat,
                            st.matches@.len(),
                            q,
                        )
                    },
                }
            }
        }),
{
    if pane != Pane::Chat {
        return SearchReport { status: None, jump: None };
    }
    let (query, current) = match search {
        Some(st) => (st.query.clone(), st.current_match),
        None => (String::new(), 0),
    };
    if chars_of(query.as_str()).len() == 0 {
        return SearchReport { status: Some(String::from_str("No active conversation search")), jump: None };
    }
    let ls = match lines {
        None => {
            return SearchReport { status: Some(String::from_str("Conversation search unavailable")), jump: None };
        },
        Some(ls) => ls,
    };
    let matches = matching_line_indexes(ls.as_slice(), query.as_str());
    let n = matches.len();
    if n == 0 {
        *search = Some(ConversationSearchState { query, matches, current_match: 0 });
        return SearchReport { status: Some(String::from_str("No conversation matches")), jump: None };
    }
    let cur = if current < n - 1 {
        current
    } else {
        n - 1
    };
    let next = if forward {
        if cur + 1 < n {
            proof {
                vstd::arithmetic::div_mod::lemma_small_mod((cur + 1) as nat, n as nat);
            }
            cur + 1
        } else {
            proof {
                vstd::arithmetic::div_mod::lemma_mod_self_0(n as int);
            }
            0
        }
    } else if cur == 0 {
        n - 1
    } else {
        cur - 1
    };
    let jump = jump_to(matches[next], ls.len(), visible_lines);
    let status = match_status_text(next + 1, n, &query);
    *search = Some(ConversationSearchState { query, matches, current_match: next });
    SearchReport { status: Some(status), jump: Some(jump) }
}

/// Stepping to the next match and back returns to the same match,
/// and so does stepping back and forward.
pub proof fn lemma_step_round_trip(current: int, n: int)
    requires
        0 <= current < n,
    ensures
        stepped_match(stepped_match(current, n, true), n, false) == current,
        stepped_match(stepped_match(current, n, false), n, true) == current,
        0 <= stepped_match(current, n, true) < n,
        0 <= stepped_match(current, n, false) < n,
{
    if current + 1 < n {
        vstd::arithmetic::div_mod::lemma_small_mod((current + 1) as nat, n as nat);
    } else {
        vstd::arithmetic::div_mod::lemma_mod_self_0(n);
    }
    if current == 0 {
        vstd::arithmetic::div_mod::lemma_mod_self_0(n);
    } else {
        vstd::arithmetic::div_mod::lemma_small_mod(current as nat, n as nat);
    }
}

} // verus!
