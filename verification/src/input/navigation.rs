//! Cycling focus between the screen's regions.
use vstd::prelude::*;

use crate::model::Focus;

verus! {

/// The focus cycle: workspace list, main pane, detail pane, composer.
pub open spec fn focus_after(f: Focus) -> Focus {
    match f {
        Focus::WorkspaceList => Focus::Main,
        Focus::Main => Focus::Detail,
        Focus::Detail => Focus::Composer,
        Focus::Composer => Focus::WorkspaceList,
    }
}

pub fn next_focus(current: &Focus) -> (r: Focus)
    ensures
        r == focus_after(*current),
{
    match current {
        Focus::WorkspaceList => Focus::Main,
        Focus::Main => Focus::Detail,
        Focus::Detail => Focus::Composer,
        Focus::Composer => Focus::WorkspaceList,
    }
}

/// Moves one step back in the focus cycle.
/// The focus target before `f`, the inverse of `focus_after`.
pub open spec fn focus_before(f: Focus) -> Focus {
    match f {
        Focus::WorkspaceList => Focus::Composer,
        Focus::Main => Focus::WorkspaceList,
        Focus::Detail => Focus::Main,
        Focus::Composer => Focus::Detail,
    }
}

pub fn prev_focus(current: &Focus) -> (r: Focus)
    ensures
        r == focus_before(*current),
        focus_after(r) == *current,
{
    match current {
        Focus::WorkspaceList => Focus::Composer,
        Focus::Main => Focus::WorkspaceList,
        Focus::Detail => Focus::Main,
        Focus::Composer => Focus::Detail,
    }
}

/// The cycle is a permutation of the four regions; so going back
/// undoes going forward and going forward undoes going back, and four steps
/// return to the start.
pub proof fn lemma_focus_cycle(f: Focus, g: Focus)
    ensures
        focus_after(f) == focus_after(g) ==> f == g,
        focus_after(focus_after(focus_after(focus_after(f)))) == f,
{
}

} // verus!
