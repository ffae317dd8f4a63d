//! The pull-request creation form: its fields, and what keys and pastes do
//! to it.
use vstd::prelude::*;

use crate::editor::actions::{action_allowed, apply_text_edit_action, edit_outcome, splice, splice_chars};
use crate::editor::vim::min_cursor;
use crate::input::editor::{map_text_input_key, text_input_event, TextInputEvent, TextInputOptions};
use crate::input::keys::{KeyCode, KeyEvent};
use crate::text::{
    byte_len, byte_offset, chars_of, floor_char, floor_index, is_boundary, len_fits,
    lemma_byte_len_concat, lemma_floor_char, lemma_offset_le_len, offset_of, string_of,
};

verus! {

#[derive(Debug, Clone, Copy, PartialEq, Eq, Structural)]
pub enum PrCreateField {
    Title,
    Body,
    TargetBranch,
    Draft,
    AutoGenerate,
}

#[derive(Debug, Clone)]
pub struct PrCreateState {
    pub repo_id: u128,
    pub repo_name: String,
    pub title: String,
    pub title_cursor: usize,
    pub body: String,
    pub body_cursor: usize,
    pub target_branch: String,
    pub target_branch_cursor: usize,
    pub draft: bool,
    pub auto_generate_description: bool,
    pub selected_field: PrCreateField,
    pub submitting: bool,
}

/// The field after `f` in tab order (title, body, target branch, draft,
/// auto-generate, and round to title).
pub open spec fn field_after(f: PrCreateField) -> PrCreateField {
    match f {
        PrCreateField::Title => PrCreateField::Body,
        PrCreateField::Body => PrCreateField::TargetBranch,
        PrCreateField::TargetBranch => PrCreateField::Draft,
        PrCreateField::Draft => PrCreateField::AutoGenerate,
        PrCreateField::AutoGenerate => PrCreateField::Title,
    }
}

/// Moves the selection to the next field (`forward`) or the previous one.
pub fn cycle_pr_field(state: &mut PrCreateState, forward: bool)
    ensures
        forward ==> final(state).selected_field == field_after(old(state).selected_field),
        !forward ==> field_after(final(state).selected_field) == old(state).selected_field,
        *final(state) == (PrCreateState { selected_field: final(state).selected_field, ..*old(state) }),
{
    state.selected_field = match (state.selected_field, forward) {
        (PrCreateField::Title, true) => PrCreateField::Body,
        (PrCreateField::Body, true) => PrCreateField::TargetBranch,
        (PrCreateField::TargetBranch, true) => PrCreateField::Draft,
        (PrCreateField::Draft, true) => PrCreateField::AutoGenerate,
        (PrCreateField::AutoGenerate, true) => PrCreateField::Title,
        (PrCreateField::Title, false) => PrCreateField::AutoGenerate,
        (PrCreateField::Body, false) => PrCreateField::Title,
        (PrCreateField::TargetBranch, false) => PrCreateField::Body,
        (PrCreateField::Draft, false) => PrCreateField::TargetBranch,
        (PrCreateField::AutoGenerate, false) => PrCreateField::Draft,
    };
}

/// The field cycle visits all five fields and is undone by cycling
/// back.
pub proof fn lemma_field_cycle(f: PrCreateField, g: PrCreateField)
    ensures
        field_after(f) == field_after(g) ==> f == g,
        field_after(field_after(field_after(field_after(field_after(f))))) == f,
{
}

/// Inserts `text` into `buffer` at `cursor` (or at the end, when the cursor
/// lies past it) and moves the cursor past the inserted text. The insertion
/// point must lie on a char boundary.
pub fn insert_text(buffer: &mut String, cursor: &mut usize, text: &str)
    requires
        len_fits(old(buffer)@),
        len_fits(text@),
        is_boundary(old(buffer)@, min_cursor(old(buffer)@, *old(cursor))),
    ensures
        ({
            let k = floor_char(old(buffer)@, *old(cursor) as int) as int;
            &&& final(buffer)@ == splice(old(buffer)@, k, k, text@)
            &&& *final(cursor) == min_cursor(old(buffer)@, *old(cursor)) + byte_len(text@)
        }),
{
    let v = chars_of(buffer.as_str());
    let t = chars_of(text);
    let k = floor_index(&v, *cursor);
    proof {
        lemma_floor_char(v@, *cursor as int);
        lemma_offset_le_len(v@, k as int);
        crate::text::lemma_offset_full(v@);
        crate::text::lemma_offset_full(t@);
    }
    let at = offset_of(&v, k);
    let added = offset_of(&t, t.len());
    let joined = splice_chars(&v, k, k, &t);
    *buffer = string_of(joined.as_slice());
    *cursor = at + added;
}

/// The text field that the selected field edits, if any.
pub open spec fn is_text_field(f: PrCreateField) -> bool {
    f == PrCreateField::Title || f == PrCreateField::Body || f == PrCreateField::TargetBranch
}

/// Every text field of the form fits and has its cursor on a char boundary.
pub open spec fn pr_form_ready(s: PrCreateState) -> bool {
    &&& len_fits(s.title@) && is_boundary(s.title@, min_cursor(s.title@, s.title_cursor))
    &&& len_fits(s.body@) && is_boundary(s.body@, min_cursor(s.body@, s.body_cursor))
    &&& len_fits(s.target_branch@) && is_boundary(
        s.target_branch@,
        min_cursor(s.target_branch@, s.target_branch_cursor),
    )
}

/// The form is unchanged apart from its text fields and cursors.
pub open spec fn same_settings(a: PrCreateState, b: PrCreateState) -> bool {
    &&& a.repo_id == b.repo_id
    &&& a.repo_name == b.repo_name
    &&& a.draft == b.draft
    &&& a.auto_generate_description == b.auto_generate_description
    &&& a.selected_field == b.selected_field
    &&& a.submitting == b.submitting
}

/// `b` is `a` with the selected text field edited as `update` says (text
/// and cursor), and the other fields unchanged.
pub open spec fn field_updated(a: PrCreateState, b: PrCreateState, text: Seq<char>, cursor: int) -> bool {
    &&& same_settings(a, b)
    &&& match a.selected_field {
        PrCreateField::Title => b.title@ == text && b.title_cursor == cursor && b.body == a.body
            && b.body_cursor == a.body_cursor && b.target_branch == a.target_branch
            && b.target_branch_cursor == a.target_branch_cursor,
        PrCreateField::Body => b.body@ == text && b.body_cursor == cursor && b.title == a.title
            && b.title_cursor == a.title_cursor && b.target_branch == a.target_branch
            && b.target_branch_cursor == a.target_branch_cursor,
        PrCreateField::TargetBranch => b.target_branch@ == text && b.target_branch_cursor
            == cursor && b.title == a.title && b.title_cursor == a.title_cursor && b.body
            == a.body && b.body_cursor == a.body_cursor,
        _ => b == a,
    }
}

/// The text and cursor of the selected field.
pub open spec fn selected_text(s: PrCreateState) -> (Seq<char>, int) {
    match s.selected_field {
        PrCreateField::Body => (s.body@, s.body_cursor as int),
        PrCreateField::TargetBranch => (s.target_branch@, s.target_branch_cursor as int),
        _ => (s.title@, s.title_cursor as int),
    }
}

/// Pastes text into the selected text field of an open form (nothing
/// happens on the draft and auto-generate toggles, or with no form).
pub fn handle_pr_create_paste(form: &mut Option<PrCreateState>, pasted: &str)
    requires
        *old(form) matches Some(s) ==> pr_form_ready(s),
        len_fits(pasted@),
    ensures
        match *old(form) {
            None => *final(form) is None,
            Some(s) => *final(form) matches Some(t) && if is_text_field(s.selected_field) {
                let (text, cursor) = selected_text(s);
                let k = floor_char(text, cursor) as int;
                field_updated(
                    s,
                    t,
                    splice(text, k, k, pasted@),
                    min_cursor(text, cursor as usize) + byte_len(pasted@),
                )
            } else {
                t == s
            },
        },
{
    match form {
        None => {},
        Some(state) => {
            match state.selected_field {
                PrCreateField::Title => insert_text(&mut state.title, &mut state.title_cursor, pasted),
                PrCreateField::Body => insert_text(&mut state.body, &mut state.body_cursor, pasted),
                PrCreateField::TargetBranch => insert_text(
                    &mut state.target_branch,
                    &mut state.target_branch_cursor,
                    pasted,
                ),
                _ => {},
            }
        },
    }
}

/// What a key in the form asks of the screen around it.
#[derive(Debug, Clone, Copy, PartialEq, Eq, Structural)]
pub enum PrKeyOutcome {
    /// Nothing beyond the change to the form.
    Handled,
    /// Escape while the request is in flight: tell the user it is running.
    StillSubmitting,
    /// The form was closed.
    Cancelled,
    /// Submit the pull request.
    Submit,
}

/// Text keys in the form: enter neither submits nor inserts a newline.
pub open spec fn pr_text_options() -> TextInputOptions {
    TextInputOptions {
        submit_on_enter: false,
        enter_inserts_newline: false,
        shift_enter_inserts_newline: false,
    }
}

/// What a key does to an open form. While submitting, only escape counts
/// (as a notice). Otherwise escape closes the form, tab and back-tab cycle
/// the fields, control-s submits, space toggles the draft or auto-generate
/// setting when one of them is selected, enter toggles them or submits
/// from a text field, and other keys edit the selected text field.
pub open spec fn pr_key_post(
    before: Option<PrCreateState>,
    after: Option<PrCreateState>,
    key: KeyEvent,
    r: PrKeyOutcome,
) -> bool {
    match before {
        None => after is None && r == PrKeyOutcome::Handled,
        Some(s) => if s.submitting {
            after == before && r == if key.code == KeyCode::Esc {
                PrKeyOutcome::StillSubmitting
            } else {
                PrKeyOutcome::Handled
            }
        } else if key.code == KeyCode::Esc {
            after is None && r == PrKeyOutcome::Cancelled
        } else if key.code == KeyCode::Tab || key.code == KeyCode::BackTab {
            r == PrKeyOutcome::Handled && (after matches Some(t) && t == (PrCreateState {
                selected_field: t.selected_field,
                ..s
            }) && if key.code == KeyCode::Tab {
                t.selected_field == field_after(s.selected_field)
            } else {
                field_after(t.selected_field) == s.selected_field
            })
        } else if key.code == KeyCode::Char('s') && key.modifiers.is_control_only() {
            after == before && r == PrKeyOutcome::Submit
        } else if key.code == KeyCode::Char(' ') || key.code == KeyCode::Enter {
            if s.selected_field == PrCreateField::Draft {
                r == PrKeyOutcome::Handled && after == Some(PrCreateState { draft: !s.draft, ..s })
            } else if s.selected_field == PrCreateField::AutoGenerate {
                r == PrKeyOutcome::Handled && after == Some(
                    PrCreateState { auto_generate_description: !s.auto_generate_description, ..s },
                )
            } else {
                after == before && r == if key.code == KeyCode::Enter {
                    PrKeyOutcome::Submit
                } else {
                    PrKeyOutcome::Handled
                }
            }
        } else {
            r == PrKeyOutcome::Handled && (after matches Some(t) && match text_input_event(
                key,
                pr_text_options(),
            ) {
                Some(TextInputEvent::Edit(action)) => if is_text_field(s.selected_field) {
                    let (text, cursor) = selected_text(s);
                    let out = edit_outcome(text, cursor, action);
                    field_updated(s, t, out.0, out.1)
                } else {
                    t == s
                },
                _ => t == s,
            })
        },
    }
}

/// Handles a key while the pull-request form is open.
pub fn handle_pr_create_key(form: &mut Option<PrCreateState>, key: KeyEvent) -> (r: PrKeyOutcome)
    requires
        *old(form) matches Some(s) ==> pr_form_ready(s),
    ensures
        pr_key_post(*old(form), *final(form), key, r),
{
    let submitting = match form {
        None => {
            return PrKeyOutcome::Handled;
        },
        Some(state) => state.submitting,
    };
    if submitting {
        return if key.code == KeyCode::Esc {
            PrKeyOutcome::StillSubmitting
        } else {
            PrKeyOutcome::Handled
        };
    }
    if key.code == KeyCode::Esc {
        *form = None;
        return PrKeyOutcome::Cancelled;
    }
    let state = match form {
        Some(state) => state,
        None => {
            return PrKeyOutcome::Handled;
        },
    };
    if key.code == KeyCode::Tab {
        cycle_pr_field(state, true);
        return PrKeyOutcome::Handled;
    }
    if key.code == KeyCode::BackTab {
        cycle_pr_field(state, false);
        return PrKeyOutcome::Handled;
    }
    if key.code == KeyCode::Char('s') && key.modifiers.is_control_only_exec() {
        return PrKeyOutcome::Submit;
    }
    if key.code == KeyCode::Char(' ') || key.code == KeyCode::Enter {
        match state.selected_field {
            PrCreateField::Draft => {
                state.draft = !state.draft;
                return PrKeyOutcome::Handled;
            },
            PrCreateField::AutoGenerate => {
                state.auto_generate_description = !state.auto_generate_description;
                return PrKeyOutcome::Handled;
            },
            _ => {
                return if key.code == KeyCode::Enter {
                    PrKeyOutcome::Submit
                } else {
                    PrKeyOutcome::Handled
                };
            },
        }
    }
    let options = TextInputOptions {
        submit_on_enter: false,
        enter_inserts_newline: false,
        shift_enter_inserts_newline: false,
    };
    match map_text_input_key(key, options) {
        Some(TextInputEvent::Edit(action)) => {
            match state.selected_field {
                PrCreateField::Title => {
                    apply_text_edit_action(&mut state.title, &mut state.title_cursor, action);
                },
                PrCreateField::Body => {
                    apply_text_edit_action(&mut state.body, &mut state.body_cursor, action);
                },
                PrCreateField::TargetBranch => {
                    apply_text_edit_action(
                        &mut state.target_branch,
                        &mut state.target_branch_cursor,
                        action,
                    );
                },
                _ => {},
            }
        },
        _ => {},
    }
    PrKeyOutcome::Handled
}

} // verus!
