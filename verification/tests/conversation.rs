use tui::conversation::chat_window_bounds;
use tui::conversation::wrap::{conversation_match_end_offset, scrolled_end_offset, user_message_jump};

#[test]
fn chat_window_bounds_clamp_end_offset_to_last_full_page() {
    let (clamped, start, end, top_offset) = chat_window_bounds(100, 10, 99);
    assert_eq!(clamped, 90);
    assert_eq!(start, 0);
    assert_eq!(end, 10);
    assert_eq!(top_offset, 0);
}

#[test]
fn chat_window_bounds_keep_short_transcript_visible_when_overscrolled() {
    let (clamped, start, end, top_offset) = chat_window_bounds(3, 10, usize::MAX);
    assert_eq!(clamped, 0);
    assert_eq!(start, 0);
    assert_eq!(end, 3);
    assert_eq!(top_offset, 0);
}

#[test]
fn chat_window_bounds_treat_zero_visible_lines_as_one() {
    let (clamped, start, end, top_offset) = chat_window_bounds(5, 0, 2);
    assert_eq!(clamped, 2);
    assert_eq!(start, 2);
    assert_eq!(end, 3);
    assert_eq!(top_offset, 2);
}

#[test]
fn jump_to_user_message_moves_between_user_turns() {
    // Two user turns, at lines 0 and 4, in a transcript of 7 lines.
    let offsets = [0usize, 4];
    let line_count = 7;
    let end_offset = user_message_jump(line_count, 2, 0, &offsets, false).unwrap() as usize;
    let (_, _, _, top_offset) = chat_window_bounds(line_count, 2, end_offset);
    assert_eq!(top_offset, offsets[1]);

    let next = user_message_jump(line_count, 2, end_offset, &offsets, true);
    assert_eq!(next, Some(0));
}

#[test]
fn user_message_jump_backward_from_first_turn_stays_on_it() {
    let offsets = [3usize, 8];
    // Top of the window at line 2: no turn above it, so the first turn.
    let end = user_message_jump(20, 5, 13, &offsets, false);
    assert_eq!(end, Some(12));
}

#[test]
fn user_message_jump_forward_at_bottom_does_nothing() {
    let offsets = [0usize, 4];
    assert_eq!(user_message_jump(10, 3, 0, &offsets, true), None);
    assert_eq!(user_message_jump(10, 3, 0, &[], false), None);
}

#[test]
fn match_and_scroll_offsets() {
    assert_eq!(conversation_match_end_offset(10, 100, 20), 70);
    assert_eq!(conversation_match_end_offset(95, 100, 20), 0);
    assert_eq!(scrolled_end_offset(5, 3), 2);
    assert_eq!(scrolled_end_offset(5, 10), 0);
    assert_eq!(scrolled_end_offset(65535, -4), 65535);
}
