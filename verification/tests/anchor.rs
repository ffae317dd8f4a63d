use tui::conversation::anchor::{
    capture_chat_viewport_anchor, find_chat_anchor_top_offset, restore_chat_viewport_anchor,
    ChatViewportAnchor,
};

fn lines(texts: &[&str]) -> Vec<String> {
    texts.iter().map(|t| t.to_string()).collect()
}

#[test]
fn anchors_are_captured_only_when_scrolled_up() {
    let chat = lines(&["a", "b", "c", "d", "e"]);
    assert_eq!(capture_chat_viewport_anchor(&chat, 0, 0, 5, 0), None);
    let anchor = capture_chat_viewport_anchor(&chat, 2, 1, 5, 1).unwrap();
    assert_eq!(anchor.top_offset, 1);
    assert_eq!(anchor.visible_line_texts, lines(&["b", "c", "d"]));
}

#[test]
fn anchors_are_found_by_window_then_by_first_line() {
    let anchor = ChatViewportAnchor { top_offset: 9, visible_line_texts: lines(&["c", "d"]) };
    assert_eq!(find_chat_anchor_top_offset(&lines(&["x", "c", "d", "e"]), &anchor), Some(1));
    assert_eq!(find_chat_anchor_top_offset(&lines(&["x", "y", "c", "z"]), &anchor), Some(2));
    assert_eq!(find_chat_anchor_top_offset(&lines(&["x"]), &anchor), None);
    let empty = ChatViewportAnchor { top_offset: 4, visible_line_texts: Vec::new() };
    assert_eq!(find_chat_anchor_top_offset(&lines(&["x"]), &empty), Some(4));
}

#[test]
fn restoring_keeps_the_remembered_lines_in_view() {
    let before = lines(&["a", "b", "c", "d", "e", "f"]);
    let anchor = capture_chat_viewport_anchor(&before, 2, 2, 4, 2).unwrap();
    let after = lines(&["new", "a", "b", "c", "d", "e", "f", "g"]);
    // "c" now stands at index 3: with 2 lines in view, 8 - (2 + 3) = 3.
    assert_eq!(restore_chat_viewport_anchor(&after, 2, &anchor), 3);
    let gone = lines(&["z"; 10]);
    // The lines are gone: the old top offset is used, 10 - (2 + 2) = 6.
    assert_eq!(restore_chat_viewport_anchor(&gone, 2, &anchor), 6);
    assert_eq!(restore_chat_viewport_anchor(&gone, usize::MAX, &anchor), 0);
}
