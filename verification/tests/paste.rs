use tui::paste::{
    exceeds_paste_ceiling, expand_document, new_snippet, paste_char_count, paste_line_count,
    placeholder_count_before, restore_document_from_draft, serialize_document_for_draft,
    should_collapse_paste, snippet_label, SNIPPET_PLACEHOLDER_CHAR,
};

#[test]
fn expand_document_restores_snippet_text_exactly() {
    let first = new_snippet("alpha\nbeta".to_string());
    let second = new_snippet("gamma".to_string());
    let text = format!("x{SNIPPET_PLACEHOLDER_CHAR}y{SNIPPET_PLACEHOLDER_CHAR}z");
    let expanded = expand_document(&text, &[first, second]);
    assert_eq!(expanded, "xalpha\nbetaygammaz");
}

#[test]
fn draft_roundtrip_reconstructs_collapsed_snippets() {
    let first = new_snippet("alpha\nbeta".to_string());
    let second = new_snippet("gamma".to_string());
    let text = format!("x{SNIPPET_PLACEHOLDER_CHAR}y{SNIPPET_PLACEHOLDER_CHAR}z");

    let serialized = serialize_document_for_draft(&text, &[first.clone(), second.clone()]);
    let (restored_text, restored_snippets) = restore_document_from_draft(&serialized);

    assert_eq!(restored_text, text);
    assert_eq!(restored_snippets, vec![first, second]);
}

#[test]
fn counts_placeholder_positions_before_cursor() {
    let text = format!("a{SNIPPET_PLACEHOLDER_CHAR}b{SNIPPET_PLACEHOLDER_CHAR}");
    let first_end = "a".len() + SNIPPET_PLACEHOLDER_CHAR.len_utf8();
    assert_eq!(placeholder_count_before(&text, 0), 0);
    assert_eq!(placeholder_count_before(&text, first_end), 1);
    assert_eq!(placeholder_count_before(&text, text.len()), 2);
}

#[test]
fn placeholder_count_clamps_cursor_past_the_end() {
    let text = format!("{SNIPPET_PLACEHOLDER_CHAR}x");
    assert_eq!(placeholder_count_before(&text, 1000), 1);
}

#[test]
fn serialized_draft_holds_uuid_and_base64_marker() {
    let snippet = new_snippet("hi".to_string());
    let text = format!("a{SNIPPET_PLACEHOLDER_CHAR}b");
    let serialized = serialize_document_for_draft(&text, &[snippet.clone()]);
    let id = uuid::Uuid::from_u128(snippet.id).hyphenated().to_string();
    assert_eq!(serialized, format!("a<|VK_PASTED_TEXT:{id}:aGk=|>b"));
}

#[test]
fn placeholders_without_snippets_are_dropped() {
    let text = format!("a{SNIPPET_PLACEHOLDER_CHAR}b");
    assert_eq!(expand_document(&text, &[]), "ab");
    assert_eq!(serialize_document_for_draft(&text, &[]), "ab");
}

#[test]
fn malformed_and_unclosed_markers_stay_as_text() {
    let bad = "x<|VK_PASTED_TEXT:not-a-uuid:aGk=|>y";
    let (text, snippets) = restore_document_from_draft(bad);
    assert_eq!(text, bad);
    assert!(snippets.is_empty());

    let open = "x<|VK_PASTED_TEXT:abc";
    let (text, snippets) = restore_document_from_draft(open);
    assert_eq!(text, open);
    assert!(snippets.is_empty());
}

#[test]
fn restores_marker_with_invalid_utf8_payload_as_text() {
    let id = "67e55044-10b1-426f-9247-bb680e5fe0c8";
    let message = format!("<|VK_PASTED_TEXT:{id}:/w==|>");
    let (text, snippets) = restore_document_from_draft(&message);
    assert_eq!(text, message);
    assert!(snippets.is_empty());
}

#[test]
fn restores_known_marker() {
    let id = "67e55044-10b1-426f-9247-bb680e5fe0c8";
    let message = format!("p<|VK_PASTED_TEXT:{id}:Z2FtbWE=|>q");
    let (text, snippets) = restore_document_from_draft(&message);
    assert_eq!(text, format!("p{SNIPPET_PLACEHOLDER_CHAR}q"));
    assert_eq!(snippets.len(), 1);
    assert_eq!(snippets[0].id, 0x67e5504410b1426f9247bb680e5fe0c8);
    assert_eq!(snippets[0].full_text, "gamma");
    assert_eq!(snippets[0].char_count, 5);
    assert_eq!(snippets[0].line_count, 1);
    assert!(snippets[0].collapsed);
}

#[test]
fn paste_counts_and_thresholds() {
    assert_eq!(paste_char_count("a§b"), 3);
    assert_eq!(paste_line_count(""), 1);
    assert_eq!(paste_line_count("one"), 1);
    assert_eq!(paste_line_count("one\ntwo\n"), 2);
    assert_eq!(paste_line_count("one\n\ntwo"), 3);
    assert!(!should_collapse_paste(&"x".repeat(1200)));
    assert!(should_collapse_paste(&"x".repeat(1201)));
    assert!(!exceeds_paste_ceiling(&"x".repeat(250_000)));
    assert!(exceeds_paste_ceiling(&"x".repeat(250_001)));
}

#[test]
fn new_snippet_counts_and_labels() {
    let snippet = new_snippet("ab\ncd".to_string());
    assert_eq!(snippet.char_count, 5);
    assert_eq!(snippet.line_count, 2);
    assert!(snippet.collapsed);
    assert_eq!(snippet_label(&snippet), "[Pasted Text] 5 chars, 2 lines");
    let other = new_snippet("ab\ncd".to_string());
    assert_ne!(snippet.id, other.id);
}
