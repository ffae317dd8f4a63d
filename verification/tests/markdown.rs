use tui::conversation::markdown::{
    is_italic_delimiter, markdown_heading, markdown_list_prefix, parse_inline_markdown,
    render_markdown_lines, InlineSpan, MarkdownLine,
};

fn plain(text: &str) -> InlineSpan {
    InlineSpan {
        text: text.to_string(),
        bold: false,
        italic: false,
        strike: false,
        code: false,
        link: false,
    }
}

fn texts(spans: &[InlineSpan]) -> Vec<String> {
    spans.iter().map(|span| span.text.clone()).collect()
}

#[test]
fn underscores_inside_identifiers_do_not_trigger_italics() {
    let spans = parse_inline_markdown("render_chat after");
    let rendered = spans.iter().map(|span| span.text.as_str()).collect::<String>();
    assert_eq!(rendered, "render_chat after");
    assert!(spans.iter().all(|span| !span.italic));
}

#[test]
fn bold_markers_toggle_bold_and_are_dropped() {
    let spans = parse_inline_markdown("Hello **world**");
    let mut bold = plain("world");
    bold.bold = true;
    assert_eq!(spans, vec![plain("Hello "), bold]);
}

#[test]
fn links_keep_their_text_only() {
    let spans = parse_inline_markdown("see [docs](http://x) now");
    let mut link = plain("docs");
    link.link = true;
    assert_eq!(spans, vec![plain("see "), link, plain(" now")]);
}

#[test]
fn bracket_without_target_stays_text() {
    let spans = parse_inline_markdown("a [b] c");
    assert_eq!(spans, vec![plain("a [b] c")]);
}

#[test]
fn code_strike_and_italic_spans() {
    let spans = parse_inline_markdown("run `ls` ~~gone~~ *it*");
    // A closing `*` with no later `*` is no delimiter: the italic run keeps it.
    assert_eq!(texts(&spans), vec!["run ", "ls", " ", "gone", " ", "it*"]);
    assert!(spans[1].code && !spans[1].bold);
    assert!(spans[3].strike);
    assert!(spans[5].italic);
    assert!(!spans[0].code && !spans[2].strike && !spans[4].italic);
}

#[test]
fn lone_star_is_not_a_delimiter() {
    let spans = parse_inline_markdown("2 * 3");
    assert_eq!(spans, vec![plain("2 * 3")]);
    let chars: Vec<char> = "a_b _c_".chars().collect();
    assert!(!is_italic_delimiter(&chars, 1));
    assert!(is_italic_delimiter(&chars, 4));
    assert!(!is_italic_delimiter(&chars, 6));
}

#[test]
fn empty_content_has_no_spans() {
    assert!(parse_inline_markdown("").is_empty());
}

#[test]
fn headings_need_one_to_six_hashes_and_text() {
    assert_eq!(markdown_heading("  ## Title"), Some((2, "Title".to_string())));
    assert_eq!(markdown_heading("###### six"), Some((6, "six".to_string())));
    assert_eq!(markdown_heading("####### seven"), None);
    assert_eq!(markdown_heading("#   "), None);
    assert_eq!(markdown_heading("plain"), None);
}

#[test]
fn list_prefixes_cover_bullets_and_numbers() {
    assert_eq!(
        markdown_list_prefix("- item"),
        Some(("•".to_string(), "item".to_string()))
    );
    assert_eq!(
        markdown_list_prefix("  + other"),
        Some(("•".to_string(), "other".to_string()))
    );
    assert_eq!(
        markdown_list_prefix("12. step"),
        Some(("12.".to_string(), "step".to_string()))
    );
    assert_eq!(markdown_list_prefix("12.step"), None);
    assert_eq!(markdown_list_prefix("-item"), None);
}

#[test]
fn render_markdown_lines_classifies_each_line() {
    let lines = render_markdown_lines("# H\n\n```\ncode **x**\n```\n> q\n- a\nplain\r\n");
    assert_eq!(lines.len(), 6);
    match &lines[0] {
        MarkdownLine::Heading { level, spans } => {
            assert_eq!(*level, 1);
            assert_eq!(spans, &vec![plain("  H")]);
        }
        other => panic!("unexpected {other:?}"),
    }
    assert!(matches!(lines[1], MarkdownLine::Blank));
    match &lines[2] {
        MarkdownLine::Code(text) => assert_eq!(text, "code **x**"),
        other => panic!("unexpected {other:?}"),
    }
    match &lines[3] {
        MarkdownLine::Quote(spans) => assert_eq!(spans, &vec![plain("q")]),
        other => panic!("unexpected {other:?}"),
    }
    match &lines[4] {
        MarkdownLine::ListItem { prefix, spans } => {
            assert_eq!(prefix, "•");
            assert_eq!(spans, &vec![plain("a")]);
        }
        other => panic!("unexpected {other:?}"),
    }
    match &lines[5] {
        MarkdownLine::Plain(spans) => assert_eq!(spans, &vec![plain("plain")]),
        other => panic!("unexpected {other:?}"),
    }
}

#[test]
fn render_markdown_lines_of_empty_content_is_empty() {
    assert!(render_markdown_lines("").is_empty());
}
