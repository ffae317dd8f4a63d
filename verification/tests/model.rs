use tui::model::{DiffViewMode, Pane};

#[test]
fn pane_all_and_titles_stay_stable() {
    let panes = Pane::all();
    assert_eq!(panes.len(), 6);
    assert_eq!(panes[0].title(), "Chat");
    assert_eq!(panes[5].title(), "Notes");
}

#[test]
fn pane_titles_in_order() {
    let titles: Vec<&str> = Pane::all().iter().map(|pane| pane.title()).collect();
    assert_eq!(titles, vec!["Chat", "Changes", "Logs", "Git", "Terminal", "Notes"]);
    assert_eq!(DiffViewMode::default_mode(), DiffViewMode::Unified);
}
