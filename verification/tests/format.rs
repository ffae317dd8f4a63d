use tui::api::{base_url_from, detect_base_url, envelope_result, truncate_for_log, ws_base};
use tui::model::format::relative_time_label;
use tui::model::{
    diff_title, display_permission, display_variant, workspace_title, ApiEnvelope, DiffChangeKind,
    LocalDiff, PermissionPolicy,
};

fn diff(old_path: Option<&str>, new_path: Option<&str>) -> LocalDiff {
    LocalDiff {
        change: DiffChangeKind::Modified,
        old_path: old_path.map(str::to_string),
        new_path: new_path.map(str::to_string),
        old_content: None,
        new_content: None,
        content_omitted: false,
        additions: None,
        deletions: None,
        repo_id: None,
    }
}

#[test]
fn labels() {
    assert_eq!(diff_title(&diff(Some("a"), Some("b"))), "b");
    assert_eq!(diff_title(&diff(Some("a"), None)), "a");
    assert_eq!(diff_title(&diff(None, None)), "<unknown>");
    assert_eq!(display_variant(Some("PLAN")), "PLAN");
    assert_eq!(display_variant(None), "DEFAULT");
    assert_eq!(display_permission(Some(&PermissionPolicy::Supervised)), "SUPERVISED");
    assert_eq!(display_permission(None), "DEFAULT");
    assert_eq!(workspace_title(Some("Named"), "branch"), "Named");
    assert_eq!(workspace_title(None, "branch"), "branch");
}

#[test]
fn relative_times() {
    assert_eq!(relative_time_label(-5), "0s ago");
    assert_eq!(relative_time_label(59), "59s ago");
    assert_eq!(relative_time_label(60), "1m ago");
    assert_eq!(relative_time_label(7199), "1h ago");
    assert_eq!(relative_time_label(86400 * 3 + 5), "3d ago");
}

#[test]
fn transport_helpers() {
    assert_eq!(ws_base("https://host:1"), "wss://host:1");
    assert_eq!(ws_base("http://127.0.0.1:3001"), "ws://127.0.0.1:3001");
    assert_eq!(ws_base("ftp://x"), "ftp://x");
    assert_eq!(truncate_for_log("short"), "short");
    let long = "x".repeat(500);
    assert_eq!(truncate_for_log(&long), format!("{}...", "x".repeat(400)));
    assert_eq!(base_url_from(Some("http://a".to_string()), Some("1".to_string()), None), "http://a");
    assert_eq!(base_url_from(None, Some(" 4000 ".to_string()), Some(5)), "http://127.0.0.1:4000");
    assert_eq!(base_url_from(None, None, Some(5173)), "http://127.0.0.1:5173");
    assert_eq!(base_url_from(None, None, None), "http://127.0.0.1:3001");
}

#[test]
fn base_url_from_dev_ports_files() {
    let files = vec![
        "not json".to_string(),
        "{\"frontend\": 3000}".to_string(),
        "{\"backend\": 4123, \"frontend\": 3000}".to_string(),
        "{\"backend\": 9999}".to_string(),
    ];
    assert_eq!(detect_base_url(None, None, &files), "http://127.0.0.1:4123");
    assert_eq!(detect_base_url(None, Some("8080\n".to_string()), &files), "http://127.0.0.1:8080");
    assert_eq!(
        detect_base_url(Some("https://vk.example".to_string()), None, &files),
        "https://vk.example"
    );
    let none_usable = vec!["{\"backend\": \"x\"}".to_string(), "{\"backend\": -1}".to_string()];
    assert_eq!(detect_base_url(None, None, &none_usable), "http://127.0.0.1:3001");
    assert_eq!(detect_base_url(None, None, &Vec::new()), "http://127.0.0.1:3001");
}

#[test]
fn envelopes() {
    let ok = ApiEnvelope { success: true, data: Some(7u32), message: None };
    assert_eq!(envelope_result(true, "200 OK", ok), Ok(7));
    let missing: ApiEnvelope<u32> = ApiEnvelope { success: true, data: None, message: None };
    assert_eq!(
        envelope_result(true, "200 OK", missing),
        Err("API response did not include data".to_string())
    );
    let refused: ApiEnvelope<u32> = ApiEnvelope { success: false, data: None, message: Some("no".to_string()) };
    assert_eq!(envelope_result(true, "200 OK", refused), Err("no".to_string()));
    let failed: ApiEnvelope<u32> = ApiEnvelope { success: true, data: Some(1), message: None };
    assert_eq!(
        envelope_result(false, "500 Internal Server Error", failed),
        Err("request failed with status 500 Internal Server Error".to_string())
    );
}
