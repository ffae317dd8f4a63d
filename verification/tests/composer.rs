use tui::app::util::{ModelInfo, ReasoningOption};
use tui::composer::config::{
    apply_agent_picker_selection, current_discovery_session_id, cycle_executor, cycle_model,
    cycle_permission_mode, cycle_reasoning, cycle_variant, executor_options,
    filtered_agent_mode_options, open_agent_picker, reasoning_options, selected_agent_mode_index,
    selected_agent_mode_label, selected_model_label, selected_model_value, selected_reasoning_label,
    variant_options, AgentInfo, AgentPickerState, ComposerConfig, DiscoveredOptions, ExecutorCycle,
    ExecutorProfile, PickerKeyOutcome, VariantCycle,
};
use tui::input::keys::{KeyCode, KeyEvent, KeyModifiers};
use tui::model::format::PermissionPolicy;

fn profile(executor: &str, configurations: &[&str]) -> ExecutorProfile {
    ExecutorProfile {
        executor: executor.to_string(),
        configurations: configurations.iter().map(|c| c.to_string()).collect(),
    }
}

fn config(executor: &str) -> ComposerConfig {
    ComposerConfig {
        executor: executor.to_string(),
        variant: None,
        model_id: None,
        agent_id: None,
        reasoning_id: None,
        permission_policy: None,
    }
}

fn agent(id: &str, label: &str, description: Option<&str>, is_default: bool) -> AgentInfo {
    AgentInfo {
        id: id.to_string(),
        label: label.to_string(),
        description: description.map(|d| d.to_string()),
        is_default,
    }
}

fn reasoning(id: &str, label: &str, is_default: bool) -> ReasoningOption {
    ReasoningOption {
        id: id.to_string(),
        label: label.to_string(),
        is_default,
    }
}

fn sample_options() -> DiscoveredOptions {
    DiscoveredOptions {
        models: vec![ModelInfo {
            id: "gpt-5".to_string(),
            name: "GPT-5".to_string(),
            provider_id: Some("openai".to_string()),
            reasoning_options: vec![reasoning("low", "Low", false), reasoning("high", "High", true)],
        }],
        default_model: Some("openai/gpt-5".to_string()),
        agents: vec![
            agent("review", "Review", Some("Review code"), false),
            agent("build", "Builder", Some("Build features"), true),
        ],
        permissions: Vec::new(),
    }
}

fn press(code: KeyCode) -> KeyEvent {
    KeyEvent::new(code, KeyModifiers::none())
}

#[test]
fn executor_and_variant_options_are_sorted_as_expected() {
    let profiles = vec![
        profile("CODEX", &["PLAN", "DEFAULT", "ROUTER"]),
        profile("CLAUDE_CODE", &["DEFAULT"]),
    ];
    assert_eq!(
        executor_options(&profiles),
        vec!["CLAUDE_CODE".to_string(), "CODEX".to_string()]
    );
    assert_eq!(
        variant_options(&profiles, &"CODEX".to_string()),
        vec!["DEFAULT".to_string(), "PLAN".to_string(), "ROUTER".to_string()]
    );
}

#[test]
fn variant_options_fall_back_to_default() {
    let profiles = vec![profile("CODEX", &["recently_used_models"])];
    assert_eq!(variant_options(&profiles, &"CODEX".to_string()), vec!["DEFAULT".to_string()]);
    assert_eq!(variant_options(&profiles, &"GEMINI".to_string()), vec!["DEFAULT".to_string()]);
    let profiles = vec![profile("CODEX", &["ZED", "APPLE", "recently_used_models"])];
    assert_eq!(
        variant_options(&profiles, &"CODEX".to_string()),
        vec!["APPLE".to_string(), "ZED".to_string()]
    );
}

#[test]
fn model_reasoning_and_agent_picker_helpers_follow_config_fallbacks() {
    let mut cfg = config("CODEX");
    cfg.agent_id = Some("review".to_string());
    let cfg = Some(cfg);
    let options = Some(sample_options());

    assert_eq!(selected_model_value(&cfg, &options).as_deref(), Some("openai/gpt-5"));
    assert_eq!(selected_reasoning_label(&cfg, &options).as_deref(), Some("high"));

    let filtered = filtered_agent_mode_options("rvw", &options);
    assert_eq!(filtered.len(), 2);
    assert!(matches!(filtered[1].as_ref().map(|agent| agent.id.as_str()), Some("review")));

    let selected = selected_agent_mode_index(
        &vec![
            None,
            Some(agent("build", "Builder", None, true)),
            Some(agent("review", "Review", None, false)),
        ],
        &cfg,
    );
    assert_eq!(selected, 2);
}

#[test]
fn agent_choices_put_defaults_first_then_labels() {
    let options = Some(sample_options());
    let all = filtered_agent_mode_options("  ", &options);
    let ids: Vec<Option<&str>> = all.iter().map(|a| a.as_ref().map(|a| a.id.as_str())).collect();
    assert_eq!(ids, vec![None, Some("build"), Some("review")]);
    let none = filtered_agent_mode_options("zzz", &options);
    assert_eq!(none.len(), 1);
}

#[test]
fn model_labels_and_reasoning_lists_follow_the_selected_model() {
    let options = Some(sample_options());
    let cfg = Some(config("CODEX"));
    assert_eq!(selected_model_label(&cfg, &options).as_deref(), Some("openai/gpt-5"));
    assert_eq!(reasoning_options(&cfg, &options), vec!["low".to_string(), "high".to_string()]);
    let mut unknown = config("CODEX");
    unknown.model_id = Some("other".to_string());
    let unknown = Some(unknown);
    assert_eq!(selected_model_label(&unknown, &options).as_deref(), Some("other"));
    assert!(reasoning_options(&unknown, &options).is_empty());
    assert_eq!(selected_reasoning_label(&unknown, &options), None);
    assert_eq!(selected_model_value(&None, &None), None);
}

#[test]
fn agent_mode_labels_fall_back_to_default_and_id() {
    let options = Some(sample_options());
    assert_eq!(selected_agent_mode_label(&Some(config("CODEX")), &options), "default");
    let mut cfg = config("CODEX");
    cfg.agent_id = Some("build".to_string());
    assert_eq!(selected_agent_mode_label(&Some(cfg.clone()), &options), "Builder");
    cfg.agent_id = Some("ghost".to_string());
    assert_eq!(selected_agent_mode_label(&Some(cfg), &options), "ghost");
}

#[test]
fn agent_picker_opens_at_the_current_mode_and_applies_choices() {
    let options = Some(sample_options());
    let mut cfg = config("CODEX");
    cfg.agent_id = Some("review".to_string());
    let mut cfg = Some(cfg);
    let (picker, status) = open_agent_picker(&cfg, &options);
    assert_eq!(status, "Select agent mode");
    let picker = picker.unwrap();
    assert_eq!(picker.query, "");
    assert_eq!(picker.selected, 2);

    let choices = filtered_agent_mode_options("", &options);
    let status = apply_agent_picker_selection(&choices, 1, &mut cfg);
    assert_eq!(status, "Updated agent mode to Builder");
    assert_eq!(cfg.as_ref().unwrap().agent_id.as_deref(), Some("build"));
    let status = apply_agent_picker_selection(&choices, 0, &mut cfg);
    assert_eq!(status, "Updated agent mode to default");
    assert_eq!(cfg.as_ref().unwrap().agent_id, None);
    let status = apply_agent_picker_selection(&choices, 99, &mut cfg);
    assert_eq!(status, "Updated agent mode to Review");

    let mut missing = None;
    assert_eq!(
        apply_agent_picker_selection(&choices, 0, &mut missing),
        "Composer config is still loading"
    );
    let empty = Some(DiscoveredOptions {
        models: Vec::new(),
        default_model: None,
        agents: Vec::new(),
        permissions: Vec::new(),
    });
    let (picker, status) = open_agent_picker(&cfg, &empty);
    assert!(picker.is_none());
    assert_eq!(status, "No agent modes available");
}

#[test]
fn agent_picker_keys_edit_the_query_and_move_the_selection() {
    let mut picker = AgentPickerState { query: String::new(), selected: 0 };
    assert_eq!(picker.handle_agent_picker_key(press(KeyCode::Down), 3), PickerKeyOutcome::Stay);
    assert_eq!(picker.selected, 1);
    picker.handle_agent_picker_key(press(KeyCode::PageDown), 3);
    assert_eq!(picker.selected, 2);
    picker.handle_agent_picker_key(press(KeyCode::Char('j')), 3);
    assert_eq!(picker.selected, 2);
    picker.handle_agent_picker_key(press(KeyCode::Up), 3);
    assert_eq!(picker.selected, 1);
    picker.handle_agent_picker_key(press(KeyCode::Char('r')), 3);
    assert_eq!(picker.query, "r");
    assert_eq!(picker.selected, 0);
    picker.handle_agent_picker_key(KeyEvent::new(KeyCode::Char('x'), KeyModifiers::control()), 3);
    assert_eq!(picker.query, "r");
    picker.handle_agent_picker_key(press(KeyCode::End), 3);
    assert_eq!(picker.selected, 2);
    picker.handle_agent_picker_key(press(KeyCode::Backspace), 3);
    assert_eq!(picker.query, "");
    assert_eq!(picker.selected, 0);
    assert_eq!(picker.handle_agent_picker_key(press(KeyCode::Enter), 3), PickerKeyOutcome::Apply);
    assert_eq!(picker.handle_agent_picker_key(press(KeyCode::Esc), 3), PickerKeyOutcome::Close);
}

#[test]
fn cycle_executor_is_blocked_for_existing_session() {
    let profiles = vec![profile("CODEX", &["DEFAULT"]), profile("CLAUDE_CODE", &["DEFAULT"])];
    let cfg = Some(config("CODEX"));
    assert_eq!(cycle_executor(false, true, &profiles, &cfg, &None), ExecutorCycle::Locked);
}

#[test]
fn cycle_executor_moves_to_the_next_executor_by_name() {
    let profiles = vec![profile("CODEX", &["DEFAULT"]), profile("CLAUDE_CODE", &["PLAN", "DEFAULT"])];
    let cfg = Some(config("CODEX"));
    assert_eq!(
        cycle_executor(true, true, &profiles, &cfg, &None),
        ExecutorCycle::Switch { executor: "CLAUDE_CODE".to_string(), variant: None }
    );
    let profiles = vec![profile("CODEX", &["PLAN"]), profile("CLAUDE_CODE", &["DEFAULT"])];
    assert_eq!(
        cycle_executor(false, false, &profiles, &None, &Some("CLAUDE_CODE".to_string())),
        ExecutorCycle::Switch { executor: "CODEX".to_string(), variant: Some("PLAN".to_string()) }
    );
    assert_eq!(cycle_executor(true, false, &Vec::new(), &cfg, &None), ExecutorCycle::Loading);
}

#[test]
fn cycle_variant_goes_round_the_variants() {
    let profiles = vec![profile("CODEX", &["PLAN", "DEFAULT", "ROUTER"])];
    let mut cfg = config("CODEX");
    assert_eq!(
        cycle_variant(&Some(cfg.clone()), &profiles),
        VariantCycle::Switch { executor: "CODEX".to_string(), variant: Some("PLAN".to_string()) }
    );
    cfg.variant = Some("ROUTER".to_string());
    assert_eq!(
        cycle_variant(&Some(cfg), &profiles),
        VariantCycle::Switch { executor: "CODEX".to_string(), variant: None }
    );
    assert_eq!(cycle_variant(&None, &profiles), VariantCycle::Loading);
}

#[test]
fn cycling_models_reasoning_and_permissions_updates_the_config() {
    let mut options = sample_options();
    options.models.push(ModelInfo {
        id: "o3".to_string(),
        name: "o3".to_string(),
        provider_id: None,
        reasoning_options: Vec::new(),
    });
    options.permissions = vec![PermissionPolicy::Auto, PermissionPolicy::Plan];
    let options = Some(options);
    let mut cfg = Some(config("CODEX"));

    assert_eq!(cycle_reasoning(&mut cfg, &options).as_deref(), Some("Updated reasoning to low"));
    assert_eq!(cfg.as_ref().unwrap().reasoning_id.as_deref(), Some("low"));

    assert_eq!(cycle_model(&mut cfg, &options).as_deref(), Some("Updated model to o3"));
    assert_eq!(cfg.as_ref().unwrap().model_id.as_deref(), Some("o3"));
    assert_eq!(cfg.as_ref().unwrap().reasoning_id, None);
    assert_eq!(
        cycle_reasoning(&mut cfg, &options).as_deref(),
        Some("No reasoning options available")
    );

    assert_eq!(
        cycle_permission_mode(&mut cfg, &options).as_deref(),
        Some("Updated permission mode to PLAN")
    );
    assert_eq!(cfg.as_ref().unwrap().permission_policy, Some(PermissionPolicy::Plan));
    assert_eq!(
        cycle_permission_mode(&mut cfg, &options).as_deref(),
        Some("Updated permission mode to AUTO")
    );

    let mut none = None;
    assert_eq!(cycle_model(&mut none, &options), None);
    assert_eq!(
        cycle_model(&mut cfg, &None).as_deref(),
        Some("No model options available")
    );
}

#[test]
fn discovery_follows_the_selected_session_unless_starting_one() {
    assert_eq!(current_discovery_session_id(true, Some(3)), None);
    assert_eq!(current_discovery_session_id(false, Some(3)), Some(3));
}
