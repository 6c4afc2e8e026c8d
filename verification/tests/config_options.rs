//! Config options and modes.

use acp_client::agent_profiles;
use acp_client::config_options::{
    config_option_failure_event, config_option_reply_events, config_option_success_events,
    config_options_event, dispatch_set_mode, map_acp_config_option, map_config_options,
    mode_config_id, mode_reply_event, model_config_id, modes_available_event,
    resolve_mode_set_target, thought_level_config_id, ConfigOptionDispatchPurpose, ModeRequest,
    ModeSetTarget, SessionChannels,
};
use acp_client::event::{ConfigOptionCategory, Event, ModeInfo};
use acp_client::wire::{
    ConfigCategory, ConfigKind, ConfigOption, SelectOption, SelectOptions, SessionModes,
};

fn choice(value: &str, name: &str) -> SelectOption {
    SelectOption { value: value.to_string(), name: name.to_string(), description: None }
}

fn select(
    id: &str,
    name: &str,
    current: &str,
    options: Vec<SelectOption>,
    category: Option<ConfigCategory>,
) -> ConfigOption {
    ConfigOption {
        id: id.to_string(),
        name: name.to_string(),
        description: None,
        category,
        kind: ConfigKind::Select {
            current_value: current.to_string(),
            options: SelectOptions::Ungrouped(options),
        },
    }
}

fn mode_info(id: &str) -> ModeInfo {
    ModeInfo { id: id.to_string(), name: id.to_uppercase(), description: None }
}

#[test]
fn model_config_category_maps_without_the_unknown_variant_warning() {
    let mapped = map_acp_config_option(select(
        "reasoning-effort",
        "Reasoning effort",
        "high",
        vec![choice("high", "High")],
        Some(ConfigCategory::ModelConfig),
    ))
    .expect("a select option maps");
    assert_eq!(mapped.category, ConfigOptionCategory::Other("model_config".to_string()));
}

#[test]
fn resolve_mode_set_target_matches_normalized_session_mode_ids() {
    let ids = Some(vec!["acceptEdits".to_string(), "plan".to_string()]);
    // Underscore + case folding both sides.
    assert_eq!(
        resolve_mode_set_target("accept_edits", &ids, None),
        Some(ModeSetTarget::SessionMode)
    );
    assert_eq!(
        resolve_mode_set_target("acceptEdits", &ids, None),
        Some(ModeSetTarget::SessionMode)
    );
    assert_eq!(
        resolve_mode_set_target("PLAN", &ids, None),
        Some(ModeSetTarget::SessionMode)
    );
    // Not in the advertised set.
    assert_eq!(resolve_mode_set_target("bypassPermissions", &ids, None), None);
}

#[test]
fn profile_yolo_mode_ids_pass_the_advertised_guard() {
    let claude_modes = Some(vec![
        "auto".to_string(),
        "default".to_string(),
        "acceptEdits".to_string(),
        "plan".to_string(),
        "bypassPermissions".to_string(),
    ]);
    let codex_modes = Some(vec![
        "read-only".to_string(),
        "agent".to_string(),
        "agent-full-access".to_string(),
    ]);

    let claude_yolo = agent_profiles::claude_code("default").yolo_mode_id.unwrap();
    assert_eq!(
        resolve_mode_set_target(&claude_yolo, &claude_modes, None),
        Some(ModeSetTarget::SessionMode)
    );

    let codex_yolo = agent_profiles::codex().yolo_mode_id.unwrap();
    assert_eq!(
        resolve_mode_set_target(&codex_yolo, &codex_modes, None),
        Some(ModeSetTarget::SessionMode)
    );
    // An id of another agent does not pass the guard.
    assert_eq!(resolve_mode_set_target("bypassPermissions", &codex_modes, None), None);
    // Neither does a stale one.
    assert_eq!(resolve_mode_set_target("full-access", &codex_modes, None), None);
}

#[test]
fn config_option_mode_is_authoritative() {
    let ids = Some(
        vec!["agent", "agent-full-access"].into_iter().map(str::to_string).collect(),
    );
    assert_eq!(
        resolve_mode_set_target("agent-full-access", &ids, Some("mode")),
        Some(ModeSetTarget::ConfigOption("mode"))
    );
    assert_eq!(
        resolve_mode_set_target("agent-full-access", &None, Some("mode")),
        Some(ModeSetTarget::ConfigOption("mode"))
    );
    assert_eq!(
        resolve_mode_set_target("plan", &None, None),
        Some(ModeSetTarget::SessionMode)
    );
}

#[test]
fn mode_config_dispatch_preserves_semantic_mode_events() {
    let events = config_option_success_events(
        Vec::new(),
        "agent-full-access".to_string(),
        ConfigOptionDispatchPurpose::Mode,
    );
    assert_eq!(events.len(), 2);
    assert!(matches!(
        &events[0],
        Event::ConfigOptionsUpdated { options } if options.is_empty()
    ));
    assert!(matches!(
        &events[1],
        Event::CurrentModeChanged { current_mode_id }
            if current_mode_id == "agent-full-access"
    ));

    let failure = config_option_failure_event(
        "mode".to_string(),
        "agent-full-access".to_string(),
        "rejected".to_string(),
        ConfigOptionDispatchPurpose::Mode,
    );
    assert!(matches!(
        failure,
        Event::ModeSwitchFailed { mode_id, reason }
            if mode_id == "agent-full-access" && reason == "rejected"
    ));

    let generic_failure = config_option_failure_event(
        "model".to_string(),
        "gpt-5".to_string(),
        "rejected".to_string(),
        ConfigOptionDispatchPurpose::Generic,
    );
    assert!(matches!(
        generic_failure,
        Event::ConfigOptionSwitchFailed { config_id, value, reason }
            if config_id == "model" && value == "gpt-5" && reason == "rejected"
    ));
}

#[test]
fn config_options_event_propagates_empty_snapshot() {
    let event =
        config_options_event(&Some(Vec::new())).expect("Some(vec![]) should produce an event");
    match event {
        Event::ConfigOptionsUpdated { options } => {
            assert!(options.is_empty());
        }
        other => panic!("expected empty ConfigOptionsUpdated, got {other:?}"),
    }
    // No options at all: nothing is announced.
    assert!(config_options_event(&None).is_none());
}

#[test]
fn model_config_id_selects_by_category_not_by_id() {
    let mode = || {
        select(
            "mode",
            "Mode",
            "default",
            vec![choice("default", "Manual")],
            Some(ConfigCategory::Mode),
        )
    };
    let model = select(
        "not-called-model",
        "Model",
        "opus",
        vec![choice("opus", "Opus")],
        Some(ConfigCategory::Model),
    );

    assert_eq!(
        model_config_id(&vec![mode(), model]),
        Some("not-called-model".to_string())
    );
    // No model option advertised: the caller skips rather than guessing.
    assert!(model_config_id(&vec![mode()]).is_none());
}

#[test]
fn grouped_choices_are_flattened_in_order() {
    let option = ConfigOption {
        id: "model".to_string(),
        name: "Model".to_string(),
        description: Some("which model".to_string()),
        category: None,
        kind: ConfigKind::Select {
            current_value: "b".to_string(),
            options: SelectOptions::Grouped(vec![
                vec![choice("a", "A")],
                vec![],
                vec![choice("b", "B"), choice("c", "C")],
            ]),
        },
    };
    let mapped = map_acp_config_option(option).unwrap();
    let values: Vec<&str> = mapped.options.iter().map(|o| o.value.as_str()).collect();
    assert_eq!(values, vec!["a", "b", "c"]);
    assert_eq!(mapped.category, ConfigOptionCategory::Other(String::new()));
    assert_eq!(mapped.current_value, "b");
    assert_eq!(mapped.description.as_deref(), Some("which model"));
}

#[test]
fn options_that_are_no_selects_are_not_shown() {
    let unknown = ConfigOption {
        id: "x".to_string(),
        name: "X".to_string(),
        description: None,
        category: Some(ConfigCategory::Mode),
        kind: ConfigKind::Unknown,
    };
    let shown = select("y", "Y", "1", vec![], Some(ConfigCategory::ThoughtLevel));
    let mapped = map_config_options(&vec![unknown, shown]);
    assert_eq!(mapped.len(), 1);
    assert_eq!(mapped[0].id, "y");
}

#[test]
fn channels_of_a_session_name_the_option_for_each_category() {
    let modes = Some(SessionModes {
        current_mode_id: "plan".to_string(),
        available_modes: vec![mode_info("plan"), mode_info("default")],
    });
    let options = Some(vec![
        select("m", "Mode", "plan", vec![], Some(ConfigCategory::Mode)),
        select("model", "Model", "opus", vec![], Some(ConfigCategory::Model)),
        select("e", "Effort", "high", vec![], Some(ConfigCategory::ThoughtLevel)),
        select("e2", "Effort", "low", vec![], Some(ConfigCategory::ThoughtLevel)),
    ]);
    let channels = SessionChannels::new(&modes, &options);
    assert_eq!(
        channels,
        SessionChannels {
            available_mode_ids: Some(vec!["plan".to_string(), "default".to_string()]),
            mode_config_option_id: Some("m".to_string()),
            model_config_option_id: Some("model".to_string()),
            thought_level_config_option_id: Some("e".to_string()),
        }
    );
    let options = options.unwrap();
    assert_eq!(mode_config_id(&options), Some("m".to_string()));
    assert_eq!(thought_level_config_id(&options), Some("e".to_string()));
    match modes_available_event(&modes.unwrap()) {
        Event::ModesAvailable { current_mode_id, modes } => {
            assert_eq!(current_mode_id, "plan");
            assert_eq!(modes, vec![mode_info("plan"), mode_info("default")]);
        }
        other => panic!("expected ModesAvailable, got {other:?}"),
    }
}

#[test]
fn a_mode_goes_through_the_channel_that_the_session_offers() {
    let with_option = SessionChannels {
        available_mode_ids: Some(vec!["plan".to_string()]),
        mode_config_option_id: Some("mode".to_string()),
        model_config_option_id: None,
        thought_level_config_option_id: None,
    };
    assert_eq!(
        dispatch_set_mode("unlisted".to_string(), &with_option),
        ModeRequest::ConfigOption {
            config_id: "mode".to_string(),
            value: "unlisted".to_string(),
        }
    );
    let listed = SessionChannels {
        available_mode_ids: Some(vec!["acceptEdits".to_string()]),
        mode_config_option_id: None,
        model_config_option_id: None,
        thought_level_config_option_id: None,
    };
    assert_eq!(
        dispatch_set_mode("ACCEPT_EDITS".to_string(), &listed),
        ModeRequest::SessionMode { mode_id: "ACCEPT_EDITS".to_string() }
    );
    assert_eq!(dispatch_set_mode("plan".to_string(), &listed), ModeRequest::Skip);
}

#[test]
fn mode_ids_are_folded_beyond_ascii() {
    let ids = Some(vec!["\u{c4}ndern".to_string()]);
    assert_eq!(
        resolve_mode_set_target("\u{e4}n_dern", &ids, None),
        Some(ModeSetTarget::SessionMode)
    );
}

#[test]
fn answers_to_mode_requests_become_events() {
    assert_eq!(
        mode_reply_event("plan".to_string(), None),
        Event::CurrentModeChanged { current_mode_id: "plan".to_string() }
    );
    assert_eq!(
        mode_reply_event("plan".to_string(), Some("no".to_string())),
        Event::ModeSwitchFailed { mode_id: "plan".to_string(), reason: "no".to_string() }
    );
}

#[test]
fn answers_to_option_requests_become_events() {
    let accepted = config_option_reply_events(
        "model".to_string(),
        "opus".to_string(),
        ConfigOptionDispatchPurpose::Generic,
        Ok(vec![select("model", "Model", "opus", vec![], Some(ConfigCategory::Model))]),
    );
    assert_eq!(accepted.len(), 1);
    assert!(matches!(
        &accepted[0],
        Event::ConfigOptionsUpdated { options } if options.len() == 1
    ));
    let refused = config_option_reply_events(
        "model".to_string(),
        "opus".to_string(),
        ConfigOptionDispatchPurpose::Generic,
        Err("unknown model".to_string()),
    );
    assert_eq!(
        refused,
        vec![Event::ConfigOptionSwitchFailed {
            config_id: "model".to_string(),
            value: "opus".to_string(),
            reason: "unknown model".to_string(),
        }]
    );
}
