use loopx::router::{
    checkpoint_is_restorable, decide_checkpoint_write, default_summary_target_tokens,
    plan_observation, router_input_budget, should_start_summary, summary_enabled_from_env,
    summary_incomplete_error, summary_incomplete_reason, summary_reasoning_preset_from_env,
    summary_record_status, CheckpointWrite, RouterCheckpointFacts, RouterContextConfig,
    RouterContextSettings,
    RouterEntryKind, RouterMessage, RouterMessageContent, RouterMessageRole, RouterReminderKind,
    SummaryRequestOutcome,
};

fn facts(next_sequence: u64, summarized_through: u64, seen_messages: usize) -> RouterCheckpointFacts {
    RouterCheckpointFacts {
        version: 1,
        session_id: "session".to_string(),
        dialog_turn_id: "turn".to_string(),
        next_sequence,
        summarized_through,
        seen_messages,
    }
}

fn message(id: &str, role: RouterMessageRole, content: RouterMessageContent) -> RouterMessage {
    RouterMessage {
        id: id.to_string(),
        role,
        compression_artifact: false,
        content,
        actual_user_message: false,
        reminder: None,
        has_text: true,
    }
}

#[test]
fn default_config_is_valid_and_budgets_the_window() {
    let config = RouterContextConfig::default();
    assert!(config.validate().is_ok());
    assert_eq!(router_input_budget(&config, 4, 1000), Ok(65536 - 1384));
    assert_eq!(
        router_input_budget(&config, 0, 1000),
        Err("Router context needs a positive recent window".to_string())
    );
    let tight = RouterContextConfig {
        context_window: 1500,
        ..RouterContextConfig::default()
    };
    assert_eq!(
        router_input_budget(&tight, 4, 1000),
        Err("Router context window leaves fewer than 512 tokens for the user prompt".to_string())
    );
    let exhausted = RouterContextConfig {
        context_window: 1000,
        ..RouterContextConfig::default()
    };
    assert_eq!(
        router_input_budget(&exhausted, 4, 1000),
        Err("Router system prompt + output/template reserve exhausts its context window".to_string())
    );
    let invalid = RouterContextConfig {
        max_input_tokens: 100,
        ..RouterContextConfig::default()
    };
    assert!(invalid.validate().is_err());
    assert!(router_input_budget(&invalid, 4, 1000).is_err());
}

#[test]
fn summary_target_is_half_the_limit_within_bounds() {
    assert_eq!(default_summary_target_tokens(16384), 4096);
    assert_eq!(default_summary_target_tokens(2000), 1000);
    assert_eq!(default_summary_target_tokens(1), 1);
}

#[test]
fn summary_switches_read_from_the_environment() {
    assert_eq!(summary_enabled_from_env(None), Ok(true));
    assert_eq!(summary_enabled_from_env(Some("0")), Ok(false));
    assert_eq!(summary_enabled_from_env(Some("false")), Ok(false));
    assert_eq!(summary_enabled_from_env(Some("true")), Ok(true));
    assert!(summary_enabled_from_env(Some("maybe")).is_err());
    assert_eq!(summary_reasoning_preset_from_env(None), None);
    assert_eq!(summary_reasoning_preset_from_env(Some("  ")), None);
    assert_eq!(summary_reasoning_preset_from_env(Some(" high ")), Some("high".to_string()));
}

#[test]
fn incomplete_summaries_are_classified() {
    assert_eq!(summary_incomplete_reason(Some("LENGTH"), 0, "text"), Some("output_limit"));
    assert_eq!(summary_incomplete_reason(Some("stop"), 2, "text"), Some("tool_calls"));
    assert_eq!(summary_incomplete_reason(None, 0, "  \n"), Some("empty_text"));
    assert_eq!(summary_incomplete_reason(Some("stop"), 0, "summary"), None);
    for (text, finish, expected) in [
        ("partial", "length", Some("output_limit")),
        ("partial", "MAX_TOKENS", Some("output_limit")),
        ("", "stop", Some("empty_text")),
        ("   ", "stop", Some("empty_text")),
        ("Complete factual summary", "stop", None),
    ] {
        assert_eq!(summary_incomplete_reason(Some(finish), 0, text), expected);
    }
    assert_eq!(summary_incomplete_error(true, Some("empty_text")), None);
    assert_eq!(
        summary_incomplete_error(false, Some("empty_text")),
        Some("Fast model did not return a complete router summary: empty_text".to_string())
    );
    assert_eq!(
        summary_incomplete_error(false, None),
        Some("Fast model did not return a complete router summary: incomplete_response".to_string())
    );
}

#[test]
fn finished_summary_requests_are_recorded_by_outcome() {
    assert_eq!(
        summary_record_status(SummaryRequestOutcome::Complete { applied: true }),
        ("applied".to_string(), None)
    );
    assert_eq!(
        summary_record_status(SummaryRequestOutcome::Complete { applied: false }),
        (
            "stale".to_string(),
            Some("Summary snapshot no longer matches the current context".to_string())
        )
    );
    assert_eq!(
        summary_record_status(SummaryRequestOutcome::Incomplete { error: None }),
        ("incomplete".to_string(), None)
    );
    assert_eq!(
        summary_record_status(SummaryRequestOutcome::Failed { error: "timeout".to_string() }),
        ("failed".to_string(), Some("timeout".to_string()))
    );
    assert_eq!(
        summary_record_status(SummaryRequestOutcome::TaskFailed { error: "panic".to_string() }),
        ("task_failed".to_string(), Some("panic".to_string()))
    );
}

#[test]
fn summaries_start_once_per_observed_round() {
    assert!(should_start_summary(true, false, true, None, 3));
    assert!(!should_start_summary(false, false, true, None, 3));
    assert!(!should_start_summary(true, true, true, None, 3));
    assert!(!should_start_summary(true, false, false, None, 3));
    assert!(!should_start_summary(true, false, true, Some(3), 3));
    assert!(should_start_summary(true, false, true, Some(3), 4));
}

#[test]
fn late_checkpoints_never_overwrite_newer_ones() {
    let snapshot = facts(5, 2, 7);
    assert_eq!(decide_checkpoint_write(None, &snapshot), CheckpointWrite::Write);
    assert_eq!(decide_checkpoint_write(Some(&facts(4, 2, 9)), &snapshot), CheckpointWrite::Write);
    assert_eq!(decide_checkpoint_write(Some(&facts(6, 2, 0)), &snapshot), CheckpointWrite::KeepNewer);
    assert_eq!(decide_checkpoint_write(Some(&facts(5, 3, 0)), &snapshot), CheckpointWrite::KeepNewer);
    assert_eq!(decide_checkpoint_write(Some(&facts(5, 2, 8)), &snapshot), CheckpointWrite::KeepNewer);
    assert_eq!(decide_checkpoint_write(Some(&facts(5, 2, 7)), &snapshot), CheckpointWrite::Write);
    let future = RouterCheckpointFacts { version: 2, ..facts(1, 0, 0) };
    assert_eq!(decide_checkpoint_write(Some(&future), &snapshot), CheckpointWrite::RefuseIncompatible);
    let other = RouterCheckpointFacts { session_id: "other".to_string(), ..facts(1, 0, 0) };
    assert_eq!(decide_checkpoint_write(Some(&other), &snapshot), CheckpointWrite::RefuseIncompatible);
}

#[test]
fn only_matching_checkpoints_are_restored() {
    assert!(checkpoint_is_restorable(&facts(3, 1, 2), "session", "turn"));
    assert!(!checkpoint_is_restorable(&facts(3, 1, 2), "session", "other-turn"));
    assert!(!checkpoint_is_restorable(&facts(1, 1, 2), "session", "turn"));
    let future = RouterCheckpointFacts { version: 2, ..facts(3, 1, 2) };
    assert!(!checkpoint_is_restorable(&future, "session", "turn"));
}

#[test]
fn observation_groups_rounds_and_skips_seen_messages() {
    let mut steering = message("u2", RouterMessageRole::User, RouterMessageContent::Text);
    steering.reminder = Some(RouterReminderKind::UserSteering);
    let mut catalog = message("u3", RouterMessageRole::User, RouterMessageContent::Text);
    catalog.reminder = Some(RouterReminderKind::SkillListingDiff);
    let mut artifact = message("c1", RouterMessageRole::Assistant, RouterMessageContent::Text);
    artifact.compression_artifact = true;
    let messages = vec![
        message("s1", RouterMessageRole::System, RouterMessageContent::Text),
        message("a1", RouterMessageRole::Assistant, RouterMessageContent::Text),
        message("t1", RouterMessageRole::Tool, RouterMessageContent::ToolResult),
        message("t2", RouterMessageRole::Tool, RouterMessageContent::ToolResult),
        steering,
        catalog,
        artifact,
        message("t3", RouterMessageRole::Tool, RouterMessageContent::ToolResult),
        message("a2", RouterMessageRole::Assistant, RouterMessageContent::Text),
    ];
    let mut seen = Vec::new();
    let entries = plan_observation(&mut seen, &messages);
    assert_eq!(seen.len(), 9);
    assert_eq!(entries.len(), 4);
    assert_eq!(entries[0].message_id, "a1");
    assert_eq!(entries[0].kind, RouterEntryKind::Round);
    assert_eq!(entries[0].tool_result_ids, vec!["t1".to_string(), "t2".to_string()]);
    assert_eq!(entries[1].message_id, "u2");
    assert_eq!(entries[1].kind, RouterEntryKind::UserUpdate);
    assert_eq!(entries[2].message_id, "t3");
    assert_eq!(entries[2].kind, RouterEntryKind::Feedback);
    assert!(entries[2].from_tool_result);
    assert_eq!(entries[3].message_id, "a2");
    assert_eq!(entries[3].kind, RouterEntryKind::Round);
    assert!(entries[3].tool_result_ids.is_empty());

    let again = plan_observation(&mut seen, &messages);
    assert!(again.is_empty());
    assert_eq!(seen.len(), 9);
}

fn unset() -> RouterContextSettings {
    RouterContextSettings {
        max_input_tokens: Ok(None),
        context_window: Ok(None),
        summary_enabled: None,
        summary_trigger_tokens: Ok(None),
        summary_max_tokens: Ok(None),
        summary_target_tokens: Ok(None),
        summary_reasoning_preset: None,
        summary_timeout_ms: Ok(None),
    }
}

#[test]
fn unset_settings_give_the_default_configuration() {
    assert_eq!(RouterContextConfig::from_settings(&unset()), Ok(RouterContextConfig::default()));
}

#[test]
fn settings_override_defaults_and_derive_the_summary_target() {
    let settings = RouterContextSettings {
        summary_max_tokens: Ok(Some(2000)),
        summary_enabled: Some("false".to_string()),
        summary_reasoning_preset: Some(" Auto ".to_string()),
        summary_timeout_ms: Ok(Some(5000)),
        ..unset()
    };
    let config = RouterContextConfig::from_settings(&settings).unwrap();
    assert_eq!(config.summary_max_tokens, 2000);
    assert_eq!(config.summary_target_tokens, 1000);
    assert!(!config.summary_enabled);
    assert_eq!(config.summary_reasoning_preset, None);
    assert_eq!(config.summary_timeout_ms, 5000);
    let preset = RouterContextSettings {
        summary_reasoning_preset: Some(" low ".to_string()),
        ..unset()
    };
    assert_eq!(
        RouterContextConfig::from_settings(&preset).unwrap().summary_reasoning_preset,
        Some("low".to_string())
    );
}

#[test]
fn the_first_bad_setting_is_reported() {
    let settings = RouterContextSettings {
        context_window: Err("window is not a number".to_string()),
        summary_enabled: Some("maybe".to_string()),
        summary_timeout_ms: Err("timeout is not a number".to_string()),
        ..unset()
    };
    assert_eq!(
        RouterContextConfig::from_settings(&settings),
        Err("window is not a number".to_string())
    );
    let switch = RouterContextSettings {
        summary_enabled: Some("maybe".to_string()),
        summary_timeout_ms: Err("timeout is not a number".to_string()),
        ..unset()
    };
    assert_eq!(
        RouterContextConfig::from_settings(&switch),
        Err("OPENBITFUN_ROUND_ROUTER_SUMMARY_ENABLED must be true/false or 1/0".to_string())
    );
    let small = RouterContextSettings {
        max_input_tokens: Ok(Some(100)),
        ..unset()
    };
    assert!(RouterContextConfig::from_settings(&small)
        .unwrap_err()
        .starts_with("Router context requires at least 512 input tokens"));
    let target_over_limit = RouterContextSettings {
        summary_max_tokens: Ok(Some(100)),
        summary_target_tokens: Ok(Some(200)),
        ..unset()
    };
    assert!(RouterContextConfig::from_settings(&target_over_limit).is_err());
}

#[test]
fn budget_validation_reserves_system_template_and_output() {
    let config = RouterContextConfig {
        context_window: 512,
        ..Default::default()
    };
    assert!(router_input_budget(&config, 3, "system".len()).is_err());
}
