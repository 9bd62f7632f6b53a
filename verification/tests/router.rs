use loopx::router::{
    configured_summary_model, summary_system_prompt, AIConfig, AIModelConfig, RouterContextConfig,
};

#[test]
fn summary_generation_limit_reserves_reasoning_headroom() {
    assert!(RouterContextConfig::default().summary_max_tokens >= 8_192);
}

#[test]
fn router_summary_never_uses_the_general_fast_to_primary_fallback() {
    let mut config = AIConfig {
        models: vec![
            AIModelConfig {
                id: "main-id".into(),
                enabled: true,
                ..Default::default()
            },
            AIModelConfig {
                id: "fast-id".into(),
                enabled: true,
                ..Default::default()
            },
        ],
        ..Default::default()
    };
    config.default_models.primary = Some("main-id".into());
    assert_eq!(
        config.resolve_model_selection("fast").as_deref(),
        Some("main-id")
    );
    assert!(configured_summary_model(&config).is_err());
    config.default_models.fast = Some("deleted-id".into());
    assert!(configured_summary_model(&config).is_err());
    config.default_models.fast = Some("fast-id".into());
    assert_eq!(configured_summary_model(&config).unwrap(), "fast-id");
    config.models[1].enabled = false;
    assert!(configured_summary_model(&config).is_err());
    assert_eq!(
        config.resolve_model_selection("fast").as_deref(),
        Some("main-id")
    );
}

#[test]
fn explicit_summary_preset_cannot_silently_fall_back_to_main_default() {
    let mut config = RouterContextConfig::default();
    assert!(summary_system_prompt(&config).contains("4096 tokens"));
    config.summary_target_tokens = config.summary_max_tokens + 1;
    assert!(config.validate().is_err());
    config.summary_target_tokens = 1;
    config.summary_max_tokens = 0;
    assert!(config.validate().is_err());
    if usize::BITS > 32 {
        config.summary_max_tokens = u32::MAX as usize + 1;
        assert!(config.validate().is_err());
    }
}
