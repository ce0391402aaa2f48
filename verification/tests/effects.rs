use sonic_flow::effects::{EffectConfig, EffectPreset, ParameterMap, TransitionState};
use sonic_flow::effects_manager::EffectsManager;
use sonic_flow::effects::EffectType;
use sonic_flow::shader_types::{BlendMode, GPURenderingError};

fn config(effect_type: EffectType, name: &str, impact: u8) -> EffectConfig {
    let mut c = EffectConfig::new(
        effect_type,
        name.to_string(),
        "shader_source".to_string(),
        "vertexMain".to_string(),
        "fragmentMain".to_string(),
    );
    c.set_performance_impact(impact);
    c
}

#[test]
fn test_effect_config_creation() {
    let config = EffectConfig::new(
        EffectType::SpectrumBars,
        "test_effect".to_string(),
        "shader_source".to_string(),
        "vertexMain".to_string(),
        "fragmentMain".to_string(),
    );

    assert_eq!(config.name, "test_effect");
    assert_eq!(config.effect_type, EffectType::SpectrumBars);
    assert!(config.enabled);
    assert_eq!(config.performance_impact, 5);
}

#[test]
fn test_effect_config_parameters() {
    let mut config = EffectConfig::new(
        EffectType::Waveform,
        "test_effect".to_string(),
        "shader_source".to_string(),
        "vertexMain".to_string(),
        "fragmentMain".to_string(),
    );

    config.set_parameter("sensitivity", 2.0f32.to_bits());
    assert_eq!(config.get_parameter("sensitivity").map(f32::from_bits), Some(2.0));
    assert_eq!(config.get_parameter("nonexistent"), None);
}

#[test]
fn test_effect_config_performance_impact() {
    let mut config = EffectConfig::new(
        EffectType::ParticleSystem,
        "test_effect".to_string(),
        "shader_source".to_string(),
        "vertexMain".to_string(),
        "fragmentMain".to_string(),
    );

    config.set_performance_impact(8);
    assert_eq!(config.performance_impact, 8);

    config.set_performance_impact(15);
    assert_eq!(config.performance_impact, 10);
}

#[test]
fn performance_impact_is_at_least_one() {
    let mut config = EffectConfig::new(
        EffectType::Waveform,
        "low".to_string(),
        "shader_source".to_string(),
        "vertexMain".to_string(),
        "fragmentMain".to_string(),
    );
    config.set_performance_impact(0);
    assert_eq!(config.performance_impact, 1);
    config.set_performance_impact(1);
    assert_eq!(config.performance_impact, 1);
}

#[test]
fn parameters_keep_latest_value() {
    let mut m = ParameterMap::new();
    m.set("gain", 1.5f32.to_bits());
    m.set("gain", 0.25f32.to_bits());
    m.set("hue", 3.0f32.to_bits());
    assert_eq!(m.get("gain").map(f32::from_bits), Some(0.25));
    assert_eq!(m.get("hue").map(f32::from_bits), Some(3.0));
    let copy = m.duplicate();
    assert_eq!(copy.get("gain"), m.get("gain"));
}

#[test]
fn activation_starts_transition_from_previous_effect() {
    let mut m = EffectsManager::new();
    assert!(m.performance_monitoring());
    m.register_effect(config(EffectType::SpectrumBars, "bars", 3)).unwrap();
    m.register_effect(config(EffectType::Waveform, "wave", 4)).unwrap();
    assert_eq!(m.activate_effect("bars"), Ok(()));
    assert!(!m.transition_state().transitioning);
    assert_eq!(m.activate_effect("wave"), Ok(()));
    let t = m.transition_state();
    assert!(t.transitioning);
    assert_eq!(t.progress_bits, 0);
    assert_eq!(t.source_effect.as_deref(), Some("bars"));
    assert_eq!(t.target_effect.as_deref(), Some("wave"));
    assert_eq!(m.active_effect().map(|s| s.as_str()), Some("wave"));
}

#[test]
fn activation_errors_name_the_effect() {
    let mut m = EffectsManager::new();
    m.register_effect(config(EffectType::SpectrumBars, "bars", 3)).unwrap();
    m.set_effect_enabled("bars", false).unwrap();
    assert_eq!(
        m.activate_effect("bars"),
        Err(GPURenderingError::PipelineCreation("Effect 'bars' is disabled".to_string()))
    );
    assert_eq!(
        m.activate_effect("fog"),
        Err(GPURenderingError::PipelineCreation("Effect 'fog' not found".to_string()))
    );
    assert_eq!(
        m.set_effect_enabled("fog", true),
        Err(GPURenderingError::PipelineCreation("Effect 'fog' not found".to_string()))
    );
    assert!(m.active_effect().is_none());
}

#[test]
fn registering_a_name_again_replaces_its_configuration() {
    let mut m = EffectsManager::new();
    m.register_effect(config(EffectType::SpectrumBars, "bars", 3)).unwrap();
    m.register_effect(config(EffectType::Waveform, "wave", 4)).unwrap();
    m.register_effect(config(EffectType::ParticleSystem, "bars", 8)).unwrap();
    assert_eq!(m.available_effects(), vec!["bars".to_string(), "wave".to_string()]);
    assert_eq!(m.get_effect_config("bars").unwrap().performance_impact, 8);
    assert!(m.get_effect_config("fog").is_none());
}

#[test]
fn enabled_effects_and_parameter_updates() {
    let mut m = EffectsManager::new();
    m.register_effect(config(EffectType::SpectrumBars, "bars", 3)).unwrap();
    m.register_effect(config(EffectType::Waveform, "wave", 4)).unwrap();
    m.set_effect_enabled("bars", false).unwrap();
    assert_eq!(m.enabled_effects(), vec!["wave".to_string()]);
    let params = vec![("speed".to_string(), 2.0f32.to_bits()), ("speed".to_string(), 4.0f32.to_bits())];
    m.update_effect_parameters("wave", params).unwrap();
    let wave = m.get_effect_config("wave").unwrap();
    assert_eq!(wave.get_parameter("speed").map(f32::from_bits), Some(4.0));
    assert!(m.update_effect_parameters("fog", Vec::new()).is_err());
}

#[test]
fn effects_sorted_by_impact_keep_registration_order_among_equals() {
    let mut m = EffectsManager::new();
    m.register_effect(config(EffectType::ThreeDimensional, "3d", 9)).unwrap();
    m.register_effect(config(EffectType::Waveform, "wave", 4)).unwrap();
    m.register_effect(config(EffectType::SpectrumBars, "bars", 3)).unwrap();
    m.register_effect(config(EffectType::Custom("glow".to_string()), "glow", 4)).unwrap();
    let order: Vec<&str> = m.effects_by_performance_impact().iter().map(|(n, _)| n.as_str()).collect();
    assert_eq!(order, vec!["bars", "wave", "glow", "3d"]);
}

#[test]
fn performance_suggestions() {
    let mut m = EffectsManager::new();
    m.register_effect(config(EffectType::SpectrumBars, "bars", 3)).unwrap();
    m.register_effect(config(EffectType::ParticleSystem, "particles", 8)).unwrap();
    m.register_effect(config(EffectType::Waveform, "wave", 4)).unwrap();
    assert!(m.get_performance_suggestions(false).is_empty());
    assert_eq!(
        m.get_performance_suggestions(true),
        vec!["Consider switching to a lower impact effect: [\"bars\", \"wave\"]".to_string()]
    );
    m.activate_effect("particles").unwrap();
    assert_eq!(
        m.get_performance_suggestions(false),
        vec!["Current effect has high performance impact. Consider using a lighter effect for better performance."
            .to_string()]
    );
}

#[test]
fn presets_save_and_restore_settings() {
    let mut m = EffectsManager::new();
    m.register_effect(config(EffectType::SpectrumBars, "bars", 3)).unwrap();
    m.register_effect(config(EffectType::Waveform, "wave", 4)).unwrap();
    m.activate_effect("bars").unwrap();
    let preset = m.create_preset("favourite");
    assert_eq!(preset.name, "favourite");
    assert_eq!(preset.effects.len(), 2);
    assert_eq!(preset.active_effect.as_deref(), Some("bars"));

    m.set_effect_enabled("bars", false).unwrap();
    m.activate_effect("wave").unwrap();
    assert_eq!(m.load_preset(&preset), Ok(()));
    assert!(m.get_effect_config("bars").unwrap().enabled);
    assert_eq!(m.active_effect().map(|s| s.as_str()), Some("bars"));
}

#[test]
fn preset_entries_replace_by_name() {
    let mut p = EffectPreset::new("p".to_string());
    p.add_effect_config("a".to_string(), config(EffectType::Waveform, "a", 1));
    p.add_effect_config("b".to_string(), config(EffectType::Waveform, "b", 2));
    p.add_effect_config("a".to_string(), config(EffectType::Waveform, "a", 7));
    assert_eq!(p.effects.len(), 2);
    assert_eq!(p.effects[0].1.performance_impact, 7);
    p.set_active_effect("b".to_string());
    assert_eq!(p.active_effect.as_deref(), Some("b"));
}

#[test]
fn loading_preset_with_disabled_active_effect_fails_after_applying_settings() {
    let mut m = EffectsManager::new();
    m.register_effect(config(EffectType::SpectrumBars, "bars", 3)).unwrap();
    let mut p = EffectPreset::new("p".to_string());
    let mut off = config(EffectType::SpectrumBars, "bars", 3);
    off.enabled = false;
    off.blend_mode = BlendMode::Screen;
    p.add_effect_config("bars".to_string(), off);
    p.set_active_effect("bars".to_string());
    assert_eq!(
        m.load_preset(&p),
        Err(GPURenderingError::PipelineCreation("Effect 'bars' is disabled".to_string()))
    );
    assert_eq!(m.get_effect_config("bars").unwrap().blend_mode, BlendMode::Screen);
}

#[test]
fn test_transition_state() {
    let mut state = TransitionState::new();
    assert!(!state.transitioning);

    state.start_transition(Some("effect1".to_string()), Some("effect2".to_string()));
    assert!(state.transitioning);
    assert_eq!(f32::from_bits(state.progress_bits), 0.0);
    assert_eq!(state.source_effect.as_deref(), Some("effect1"));
    assert_eq!(state.target_effect.as_deref(), Some("effect2"));
    assert_eq!(f32::from_bits(state.duration_bits), 1.0);
}

#[test]
fn builtin_effects_are_registered_with_their_impacts() {
    let mut manager = EffectsManager::new();
    let r = manager.register_builtin_effects(
        "bars shader".to_string(),
        "wave shader".to_string(),
        "particle shader".to_string(),
        "3d shader".to_string(),
    );
    assert!(r.is_ok());
    assert_eq!(
        manager.available_effects(),
        vec![
            "spectrum_bars".to_string(),
            "waveform".to_string(),
            "particle_system".to_string(),
            "3d_visualizer".to_string()
        ]
    );
    let expected = [
        ("spectrum_bars", EffectType::SpectrumBars, "bars shader", 3u8),
        ("waveform", EffectType::Waveform, "wave shader", 4),
        ("particle_system", EffectType::ParticleSystem, "particle shader", 8),
        ("3d_visualizer", EffectType::ThreeDimensional, "3d shader", 9),
    ];
    for (name, effect_type, source, impact) in expected {
        let c = manager.get_effect_config(name).unwrap();
        assert_eq!(c.effect_type, effect_type);
        assert_eq!(c.shader_source, source);
        assert_eq!(c.vertex_entry, "vertexMain");
        assert_eq!(c.fragment_entry, "fragmentMain");
        assert_eq!(c.performance_impact, impact);
    }
}
