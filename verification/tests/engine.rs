use sonic_flow::compiler::{CompilationTarget, CompiledShader, OptimizationLevel, ShaderCompiler};
use sonic_flow::engine::{EngineConfig, ShaderEngine};
use sonic_flow::shader_types::{BlendMode, GPURenderingError};

#[test]
fn test_engine_creation() {
    let engine = ShaderEngine::new();
    assert_eq!(engine.shader_count(), 0);
    assert!(engine.active_shader().is_none());
}

#[test]
fn test_engine_with_config() {
    let config = EngineConfig {
        default_target: CompilationTarget::Metal,
        optimization_level: OptimizationLevel::Basic,
        max_shaders: 5,
        enable_caching: false,
    };

    let engine = ShaderEngine::with_config(config.clone());
    assert_eq!(engine.config().default_target, CompilationTarget::Metal);
    assert_eq!(engine.config().max_shaders, 5);
}

#[test]
fn test_shader_management() {
    let mut engine = ShaderEngine::new();

    let result = engine.activate_shader("nonexistent");
    assert!(result.is_err());

    assert!(!engine.remove_shader("nonexistent"));

    let stats = engine.statistics();
    assert_eq!(stats.total_shaders, 0);
    assert!(stats.active_shader.is_none());
}

#[test]
fn activating_a_missing_shader_names_it() {
    let mut engine = ShaderEngine::new();
    assert_eq!(
        engine.activate_shader("bars"),
        Err(GPURenderingError::PipelineCreation("Shader not found: bars".to_string()))
    );
    assert!(engine.active_shader_name().is_none());
}

#[test]
fn loading_without_gpu_fails_and_keeps_engine_empty() {
    let mut engine = ShaderEngine::new();
    let r = engine.load_shader("bars", "float4 main() {}", "vs_main", "fs_main");
    assert_eq!(
        r,
        Err(GPURenderingError::PipelineCreation("GPU renderer not initialized".to_string()))
    );
    assert_eq!(engine.shader_count(), 0);
    assert!(engine.get_shader("bars").is_none());
    assert!(engine.shader_names().is_empty());
}

#[test]
fn loading_into_zero_capacity_engine_fails_too() {
    let config = EngineConfig {
        default_target: CompilationTarget::WGSL,
        optimization_level: OptimizationLevel::Off,
        max_shaders: 0,
        enable_caching: true,
    };
    let mut engine = ShaderEngine::with_config(config);
    assert!(engine.load_shader("a", "x", "v", "f").is_err());
    assert_eq!(engine.shader_count(), 0);
}

#[test]
fn statistics_follow_configuration() {
    let mut engine = ShaderEngine::new();
    let stats = engine.statistics();
    assert_eq!(stats.max_shaders, 10);
    assert!(stats.caching_enabled);
    engine.update_config(EngineConfig {
        default_target: CompilationTarget::DirectX12,
        optimization_level: OptimizationLevel::Basic,
        max_shaders: 3,
        enable_caching: false,
    });
    let stats = engine.statistics();
    assert_eq!(stats.max_shaders, 3);
    assert!(!stats.caching_enabled);
    assert_eq!(engine.config().default_target, CompilationTarget::DirectX12);
}

#[test]
fn frame_operations_without_gpu_do_nothing() {
    let mut engine = ShaderEngine::new();
    assert!(engine.render().is_ok());
    assert!(engine.resize(800, 600).is_ok());
    assert!(engine.set_blend_mode(BlendMode::Add).is_ok());
    assert!(!engine.is_gpu_available());
    assert_eq!(engine.frame_count(), 0);
    assert!(engine.validate_shaders().is_empty());
    engine.clear_shaders();
    assert_eq!(engine.shader_count(), 0);
}

#[test]
fn no_shader_to_change_in_an_empty_engine() {
    let mut engine = ShaderEngine::new();
    assert!(engine.get_shader_mut("bars").is_none());
    assert!(engine.active_shader_name().is_none());
    assert!(engine.shader_names().is_empty());
}

fn compiled(name: &str) -> CompiledShader {
    let source = format!("//! @title {name}\nfloat4 main() {{ return float4(0,0,0,1); }}");
    ShaderCompiler::new().compile_shader(&source, "vs_main", "fs_main").unwrap()
}

#[test]
fn storing_shaders_evicts_the_oldest_when_full() {
    let mut engine = ShaderEngine::with_config(EngineConfig {
        default_target: CompilationTarget::Vulkan,
        optimization_level: OptimizationLevel::Full,
        max_shaders: 2,
        enable_caching: true,
    });
    engine.store_shader("a", compiled("a"));
    engine.store_shader("b", compiled("b"));
    assert_eq!(engine.activate_shader("a"), Ok(()));
    engine.store_shader("c", compiled("c"));
    assert_eq!(engine.shader_names(), vec!["b".to_string(), "c".to_string()]);
    assert!(engine.active_shader_name().is_none());
    engine.store_shader("b", compiled("b2"));
    assert_eq!(engine.shader_names(), vec!["b".to_string(), "c".to_string()]);
    assert_eq!(engine.get_shader("b").unwrap().metadata.name, "b2");
    assert_eq!(engine.activate_shader("c"), Ok(()));
    assert_eq!(engine.active_shader().unwrap().metadata.name, "c");
    assert!(engine.validate_shaders().is_empty());
    assert!(engine.remove_shader("c"));
    assert!(engine.active_shader_name().is_none());
    assert_eq!(engine.shader_count(), 1);
}

#[test]
fn validation_reports_missing_name_and_version() {
    let mut engine = ShaderEngine::new();
    let mut bare = compiled("x");
    bare.metadata.name = String::new();
    bare.metadata.version = String::new();
    engine.store_shader("bare", bare);
    let problems = engine.validate_shaders();
    assert_eq!(
        problems,
        vec![
            "Shader 'bare' has empty name".to_string(),
            "Shader 'bare' has empty version".to_string()
        ]
    );
    if let Some(s) = engine.get_shader_mut("bare") {
        s.metadata.name = "named".to_string();
    }
    assert_eq!(engine.validate_shaders(), vec!["Shader 'bare' has empty version".to_string()]);
}
