use sonic_flow::compiler::{CompilationTarget, OptimizationLevel, ShaderCompiler, WGSL_HEADER};
use sonic_flow::engine::EngineConfig;
use sonic_flow::shader_types::{ShaderCompilationError, UNIFORM_BUFFER_SIZE};

#[test]
fn test_shader_compiler_creation() {
    let compiler = ShaderCompiler::new();
    assert_eq!(compiler.target(), CompilationTarget::Vulkan);
    assert_eq!(compiler.optimization_level(), OptimizationLevel::Full);
}

#[test]
fn test_shader_compiler_with_target() {
    let compiler = ShaderCompiler::with_target(CompilationTarget::Metal);
    assert_eq!(compiler.target(), CompilationTarget::Metal);
}

#[test]
fn test_shader_validation() {
    let compiler = ShaderCompiler::new();

    // Valid shader
    let valid_source = r#"
            //! @title Test Shader
            //! @version 1.0.0
            //! @author Test Author
            //! @description Test shader
            
            struct VertexInput {
                float2 position : POSITION;
            };
            
            void vertexMain(VertexInput input) {
                // Vertex shader implementation
            }
            
            void fragmentMain() {
                // Fragment shader implementation
            }
        "#;

    assert!(compiler.validate_shader_source(valid_source).is_ok());

    // Invalid shader (empty)
    assert!(compiler.validate_shader_source("").is_err());
}

#[test]
fn test_metadata_extraction() {
    let compiler = ShaderCompiler::new();
    let source = r#"
            //! @title Test Shader
            //! @version 2.0.0
            //! @author Test Author
            //! @description Test shader description
        "#;

    let metadata = compiler.extract_metadata(source).unwrap();
    assert_eq!(metadata.name, "Test Shader");
    assert_eq!(metadata.version, "2.0.0");
    assert_eq!(metadata.author, "Test Author");
    assert_eq!(metadata.description, "Test shader description");
}

#[test]
fn test_hlsl_compilation() {
    let compiler = ShaderCompiler::new();
    let hlsl_source = r#"
            struct VertexInput {
                float2 position : POSITION;
            };
            
            void vertexMain(VertexInput input) {
                // Vertex shader implementation
            }
        "#;

    let result = compiler.test_hlsl_compilation(hlsl_source);
    assert!(result.is_ok());

    let wgsl_source = result.unwrap();
    assert!(wgsl_source.contains("location(0)"));
    assert!(wgsl_source.contains("AudioVisualizationUniforms"));
}

#[test]
fn test_config_default() {
    let config = EngineConfig::default();
    assert_eq!(config.default_target, CompilationTarget::Vulkan);
    assert_eq!(config.optimization_level, OptimizationLevel::Full);
    assert_eq!(config.max_shaders, 10);
    assert!(config.enable_caching);
}

// ---------------------------------------------------------------------------
// Further cases
// ---------------------------------------------------------------------------

#[test]
fn rewrites_match_string_replacement() {
    let compiler = ShaderCompiler::new();
    let source = "cbuffer U : register(b0) { float4x4 m; };\n\
                  float4 main(float2 uv : TEXCOORD0, float3 p : POSITION, uint i : SV_InstanceID) : SV_Target {\n\
                  return mul(m, float4(p, 1)) + sin(uv.x) * smoothstep(0, 1, uv.y); } SV_Position POSITIONPOSITION";
    let mut expected = source.to_string();
    for (a, b) in [
        ("cbuffer", ""),
        (": register(b0)", ""),
        ("SV_Position", "builtin(position)"),
        ("SV_Target", ""),
        ("SV_InstanceID", "builtin(instance_index)"),
        ("TEXCOORD0", "location(1)"),
        ("POSITION", "location(0)"),
        ("float2", "vec2<f32>"),
        ("float3", "vec3<f32>"),
        ("float4", "vec4<f32>"),
        ("float4x4", "mat4x4<f32>"),
        ("mul(", "("),
        ("sin(", "sin("),
        ("smoothstep(", "smoothstep("),
    ] {
        expected = expected.replace(a, b);
    }
    let out = compiler.test_hlsl_compilation(source).unwrap();
    assert_eq!(out, format!("{}{}", WGSL_HEADER, expected));
    assert!(out.contains("vec4<f32>x4 m"));
    assert!(out.contains("location(0)location(0)"));
}

#[test]
fn empty_source_is_refused() {
    let compiler = ShaderCompiler::new();
    assert_eq!(
        compiler.test_hlsl_compilation(""),
        Err(ShaderCompilationError::Validation("Shader source is empty".to_string()))
    );
    assert!(compiler.compile_shader("", "vs", "fs").is_err());
}

#[test]
fn metadata_defaults_and_last_tag_wins() {
    let compiler = ShaderCompiler::new();
    let m = compiler.extract_metadata("void main() {}").unwrap();
    assert_eq!(m.name, "Unknown");
    assert_eq!(m.version, "1.0.0");
    assert_eq!(m.author, "Sonic Flow");
    assert_eq!(m.description, "Audio visualization shader");
    assert_eq!(m.uniform_buffer_size, UNIFORM_BUFFER_SIZE);
    assert!(m.features.is_empty());

    let m = compiler
        .extract_metadata("\t//! @title First\r\n//! @title  Second //! @title x \n  // note //! @version 9")
        .unwrap();
    assert_eq!(m.name, "Second  x");
    assert_eq!(m.version, "1.0.0");
}

#[test]
fn compile_shader_keeps_entry_points_and_metadata() {
    let compiler = ShaderCompiler::new().with_optimization(OptimizationLevel::Basic);
    assert_eq!(compiler.optimization_level(), OptimizationLevel::Basic);
    let compiler = compiler.add_include_path("extra/".to_string());
    let shader = compiler
        .compile_shader("//! @author Me\nfloat2 v;", "vertexMain", "fragmentMain")
        .unwrap();
    assert_eq!(shader.vertex_entry, "vertexMain");
    assert_eq!(shader.fragment_entry, "fragmentMain");
    assert_eq!(shader.metadata.author, "Me");
    assert!(shader.wgsl_source.ends_with("vec2<f32> v;"));
}

#[test]
fn error_messages() {
    assert_eq!(
        ShaderCompilationError::Validation("x".into()).message(),
        "Shader validation failed: x"
    );
    assert_eq!(
        sonic_flow::shader_types::GPURenderingError::OutOfMemory.message(),
        "GPU memory exhausted"
    );
}
