//! Shader compilation: validation, metadata extraction from header comments
//! and rewriting of HLSL-style source into WGSL.

use vstd::prelude::*;

use crate::shader_types::{ShaderCompilationError, ShaderMetadata, UNIFORM_BUFFER_SIZE};
use crate::strops::{lines_of, replace_all, replace_chars, split_lines, starts_with, trim, trim_chars};
use crate::text::{chars_of, push_str, string_from_chars};

verus! {

/// Compilation target platform.
#[derive(Debug, Clone, Copy, PartialEq, Eq, Structural)]
pub enum CompilationTarget {
    /// Vulkan SPIR-V.
    Vulkan,
    /// Metal Shading Language.
    Metal,
    /// DirectX 12 HLSL.
    DirectX12,
    /// WebGPU WGSL.
    WGSL,
}

/// Optimization level for shader compilation.
#[derive(Debug, Clone, Copy, PartialEq, Eq, Structural)]
pub enum OptimizationLevel {
    /// No optimization.
    Off,
    /// Basic optimization.
    Basic,
    /// Full optimization.
    Full,
}

/// A shader prepared for the GPU: WGSL source, entry points and metadata.
#[derive(Debug, Clone)]
pub struct CompiledShader {
    /// The WGSL source handed to the GPU.
    pub wgsl_source: String,
    /// Vertex shader entry point.
    pub vertex_entry: String,
    /// Fragment shader entry point.
    pub fragment_entry: String,
    /// Shader metadata.
    pub metadata: ShaderMetadata,
}

/// HLSL shader compiler.
pub struct ShaderCompiler {
    /// Target platform for compilation.
    target: CompilationTarget,
    /// Optimization level.
    optimization_level: OptimizationLevel,
    /// Include paths for shader compilation.
    include_paths: Vec<String>,
}

/// The abstract state of a compiler.
pub ghost struct CompilerView {
    pub target: CompilationTarget,
    pub optimization_level: OptimizationLevel,
    pub include_paths: Seq<Seq<char>>,
}

impl View for ShaderCompiler {
    type V = CompilerView;

    closed spec fn view(&self) -> CompilerView {
        CompilerView {
            target: self.target,
            optimization_level: self.optimization_level,
            include_paths: self.include_paths@.map_values(|p: String| p@),
        }
    }
}

/// The WGSL declarations placed before every compiled shader: the uniform
/// binding and the layout of the uniform block.
pub const WGSL_HEADER: &'static str = "
@group(0) @binding(0) var<uniform> uniforms: AudioVisualizationUniforms;

struct AudioVisualizationUniforms {
    modelViewProjection: mat4x4<f32>,
    time: f32,
    sensitivity: f32,
    colorScheme: vec4<f32>,
    spectrumData: array<f32, 128>,
    audioLevels: vec4<f32>,
    effectParams: array<f32, 8>,
}

";

/// The source after the HLSL-to-WGSL rewrites, applied in this order:
/// `cbuffer` and `: register(b0)` dropped, system-value semantics turned into
/// WGSL attributes, vector and matrix types renamed, and `mul(` reduced to a
/// plain parenthesis.
pub open spec fn rewritten_source(s: Seq<char>) -> Seq<char> {
    let s = replace_all(s, "cbuffer"@, ""@);
    let s = replace_all(s, ": register(b0)"@, ""@);
    let s = replace_all(s, "SV_Position"@, "builtin(position)"@);
    let s = replace_all(s, "SV_Target"@, ""@);
    let s = replace_all(s, "SV_InstanceID"@, "builtin(instance_index)"@);
    let s = replace_all(s, "TEXCOORD0"@, "location(1)"@);
    let s = replace_all(s, "POSITION"@, "location(0)"@);
    let s = replace_all(s, "float2"@, "vec2<f32>"@);
    let s = replace_all(s, "float3"@, "vec3<f32>"@);
    let s = replace_all(s, "float4"@, "vec4<f32>"@);
    let s = replace_all(s, "float4x4"@, "mat4x4<f32>"@);
    let s = replace_all(s, "mul("@, "("@);
    let s = replace_all(s, "sin("@, "sin("@);
    replace_all(s, "smoothstep("@, "smoothstep("@)
}

/// The value of a metadata tag: taken from the last line that, trimmed,
/// starts with the tag, as that line with the tag removed and trimmed again;
/// `default` where no line carries the tag.
pub open spec fn tag_value(lines: Seq<Seq<char>>, tag: Seq<char>, default: Seq<char>) -> Seq<char>
    decreases lines.len(),
{
    if lines.len() == 0 {
        default
    } else {
        let line = trim(lines.last());
        if starts_with(line, tag) {
            trim(replace_all(line, tag, seq![]))
        } else {
            tag_value(lines.drop_last(), tag, default)
        }
    }
}

/// The metadata that the header comments of `source` give.
pub open spec fn metadata_matches(source: Seq<char>, m: ShaderMetadata) -> bool {
    let lines = lines_of(source);
    &&& m.name@ == tag_value(lines, "//! @title"@, "Unknown"@)
    &&& m.version@ == tag_value(lines, "//! @version"@, "1.0.0"@)
    &&& m.author@ == tag_value(lines, "//! @author"@, "Sonic Flow"@)
    &&& m.description@ == tag_value(lines, "//! @description"@, "Audio visualization shader"@)
    &&& m.uniform_buffer_size == UNIFORM_BUFFER_SIZE
    &&& m.features@.len() == 0
}

/// The error for an empty shader source.
pub open spec fn empty_source_error(e: ShaderCompilationError) -> bool {
    e matches ShaderCompilationError::Validation(msg) && msg@ == "Shader source is empty"@
}

/// Replaces every occurrence of a literal pattern.
fn rewrite(s: Vec<char>, pat: &str, rep: &str) -> (r: Vec<char>)
    requires
        pat@.len() > 0,
    ensures
        r@ == replace_all(s@, pat@, rep@),
{
    let p = chars_of(pat);
    let q = chars_of(rep);
    replace_chars(&s, &p, &q)
}

/// Takes the value of `tag` from `line` where the line carries it.
fn take_tag(line: &Vec<char>, tag: &str, value: &mut String) -> (carried: bool)
    requires
        tag@.len() > 0,
    ensures
        carried == starts_with(line@, tag@),
        carried ==> final(value)@ == trim(replace_all(line@, tag@, seq![])),
        !carried ==> final(value)@ == old(value)@,
{
    let t = chars_of(tag);
    let n = t.len();
    if n > line.len() {
        return false;
    }
    let mut k: usize = 0;
    while k < n
        invariant
            n == t@.len(),
            n <= line@.len(),
            t@ == tag@,
            k <= n,
            forall|j: int| 0 <= j < k ==> line@[j] == t@[j],
        decreases n - k,
    {
        if line[k] != t[k] {
            proof {
                assert(line@.take(n as int)[k as int] != tag@[k as int]);
            }
            return false;
        }
        k = k + 1;
    }
    proof {
        assert(line@.take(n as int) =~= tag@);
    }
    let empty: Vec<char> = Vec::new();
    let stripped = replace_chars(line, &t, &empty);
    proof {
        assert(empty@ =~= Seq::<char>::empty());
    }
    let trimmed = trim_chars(&stripped);
    *value = string_from_chars(trimmed.as_slice());
    true
}

impl Default for ShaderCompiler {
    fn default() -> (c: ShaderCompiler)
        ensures
            c@.target == CompilationTarget::Vulkan,
            c@.optimization_level == OptimizationLevel::Full,
            c@.include_paths == seq!["shaders/"@],
    {
        let mut include_paths: Vec<String> = Vec::new();
        include_paths.push(String::from_str("shaders/"));
        let c = ShaderCompiler {
            target: CompilationTarget::Vulkan,
            optimization_level: OptimizationLevel::Full,
            include_paths,
        };
        proof {
            assert(c@.include_paths =~= seq!["shaders/"@]);
        }
        c
    }
}

impl ShaderCompiler {
    /// A compiler for Vulkan with full optimization and `shaders/` as the
    /// include path.
    pub fn new() -> (c: ShaderCompiler)
        ensures
            c@.target == CompilationTarget::Vulkan,
            c@.optimization_level == OptimizationLevel::Full,
            c@.include_paths == seq!["shaders/"@],
    {
        ShaderCompiler::default()
    }

    /// A compiler for `target`, otherwise with the default settings.
    pub fn with_target(target: CompilationTarget) -> (c: ShaderCompiler)
        ensures
            c@.target == target,
            c@.optimization_level == OptimizationLevel::Full,
            c@.include_paths == seq!["shaders/"@],
    {
        let mut c = ShaderCompiler::default();
        c.target = target;
        c
    }

    /// Sets the optimization level.
    pub fn with_optimization(self, level: OptimizationLevel) -> (c: ShaderCompiler)
        ensures
            c@ == (CompilerView { optimization_level: level, ..self@ }),
    {
        let mut c = self;
        c.optimization_level = level;
        c
    }

    /// Adds an include path at the end of the list.
    pub fn add_include_path(self, path: String) -> (c: ShaderCompiler)
        ensures
            c@ == (CompilerView { include_paths: self@.include_paths.push(path@), ..self@ }),
    {
        let mut c = self;
        let ghost before = c.include_paths@;
        c.include_paths.push(path);
        proof {
            assert(c.include_paths@.map_values(|p: String| p@) =~= before.map_values(
                |p: String| p@,
            ).push(path@));
        }
        c
    }

    /// The compilation target.
    pub fn target(&self) -> (t: CompilationTarget)
        ensures
            t == self@.target,
    {
        self.target
    }

    /// The optimization level.
    pub fn optimization_level(&self) -> (l: OptimizationLevel)
        ensures
            l == self@.optimization_level,
    {
        self.optimization_level
    }

    /// Checks a shader source: an empty source is refused.
    pub fn validate_shader_source(&self, source: &str) -> (r: Result<(), ShaderCompilationError>)
        ensures
            source@.len() == 0 <==> r is Err,
            r matches Err(e) ==> empty_source_error(e),
    {
        if source.unicode_len() == 0 {
            return Err(ShaderCompilationError::Validation(String::from_str("Shader source is empty")));
        }
        Ok(())
    }

    /// Reads the metadata that the `//! @title`, `//! @version`,
    /// `//! @author` and `//! @description` header comments give; missing
    /// tags take default values.
    pub fn extract_metadata(&self, source: &str) -> (r: Result<ShaderMetadata, ShaderCompilationError>)
        ensures
            r matches Ok(m) && metadata_matches(source@, m),
    {
        let cs = chars_of(source);
        let lines = split_lines(&cs);
        let ghost all = lines_of(source@);
        let mut name = String::from_str("Unknown");
        let mut version = String::from_str("1.0.0");
        let mut author = String::from_str("Sonic Flow");
        let mut description = String::from_str("Audio visualization shader");
        proof {
            reveal_strlit("//! @title");
            reveal_strlit("//! @version");
            reveal_strlit("//! @author");
            reveal_strlit("//! @description");
        }
        let mut i: usize = 0;
        while i < lines.len()
            invariant
                lines@.len() == all.len(),
                forall|k: int| 0 <= k < lines@.len() ==> #[trigger] lines@[k]@ == all[k],
                i <= lines@.len(),
                "//! @title"@.len() > 0,
                "//! @version"@.len() > 0,
                "//! @author"@.len() > 0,
                "//! @description"@.len() > 0,
                name@ == tag_value(all.take(i as int), "//! @title"@, "Unknown"@),
                version@ == tag_value(all.take(i as int), "//! @version"@, "1.0.0"@),
                author@ == tag_value(all.take(i as int), "//! @author"@, "Sonic Flow"@),
                description@ == tag_value(
                    all.take(i as int),
                    "//! @description"@,
                    "Audio visualization shader"@,
                ),
            decreases lines@.len() - i,
        {
            proof {
                assert(all.take(i + 1).drop_last() =~= all.take(i as int));
                assert(all.take(i + 1).last() == all[i as int]);
            }
            let line = trim_chars(&lines[i]);
            if take_tag(&line, "//! @title", &mut name) {
            } else if take_tag(&line, "//! @version", &mut version) {
            } else if take_tag(&line, "//! @author", &mut author) {
            } else if take_tag(&line, "//! @description", &mut description) {
            }
            proof {
                reveal_strlit("//! @title");
                reveal_strlit("//! @version");
                reveal_strlit("//! @author");
                reveal_strlit("//! @description");
                lemma_tags_exclusive(line@);
            }
            i = i + 1;
        }
        proof {
            assert(all.take(lines@.len() as int) =~= all);
        }
        Ok(ShaderMetadata {
            name,
            version,
            author,
            description,
            uniform_buffer_size: UNIFORM_BUFFER_SIZE,
            features: Vec::new(),
        })
    }

    /// Rewrites an HLSL-style source into WGSL: checks that it is not empty,
    /// applies the rewrites of `rewritten_source` and prepends the uniform
    /// declarations of `WGSL_HEADER`.
    pub fn test_hlsl_compilation(&self, source: &str) -> (r: Result<String, ShaderCompilationError>)
        ensures
            source@.len() == 0 <==> r is Err,
            match r {
                Ok(wgsl) => wgsl@ == WGSL_HEADER@ + rewritten_source(source@),
                Err(e) => empty_source_error(e),
            },
    {
        self.compile_hlsl_to_wgsl(source)
    }

    /// Rewrites an HLSL-style source into WGSL (see `test_hlsl_compilation`).
    fn compile_hlsl_to_wgsl(&self, source: &str) -> (r: Result<String, ShaderCompilationError>)
        ensures
            source@.len() == 0 <==> r is Err,
            match r {
                Ok(wgsl) => wgsl@ == WGSL_HEADER@ + rewritten_source(source@),
                Err(e) => empty_source_error(e),
            },
    {
        match self.validate_shader_source(source) {
            Err(e) => {
                return Err(e);
            },
            Ok(()) => {},
        }
        proof {
            reveal_strlit("cbuffer");
            reveal_strlit(": register(b0)");
            reveal_strlit("SV_Position");
            reveal_strlit("SV_Target");
            reveal_strlit("SV_InstanceID");
            reveal_strlit("TEXCOORD0");
            reveal_strlit("POSITION");
            reveal_strlit("float2");
            reveal_strlit("float3");
            reveal_strlit("float4");
            reveal_strlit("float4x4");
            reveal_strlit("mul(");
            reveal_strlit("sin(");
            reveal_strlit("smoothstep(");
        }
        let s = chars_of(source);
        let s = rewrite(s, "cbuffer", "");
        let s = rewrite(s, ": register(b0)", "");
        let s = rewrite(s, "SV_Position", "builtin(position)");
        let s = rewrite(s, "SV_Target", "");
        let s = rewrite(s, "SV_InstanceID", "builtin(instance_index)");
        let s = rewrite(s, "TEXCOORD0", "location(1)");
        let s = rewrite(s, "POSITION", "location(0)");
        let s = rewrite(s, "float2", "vec2<f32>");
        let s = rewrite(s, "float3", "vec3<f32>");
        let s = rewrite(s, "float4", "vec4<f32>");
        let s = rewrite(s, "float4x4", "mat4x4<f32>");
        let s = rewrite(s, "mul(", "(");
        let s = rewrite(s, "sin(", "sin(");
        let s = rewrite(s, "smoothstep(", "smoothstep(");
        let body = string_from_chars(s.as_slice());
        let mut wgsl = String::from_str(WGSL_HEADER);
        push_str(&mut wgsl, body.as_str());
        Ok(wgsl)
    }

    /// Prepares a shader for the GPU: reads its metadata and rewrites its
    /// source into WGSL (see `extract_metadata` and `test_hlsl_compilation`).
    pub fn compile_shader(&self, source: &str, vertex_entry: &str, fragment_entry: &str) -> (r:
        Result<CompiledShader, ShaderCompilationError>)
        ensures
            source@.len() == 0 <==> r is Err,
            match r {
                Ok(c) => {
                    &&& c.wgsl_source@ == WGSL_HEADER@ + rewritten_source(source@)
                    &&& c.vertex_entry@ == vertex_entry@
                    &&& c.fragment_entry@ == fragment_entry@
                    &&& metadata_matches(source@, c.metadata)
                },
                Err(e) => empty_source_error(e),
            },
    {
        let metadata = match self.extract_metadata(source) {
            Ok(m) => m,
            Err(e) => {
                return Err(e);
            },
        };
        let wgsl_source = match self.compile_hlsl_to_wgsl(source) {
            Ok(w) => w,
            Err(e) => {
                return Err(e);
            },
        };
        Ok(CompiledShader {
            wgsl_source,
            vertex_entry: String::from_str(vertex_entry),
            fragment_entry: String::from_str(fragment_entry),
            metadata,
        })
    }
}

/// No trimmed line starts with two different metadata tags.
proof fn lemma_tags_exclusive(line: Seq<char>)
    ensures
        starts_with(line, "//! @title"@) ==> !starts_with(line, "//! @version"@) && !starts_with(
            line,
            "//! @author"@,
        ) && !starts_with(line, "//! @description"@),
        starts_with(line, "//! @version"@) ==> !starts_with(line, "//! @author"@) && !starts_with(
            line,
            "//! @description"@,
        ),
        starts_with(line, "//! @author"@) ==> !starts_with(line, "//! @description"@),
{
    reveal_strlit("//! @title");
    reveal_strlit("//! @version");
    reveal_strlit("//! @author");
    reveal_strlit("//! @description");
    if starts_with(line, "//! @title"@) {
        assert(line[5] == "//! @title"@[5]);
    }
    if starts_with(line, "//! @version"@) {
        assert(line[5] == "//! @version"@[5]);
    }
    if starts_with(line, "//! @author"@) {
        assert(line[5] == "//! @author"@[5]);
    }
}

} // verus!
