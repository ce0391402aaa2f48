//! Shader metadata, blend modes and the errors of shader compilation and
//! GPU rendering.

use vstd::prelude::*;

use crate::text::push_str;

verus! {

/// Error types for shader compilation.
#[derive(Debug, Clone, PartialEq, Eq)]
pub enum ShaderCompilationError {
    SlangCompilation(String),
    Validation(String),
    EntryPointNotFound(String),
    UniformBinding(String),
    ResourceAllocation(String),
}

/// The message shown for a shader compilation error.
pub open spec fn shader_error_text(e: ShaderCompilationError) -> Seq<char> {
    match e {
        ShaderCompilationError::SlangCompilation(s) => "Slang compilation failed: "@ + s@,
        ShaderCompilationError::Validation(s) => "Shader validation failed: "@ + s@,
        ShaderCompilationError::EntryPointNotFound(s) => "Entry point not found: "@ + s@,
        ShaderCompilationError::UniformBinding(s) => "Uniform buffer binding failed: "@ + s@,
        ShaderCompilationError::ResourceAllocation(s) => "GPU resource allocation failed: "@ + s@,
    }
}

impl ShaderCompilationError {
    /// The message shown for the error.
    pub fn message(&self) -> (m: String)
        ensures
            m@ == shader_error_text(*self),
    {
        let (prefix, detail) = match self {
            ShaderCompilationError::SlangCompilation(s) => ("Slang compilation failed: ", s),
            ShaderCompilationError::Validation(s) => ("Shader validation failed: ", s),
            ShaderCompilationError::EntryPointNotFound(s) => ("Entry point not found: ", s),
            ShaderCompilationError::UniformBinding(s) => ("Uniform buffer binding failed: ", s),
            ShaderCompilationError::ResourceAllocation(s) => ("GPU resource allocation failed: ", s),
        };
        let mut m = String::new();
        push_str(&mut m, prefix);
        push_str(&mut m, detail.as_str());
        m
    }
}

/// Error types for GPU rendering operations.
#[derive(Debug, Clone, PartialEq, Eq)]
pub enum GPURenderingError {
    DeviceInit(String),
    SurfaceCreation(String),
    PipelineCreation(String),
    BufferCreation(String),
    Rendering(String),
    OutOfMemory,
}

/// The message shown for a rendering error.
pub open spec fn rendering_error_text(e: GPURenderingError) -> Seq<char> {
    match e {
        GPURenderingError::DeviceInit(s) => "Device initialization failed: "@ + s@,
        GPURenderingError::SurfaceCreation(s) => "Surface creation failed: "@ + s@,
        GPURenderingError::PipelineCreation(s) => "Pipeline creation failed: "@ + s@,
        GPURenderingError::BufferCreation(s) => "Buffer creation failed: "@ + s@,
        GPURenderingError::Rendering(s) => "Rendering failed: "@ + s@,
        GPURenderingError::OutOfMemory => "GPU memory exhausted"@,
    }
}

impl GPURenderingError {
    /// The message shown for the error.
    pub fn message(&self) -> (m: String)
        ensures
            m@ == rendering_error_text(*self),
    {
        let mut m = String::new();
        match self {
            GPURenderingError::DeviceInit(s) => {
                push_str(&mut m, "Device initialization failed: ");
                push_str(&mut m, s.as_str());
            },
            GPURenderingError::SurfaceCreation(s) => {
                push_str(&mut m, "Surface creation failed: ");
                push_str(&mut m, s.as_str());
            },
            GPURenderingError::PipelineCreation(s) => {
                push_str(&mut m, "Pipeline creation failed: ");
                push_str(&mut m, s.as_str());
            },
            GPURenderingError::BufferCreation(s) => {
                push_str(&mut m, "Buffer creation failed: ");
                push_str(&mut m, s.as_str());
            },
            GPURenderingError::Rendering(s) => {
                push_str(&mut m, "Rendering failed: ");
                push_str(&mut m, s.as_str());
            },
            GPURenderingError::OutOfMemory => {
                push_str(&mut m, "GPU memory exhausted");
            },
        }
        m
    }
}

/// Shader metadata information.
#[derive(Debug, Clone)]
pub struct ShaderMetadata {
    /// Shader name.
    pub name: String,
    /// Shader version.
    pub version: String,
    /// Author information.
    pub author: String,
    /// Description.
    pub description: String,
    /// Required uniform buffer size, in bytes.
    pub uniform_buffer_size: usize,
    /// Supported features.
    pub features: Vec<String>,
}

/// Blend modes for rendering.
#[derive(Debug, Clone, Copy, PartialEq, Eq, Structural)]
pub enum BlendMode {
    /// Normal blending.
    Normal,
    /// Additive blending.
    Add,
    /// Multiplicative blending.
    Multiply,
    /// Screen blending.
    Screen,
    /// Overlay blending.
    Overlay,
}

/// The size in bytes of the audio visualization uniform block: a 4×4
/// projection matrix, time, sensitivity, four colour components, 128
/// spectrum bins, four audio levels and eight effect parameters, 162
/// four-byte floats in all.
pub const UNIFORM_BUFFER_SIZE: usize = 648;

} // verus!
