//! The shader engine: a bounded set of named shaders, one of them active,
//! with its configuration and statistics.

use vstd::prelude::*;

use crate::compiler::{CompilationTarget, CompiledShader, CompilerView, OptimizationLevel, ShaderCompiler};
use crate::shader_types::{BlendMode, GPURenderingError};
use crate::text::{push_str, str_eq};

verus! {

/// Engine configuration.
#[derive(Debug, Clone)]
pub struct EngineConfig {
    /// Default compilation target.
    pub default_target: CompilationTarget,
    /// Optimization level.
    pub optimization_level: OptimizationLevel,
    /// Maximum shaders to keep in memory.
    pub max_shaders: usize,
    /// Enable shader caching.
    pub enable_caching: bool,
}

impl Default for EngineConfig {
    fn default() -> (c: EngineConfig)
        ensures
            c.default_target == CompilationTarget::Vulkan,
            c.optimization_level == OptimizationLevel::Full,
            c.max_shaders == 10,
            c.enable_caching,
    {
        EngineConfig {
            default_target: CompilationTarget::Vulkan,
            optimization_level: OptimizationLevel::Full,
            max_shaders: 10,
            enable_caching: true,
        }
    }
}

/// Engine statistics.
#[derive(Debug, Clone)]
pub struct EngineStatistics {
    /// Total number of loaded shaders.
    pub total_shaders: usize,
    /// Name of the active shader.
    pub active_shader: Option<String>,
    /// Maximum number of shaders.
    pub max_shaders: usize,
    /// Whether caching is enabled.
    pub caching_enabled: bool,
}

/// The settings of a compiler set up for a target and an optimization level,
/// with the default include path.
pub open spec fn compiler_settings_for(target: CompilationTarget, level: OptimizationLevel) -> CompilerView {
    CompilerView { target, optimization_level: level, include_paths: seq!["shaders/"@] }
}

/// The names of loaded shaders, in load order.
pub open spec fn names_of(shaders: Seq<(String, CompiledShader)>) -> Seq<Seq<char>> {
    shaders.map_values(|e: (String, CompiledShader)| e.0@)
}

/// No name occurs twice.
pub open spec fn names_distinct(names: Seq<Seq<char>>) -> bool {
    forall|i: int, j: int|
        0 <= i < names.len() && 0 <= j < names.len() && i != j ==> #[trigger] names[i]
            != #[trigger] names[j]
}

/// The active name once the shader named `removed` is gone: cleared where it
/// named that shader.
pub open spec fn active_after_removal(active: Option<Seq<char>>, removed: Seq<char>) -> Option<
    Seq<char>,
> {
    if active == Some(removed) {
        None
    } else {
        active
    }
}

/// The message for a shader without a name.
pub open spec fn empty_name_problem(name: Seq<char>) -> Seq<char> {
    "Shader '"@ + name + "' has empty name"@
}

/// The message for a shader without a version.
pub open spec fn empty_version_problem(name: Seq<char>) -> Seq<char> {
    "Shader '"@ + name + "' has empty version"@
}

/// What validation finds wrong with one shader: an empty metadata name,
/// then an empty metadata version.
pub open spec fn shader_problems(name: Seq<char>, shader: CompiledShader) -> Seq<Seq<char>> {
    (if shader.metadata.name@.len() == 0 {
        seq![empty_name_problem(name)]
    } else {
        seq![]
    }) + (if shader.metadata.version@.len() == 0 {
        seq![empty_version_problem(name)]
    } else {
        seq![]
    })
}

/// What validation finds wrong with the shaders, in load order.
pub open spec fn all_problems(shaders: Seq<(String, CompiledShader)>) -> Seq<Seq<char>>
    decreases shaders.len(),
{
    if shaders.len() == 0 {
        seq![]
    } else {
        all_problems(shaders.drop_last()) + shader_problems(shaders.last().0@, shaders.last().1)
    }
}

/// The texts of a list of strings.
pub open spec fn texts(v: Seq<String>) -> Seq<Seq<char>> {
    v.map_values(|s: String| s@)
}

/// Replacing the shader at a position, under the same name, keeps the names.
proof fn lemma_replacing_shader_keeps_names(shaders: Seq<(String, CompiledShader)>, i: int)
    requires
        0 <= i < shaders.len(),
    ensures
        forall|c: CompiledShader|
            #[trigger] names_of(shaders.update(i, (shaders[i].0, c))) == names_of(shaders),
{
    assert forall|c: CompiledShader| #[trigger]
        names_of(shaders.update(i, (shaders[i].0, c))) == names_of(shaders) by {
        assert(names_of(shaders.update(i, (shaders[i].0, c))) =~= names_of(shaders));
    }
}

/// Shader engine for managing multiple shaders and visualizations.
///
/// Shaders are kept in the order they were loaded, under distinct names;
/// the active shader, if any, is one of them. No GPU renderer is attached to
/// the engine: attaching one needs a window and a render pipeline whose
/// initialisation is not implemented, so loading a shader always fails once
/// room has been made, and the frame operations leave everything as it is.
pub struct ShaderEngine {
    compiler: ShaderCompiler,
    shaders: Vec<(String, CompiledShader)>,
    active_shader: Option<String>,
    config: EngineConfig,
}

impl ShaderEngine {
    /// The loaded shaders with their names, in load order.
    pub closed spec fn loaded(&self) -> Seq<(String, CompiledShader)> {
        self.shaders@
    }

    /// The names of the loaded shaders, in load order.
    pub open spec fn names(&self) -> Seq<Seq<char>> {
        names_of(self.loaded())
    }

    /// The name of the active shader.
    pub closed spec fn active_name(&self) -> Option<Seq<char>> {
        match self.active_shader {
            Some(s) => Some(s@),
            None => None,
        }
    }

    /// The engine's configuration.
    pub closed spec fn engine_config(&self) -> EngineConfig {
        self.config
    }

    /// The settings of the engine's shader compiler.
    pub closed spec fn compiler_settings(&self) -> CompilerView {
        self.compiler@
    }

    /// Names are distinct and the active shader is a loaded one.
    pub open spec fn wf(&self) -> bool {
        &&& names_distinct(self.names())
        &&& match self.active_name() {
            Some(a) => self.names().contains(a),
            None => true,
        }
    }

    /// An engine with the default configuration and compiler and no shaders.
    pub fn new() -> (e: ShaderEngine)
        ensures
            e.wf(),
            e.loaded().len() == 0,
            e.active_name() is None,
            e.engine_config().default_target == CompilationTarget::Vulkan,
            e.engine_config().optimization_level == OptimizationLevel::Full,
            e.engine_config().max_shaders == 10,
            e.engine_config().enable_caching,
            e.compiler_settings() == compiler_settings_for(CompilationTarget::Vulkan, OptimizationLevel::Full),
    {
        let e = ShaderEngine {
            compiler: ShaderCompiler::new(),
            shaders: Vec::new(),
            active_shader: None,
            config: EngineConfig::default(),
        };
        proof {
            assert(e.names() =~= Seq::<Seq<char>>::empty());
        }
        e
    }

    /// An engine with `config`, whose compiler targets the configured
    /// platform at the configured optimization level, and no shaders.
    pub fn with_config(config: EngineConfig) -> (e: ShaderEngine)
        ensures
            e.wf(),
            e.loaded().len() == 0,
            e.active_name() is None,
            e.engine_config() == config,
            e.compiler_settings() == compiler_settings_for(config.default_target, config.optimization_level),
    {
        let compiler = ShaderCompiler::with_target(config.default_target).with_optimization(
            config.optimization_level,
        );
        let e = ShaderEngine { compiler, shaders: Vec::new(), active_shader: None, config };
        proof {
            assert(e.names() =~= Seq::<Seq<char>>::empty());
        }
        e
    }

    /// The position of the shader named `name`, if loaded.
    fn position_of(&self, name: &str) -> (r: Option<usize>)
        ensures
            match r {
                Some(i) => i < self.names().len() && self.names()[i as int] == name@,
                None => !self.names().contains(name@),
            },
    {
        let mut i: usize = 0;
        while i < self.shaders.len()
            invariant
                i <= self.shaders@.len(),
                forall|j: int| 0 <= j < i ==> self.names()[j] != name@,
            decreases self.shaders@.len() - i,
        {
            if str_eq(self.shaders[i].0.as_str(), name) {
                return Some(i);
            }
            i = i + 1;
        }
        None
    }

    /// Removes the shader at position `i`, clearing the active shader where
    /// it was that one.
    fn remove_at(&mut self, i: usize)
        requires
            old(self).wf(),
            i < old(self).loaded().len(),
        ensures
            final(self).wf(),
            final(self).loaded() == old(self).loaded().remove(i as int),
            final(self).active_name() == active_after_removal(
                old(self).active_name(),
                old(self).names()[i as int],
            ),
            final(self).engine_config() == old(self).engine_config(),
            final(self).compiler_settings() == old(self).compiler_settings(),
    {
        let ghost before = self.names();
        let (name, _shader) = self.shaders.remove(i);
        let clear = match &self.active_shader {
            Some(a) => str_eq(a.as_str(), name.as_str()),
            None => false,
        };
        if clear {
            self.active_shader = None;
        }
        proof {
            assert(self.names() =~= before.remove(i as int));
            if let Some(a) = self.active_name() {
                let k = choose|k: int| 0 <= k < before.len() && before[k] == a;
                assert(k != i);
                if k < i {
                    assert(self.names()[k] == a);
                } else {
                    assert(self.names()[k - 1] == a);
                }
            }
        }
    }

    /// Removes the oldest shader, where there is one.
    fn evict_oldest_shader(&mut self)
        requires
            old(self).wf(),
        ensures
            final(self).wf(),
            old(self).loaded().len() > 0 ==> {
                &&& final(self).loaded() == old(self).loaded().drop_first()
                &&& final(self).active_name() == active_after_removal(
                    old(self).active_name(),
                    old(self).names()[0],
                )
            },
            old(self).loaded().len() == 0 ==> *final(self) == *old(self),
            final(self).engine_config() == old(self).engine_config(),
            final(self).compiler_settings() == old(self).compiler_settings(),
    {
        if self.shaders.len() > 0 {
            self.remove_at(0);
            proof {
                assert(old(self).loaded().remove(0) =~= old(self).loaded().drop_first());
            }
        }
    }

    /// Loads a shader under `name`. Where the engine is full and holds no
    /// shader of that name, the oldest shader is evicted first. Without a
    /// GPU renderer the shader cannot be compiled for the device, so the
    /// load then fails.
    pub fn load_shader(&mut self, name: &str, source: &str, vertex_entry: &str, fragment_entry: &str) -> (r:
        Result<(), GPURenderingError>)
        requires
            old(self).wf(),
        ensures
            final(self).wf(),
            r matches Err(GPURenderingError::PipelineCreation(m)) && m@ == "GPU renderer not initialized"@,
            if old(self).loaded().len() >= old(self).engine_config().max_shaders && !old(self).names().contains(name@) && old(self).loaded().len() > 0 {
                &&& final(self).loaded() == old(self).loaded().drop_first()
                &&& final(self).active_name() == active_after_removal(
                    old(self).active_name(),
                    old(self).names()[0],
                )
            } else {
                &&& final(self).loaded() == old(self).loaded()
                &&& final(self).active_name() == old(self).active_name()
            },
            final(self).engine_config() == old(self).engine_config(),
            final(self).compiler_settings() == old(self).compiler_settings(),
    {
        if self.shaders.len() >= self.config.max_shaders && self.position_of(name).is_none() {
            self.evict_oldest_shader();
        }
        proof {
            reveal_strlit("GPU renderer not initialized");
        }
        Err(GPURenderingError::PipelineCreation(String::from_str("GPU renderer not initialized")))
    }

    /// Stores a compiled shader under `name`, as a load does once the GPU
    /// renderer has compiled it: where the engine is full and holds no
    /// shader of that name, the oldest shader is evicted first; a shader of
    /// that name is then replaced in its place, or the new one is added
    /// last.
    pub fn store_shader(&mut self, name: &str, shader: CompiledShader)
        requires
            old(self).wf(),
        ensures
            final(self).wf(),
            ({
                let evict = old(self).loaded().len() >= old(self).engine_config().max_shaders
                    && !old(self).names().contains(name@) && old(self).loaded().len() > 0;
                let base = if evict {
                    old(self).loaded().drop_first()
                } else {
                    old(self).loaded()
                };
                let active = if evict {
                    active_after_removal(old(self).active_name(), old(self).names()[0])
                } else {
                    old(self).active_name()
                };
                &&& final(self).active_name() == active
                &&& if names_of(base).contains(name@) {
                    let i = names_of(base).index_of(name@);
                    final(self).loaded() == base.update(i, (base[i].0, shader))
                } else {
                    &&& final(self).loaded().drop_last() == base
                    &&& final(self).names().last() == name@
                    &&& final(self).loaded().last().1 == shader
                    &&& final(self).loaded().len() == base.len() + 1
                }
            }),
            final(self).engine_config() == old(self).engine_config(),
            final(self).compiler_settings() == old(self).compiler_settings(),
    {
        if self.shaders.len() >= self.config.max_shaders && self.position_of(name).is_none() {
            self.evict_oldest_shader();
        }
        let ghost base = self.loaded();
        match self.position_of(name) {
            Some(i) => {
                proof {
                    let k = self.names().index_of(name@);
                    assert(self.names()[k] == name@);
                    assert(k == i as int);
                    lemma_replacing_shader_keeps_names(base, i as int);
                }
                let key = self.shaders[i].0.clone();
                self.shaders.set(i, (key, shader));
                proof {
                    assert(names_of(self.loaded()) == names_of(base.update(i as int, (base[i as int].0, shader))));
                }
            },
            None => {
                let key = name.to_string();
                self.shaders.push((key, shader));
                proof {
                    assert(self.loaded().drop_last() =~= base);
                    assert(self.names() =~= names_of(base).push(name@));
                    if let Some(a) = self.active_name() {
                        let k = choose|k: int| 0 <= k < names_of(base).len() && names_of(base)[k] == a;
                        assert(self.names()[k] == a);
                    }
                }
            },
        }
    }

    /// The shader named `name`, if loaded.
    pub fn get_shader(&self, name: &str) -> (r: Option<&CompiledShader>)
        requires
            self.wf(),
        ensures
            match r {
                Some(s) => exists|i: int|
                    0 <= i < self.loaded().len() && self.names()[i] == name@ && *s == #[trigger] self.loaded()[i].1,
                None => !self.names().contains(name@),
            },
    {
        match self.position_of(name) {
            Some(i) => Some(&self.shaders[i].1),
            None => None,
        }
    }

    /// The shader named `name`, if loaded, for changing in place.
    pub fn get_shader_mut(&mut self, name: &str) -> (r: Option<&mut CompiledShader>)
        requires
            old(self).wf(),
        ensures
            final(self).wf(),
            match r {
                Some(s) => exists|i: int|
                    0 <= i < old(self).loaded().len() && old(self).names()[i] == name@ && *s
                        == #[trigger] old(self).loaded()[i].1 && final(self).loaded() == old(self).loaded().update(
                        i,
                        (old(self).loaded()[i].0, *final(s)),
                    ),
                None => !old(self).names().contains(name@) && *final(self) == *old(self),
            },
            final(self).active_name() == old(self).active_name(),
            final(self).engine_config() == old(self).engine_config(),
            final(self).compiler_settings() == old(self).compiler_settings(),
    {
        match self.position_of(name) {
            Some(i) => {
                proof {
                    lemma_replacing_shader_keeps_names(self.loaded(), i as int);
                }
                Some(&mut self.shaders[i].1)
            },
            None => None,
        }
    }

    /// Makes the shader named `name` the active one; fails, changing
    /// nothing, where no such shader is loaded.
    pub fn activate_shader(&mut self, name: &str) -> (r: Result<(), GPURenderingError>)
        requires
            old(self).wf(),
        ensures
            final(self).wf(),
            final(self).loaded() == old(self).loaded(),
            final(self).engine_config() == old(self).engine_config(),
            final(self).compiler_settings() == old(self).compiler_settings(),
            old(self).names().contains(name@) ==> r is Ok && final(self).active_name() == Some(name@),
            !old(self).names().contains(name@) ==> {
                &&& r matches Err(GPURenderingError::PipelineCreation(m))
                &&& m@ == "Shader not found: "@ + name@
                &&& final(self).active_name() == old(self).active_name()
            },
    {
        match self.position_of(name) {
            Some(i) => {
                self.active_shader = Some(name.to_string());
                proof {
                    assert(self.names()[i as int] == name@);
                }
                Ok(())
            },
            None => {
                let mut m = String::new();
                push_str(&mut m, "Shader not found: ");
                push_str(&mut m, name);
                Err(GPURenderingError::PipelineCreation(m))
            },
        }
    }

    /// The active shader, if any.
    pub fn active_shader(&self) -> (r: Option<&CompiledShader>)
        requires
            self.wf(),
        ensures
            match self.active_name() {
                Some(a) => r matches Some(s) && exists|i: int|
                    0 <= i < self.loaded().len() && self.names()[i] == a && *s == #[trigger] self.loaded()[i].1,
                None => r is None,
            },
    {
        match &self.active_shader {
            Some(a) => self.get_shader(a.as_str()),
            None => None,
        }
    }

    /// The name of the active shader, if any.
    pub fn active_shader_name(&self) -> (r: Option<&String>)
        ensures
            match r {
                Some(s) => self.active_name() == Some(s@),
                None => self.active_name() is None,
            },
    {
        self.active_shader.as_ref()
    }

    /// The names of the loaded shaders, in load order.
    pub fn shader_names(&self) -> (r: Vec<String>)
        ensures
            texts(r@) == self.names(),
    {
        let mut r: Vec<String> = Vec::new();
        let mut i: usize = 0;
        while i < self.shaders.len()
            invariant
                i <= self.shaders@.len(),
                texts(r@) == self.names().take(i as int),
            decreases self.shaders@.len() - i,
        {
            let ghost before = r@;
            let name = self.shaders[i].0.clone();
            r.push(name);
            proof {
                assert(self.names()[i as int] == self.shaders@[i as int].0@);
                assert(texts(r@) =~= texts(before).push(name@));
                assert(self.names().take(i as int + 1) =~= self.names().take(i as int).push(
                    self.names()[i as int],
                ));
            }
            i = i + 1;
        }
        proof {
            assert(self.names().take(i as int) =~= self.names());
        }
        r
    }

    /// Removes the shader named `name`, telling whether one was loaded; the
    /// active shader is cleared where it was that one.
    pub fn remove_shader(&mut self, name: &str) -> (r: bool)
        requires
            old(self).wf(),
        ensures
            final(self).wf(),
            r == old(self).names().contains(name@),
            r ==> exists|i: int|
                0 <= i < old(self).loaded().len() && old(self).names()[i] == name@ && final(self).loaded() == #[trigger] old(self).loaded().remove(i),
            !r ==> final(self).loaded() == old(self).loaded(),
            final(self).active_name() == active_after_removal(old(self).active_name(), name@),
            final(self).engine_config() == old(self).engine_config(),
            final(self).compiler_settings() == old(self).compiler_settings(),
    {
        match self.position_of(name) {
            Some(i) => {
                self.remove_at(i);
                true
            },
            None => false,
        }
    }

    /// Removes every shader and clears the active one.
    pub fn clear_shaders(&mut self)
        requires
            old(self).wf(),
        ensures
            final(self).wf(),
            final(self).loaded().len() == 0,
            final(self).active_name() is None,
            final(self).engine_config() == old(self).engine_config(),
            final(self).compiler_settings() == old(self).compiler_settings(),
    {
        self.shaders.clear();
        self.active_shader = None;
        proof {
            assert(self.names() =~= Seq::<Seq<char>>::empty());
        }
    }

    /// The number of loaded shaders.
    pub fn shader_count(&self) -> (n: usize)
        ensures
            n == self.loaded().len(),
    {
        self.shaders.len()
    }

    /// The engine's configuration.
    pub fn config(&self) -> (c: &EngineConfig)
        ensures
            *c == self.engine_config(),
    {
        &self.config
    }

    /// Replaces the configuration and sets the compiler up anew for it;
    /// loaded shaders stay.
    pub fn update_config(&mut self, config: EngineConfig)
        requires
            old(self).wf(),
        ensures
            final(self).wf(),
            final(self).loaded() == old(self).loaded(),
            final(self).active_name() == old(self).active_name(),
            final(self).engine_config() == config,
            final(self).compiler_settings() == compiler_settings_for(config.default_target, config.optimization_level),
    {
        self.compiler = ShaderCompiler::with_target(config.default_target).with_optimization(
            config.optimization_level,
        );
        self.config = config;
    }

    /// Reports each loaded shader whose metadata has an empty name or an
    /// empty version, in load order.
    pub fn validate_shaders(&self) -> (r: Vec<String>)
        ensures
            texts(r@) == all_problems(self.loaded()),
    {
        let mut r: Vec<String> = Vec::new();
        let mut i: usize = 0;
        while i < self.shaders.len()
            invariant
                i <= self.shaders@.len(),
                texts(r@) == all_problems(self.loaded().take(i as int)),
            decreases self.shaders@.len() - i,
        {
            let ghost before = r@;
            let (name, shader) = (&self.shaders[i].0, &self.shaders[i].1);
            if shader.metadata.name.unicode_len() == 0 {
                let mut m = String::new();
                push_str(&mut m, "Shader '");
                push_str(&mut m, name.as_str());
                push_str(&mut m, "' has empty name");
                r.push(m);
            }
            let ghost middle = r@;
            if shader.metadata.version.unicode_len() == 0 {
                let mut m = String::new();
                push_str(&mut m, "Shader '");
                push_str(&mut m, name.as_str());
                push_str(&mut m, "' has empty version");
                r.push(m);
            }
            proof {
                let taken = self.loaded().take(i as int + 1);
                assert(taken.drop_last() =~= self.loaded().take(i as int));
                assert(taken.last() == self.loaded()[i as int]);
                assert(texts(middle) =~= texts(before) + (if shader.metadata.name@.len() == 0 {
                    seq![empty_name_problem(name@)]
                } else {
                    seq![]
                }));
                assert(texts(r@) =~= texts(middle) + (if shader.metadata.version@.len() == 0 {
                    seq![empty_version_problem(name@)]
                } else {
                    seq![]
                }));
            }
            i = i + 1;
        }
        proof {
            assert(self.loaded().take(i as int) =~= self.loaded());
        }
        r
    }

    /// The engine's statistics: its shader count, active shader and
    /// configured capacity and caching.
    pub fn statistics(&self) -> (s: EngineStatistics)
        ensures
            s.total_shaders == self.loaded().len(),
            match s.active_shader {
                Some(a) => self.active_name() == Some(a@),
                None => self.active_name() is None,
            },
            s.max_shaders == self.engine_config().max_shaders,
            s.caching_enabled == self.engine_config().enable_caching,
    {
        let active_shader = match &self.active_shader {
            Some(a) => Some(a.clone()),
            None => None,
        };
        EngineStatistics {
            total_shaders: self.shaders.len(),
            active_shader,
            max_shaders: self.config.max_shaders,
            caching_enabled: self.config.enable_caching,
        }
    }

    /// Renders a frame; without a GPU renderer there is nothing to draw.
    pub fn render(&mut self) -> (r: Result<(), GPURenderingError>)
        ensures
            r is Ok,
            *final(self) == *old(self),
    {
        Ok(())
    }

    /// Resizes the render target; without a GPU renderer there is none.
    pub fn resize(&mut self, _width: u32, _height: u32) -> (r: Result<(), GPURenderingError>)
        ensures
            r is Ok,
            *final(self) == *old(self),
    {
        Ok(())
    }

    /// Whether GPU rendering is available: never, as no renderer is
    /// attached.
    pub fn is_gpu_available(&self) -> (r: bool)
        ensures
            !r,
    {
        false
    }

    /// Sets the blend mode of the renderer; without a GPU renderer there is
    /// none to set.
    pub fn set_blend_mode(&mut self, _mode: BlendMode) -> (r: Result<(), GPURenderingError>)
        ensures
            r is Ok,
            *final(self) == *old(self),
    {
        Ok(())
    }

    /// The number of frames rendered: none without a GPU renderer.
    pub fn frame_count(&self) -> (n: u64)
        ensures
            n == 0,
    {
        0
    }
}

} // verus!
