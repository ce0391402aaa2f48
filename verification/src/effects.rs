//! Visual effects: their configurations and parameters, saved presets, and
//! the manager that registers effects, activates one at a time and advises
//! on their cost.

use vstd::prelude::*;

use crate::shader_types::{BlendMode, GPURenderingError};
use crate::tags::{entries_map, keys_distinct, lemma_entries_map_domain, lemma_entries_map_update};
use crate::text::{push_str, str_eq};

verus! {

/// Effect types available for visualization.
#[derive(Debug, Clone, PartialEq, Eq, Hash)]
pub enum EffectType {
    SpectrumBars,
    Waveform,
    ParticleSystem,
    ThreeDimensional,
    Custom(String),
}

/// An impact kept within the documented range 1 to 10.
pub open spec fn clamped_impact(impact: u8) -> u8 {
    if impact < 1 {
        1
    } else if impact > 10 {
        10
    } else {
        impact
    }
}

/// The performance impact an effect is given: the requested impact, kept
/// within 1 to 10.
pub fn capped_performance_impact(impact: u8) -> (r: u8)
    ensures
        r == clamped_impact(impact),
{
    if impact < 1 {
        1
    } else if impact > 10 {
        10
    } else {
        impact
    }
}

/// The bit pattern of the `f32` value 1.0.
pub const ONE_F32_BITS: u32 = 0x3f80_0000;

/// Effect parameters by name, each value held as the bit pattern of its
/// `f32`; each name appears once, with its latest value.
#[derive(Debug)]
pub struct ParameterMap {
    entries: Vec<(String, u32)>,
}

/// The name-value pairs of `entries`, with names as text.
pub open spec fn parameter_views(entries: Seq<(String, u32)>) -> Seq<(Seq<char>, u32)> {
    entries.map_values(|e: (String, u32)| (e.0@, e.1))
}

impl View for ParameterMap {
    type V = Map<Seq<char>, u32>;

    closed spec fn view(&self) -> Map<Seq<char>, u32> {
        entries_map(parameter_views(self.entries@))
    }
}

impl ParameterMap {
    #[verifier::type_invariant]
    spec fn names_distinct(self) -> bool {
        keys_distinct(parameter_views(self.entries@))
    }

    /// A map without parameters.
    pub fn new() -> (m: ParameterMap)
        ensures
            m@ == Map::<Seq<char>, u32>::empty(),
    {
        let m = ParameterMap { entries: Vec::new() };
        proof {
            assert(parameter_views(m.entries@) =~= Seq::<(Seq<char>, u32)>::empty());
        }
        m
    }

    /// The position of `name` among the entries, if present.
    fn position_of(&self, name: &str) -> (r: Option<usize>)
        ensures
            match r {
                Some(i) => i < self.entries@.len() && parameter_views(self.entries@)[i as int].0
                    == name@,
                None => forall|j: int|
                    0 <= j < self.entries@.len() ==> parameter_views(self.entries@)[j].0 != name@,
            },
    {
        let ghost pv = parameter_views(self.entries@);
        let mut i: usize = 0;
        while i < self.entries.len()
            invariant
                i <= self.entries@.len(),
                pv == parameter_views(self.entries@),
                forall|j: int| 0 <= j < i ==> pv[j].0 != name@,
            decreases self.entries@.len() - i,
        {
            if str_eq(self.entries[i].0.as_str(), name) {
                return Some(i);
            }
            i = i + 1;
        }
        None
    }

    /// Sets the value of `name`, replacing any earlier value.
    pub fn set(&mut self, name: &str, value: u32)
        ensures
            final(self)@ == old(self)@.insert(name@, value),
    {
        proof {
            use_type_invariant(&*self);
        }
        let ghost pv = parameter_views(self.entries@);
        let found = self.position_of(name);
        let mut entries: Vec<(String, u32)> = Vec::new();
        std::mem::swap(&mut entries, &mut self.entries);
        match found {
            Some(i) => {
                proof {
                    lemma_entries_map_update(pv, i as int, value);
                }
                let k = entries[i].0.clone();
                let ghost nv = pv.update(i as int, (pv[i as int].0, value));
                proof {
                    assert forall|a: int, b: int|
                        0 <= a < nv.len() && 0 <= b < nv.len() && a != b implies #[trigger] nv[a].0
                        != #[trigger] nv[b].0 by {
                        assert(nv[a].0 == pv[a].0);
                        assert(nv[b].0 == pv[b].0);
                    }
                    assert(parameter_views(entries@.update(i as int, (k, value))) =~= nv);
                }
                entries.set(i, (k, value));
                self.entries = entries;
            },
            None => {
                proof {
                    lemma_entries_map_domain(pv, name@);
                }
                let owned = name.to_string();
                let ghost nv = pv.push((name@, value));
                proof {
                    assert forall|a: int, b: int|
                        0 <= a < nv.len() && 0 <= b < nv.len() && a != b implies #[trigger] nv[a].0
                        != #[trigger] nv[b].0 by {
                        if a < pv.len() && b < pv.len() {
                            assert(nv[a].0 == pv[a].0);
                            assert(nv[b].0 == pv[b].0);
                        } else if a < pv.len() {
                            assert(nv[a].0 == pv[a].0);
                        } else {
                            assert(nv[b].0 == pv[b].0);
                        }
                    }
                    assert(nv.drop_last() =~= pv);
                    assert(parameter_views(entries@.push((owned, value))) =~= nv);
                }
                entries.push((owned, value));
                self.entries = entries;
            },
        }
    }

    /// The value of `name`, if set.
    pub fn get(&self, name: &str) -> (r: Option<u32>)
        ensures
            r == (if self@.contains_key(name@) {
                Some(self@[name@])
            } else {
                None
            }),
    {
        proof {
            use_type_invariant(self);
        }
        let ghost pv = parameter_views(self.entries@);
        match self.position_of(name) {
            Some(i) => {
                proof {
                    lemma_entries_map_update(pv, i as int, pv[i as int].1);
                    assert(pv.update(i as int, (pv[i as int].0, pv[i as int].1)) =~= pv);
                }
                Some(self.entries[i].1)
            },
            None => {
                proof {
                    lemma_entries_map_domain(pv, name@);
                }
                None
            },
        }
    }

    /// A copy of the map.
    pub fn duplicate(&self) -> (m: ParameterMap)
        ensures
            m@ == self@,
    {
        proof {
            use_type_invariant(self);
        }
        let mut entries: Vec<(String, u32)> = Vec::new();
        let mut i: usize = 0;
        while i < self.entries.len()
            invariant
                i <= self.entries@.len(),
                parameter_views(entries@) == parameter_views(self.entries@).take(i as int),
            decreases self.entries@.len() - i,
        {
            let ghost before = entries@;
            let name = self.entries[i].0.clone();
            entries.push((name, self.entries[i].1));
            proof {
                assert(parameter_views(entries@) =~= parameter_views(before).push(
                    parameter_views(self.entries@)[i as int],
                ));
                assert(parameter_views(self.entries@).take(i as int + 1) =~= parameter_views(
                    self.entries@,
                ).take(i as int).push(parameter_views(self.entries@)[i as int]));
            }
            i = i + 1;
        }
        proof {
            assert(parameter_views(self.entries@).take(i as int) =~= parameter_views(self.entries@));
        }
        ParameterMap { entries }
    }
}

/// A copy of an effect type.
fn copy_effect_type(t: &EffectType) -> (r: EffectType)
    ensures
        r == *t,
{
    match t {
        EffectType::SpectrumBars => EffectType::SpectrumBars,
        EffectType::Waveform => EffectType::Waveform,
        EffectType::ParticleSystem => EffectType::ParticleSystem,
        EffectType::ThreeDimensional => EffectType::ThreeDimensional,
        EffectType::Custom(s) => EffectType::Custom(s.clone()),
    }
}

/// Effect configuration.
#[derive(Debug)]
pub struct EffectConfig {
    /// Effect type.
    pub effect_type: EffectType,
    /// Effect name.
    pub name: String,
    /// Shader source code.
    pub shader_source: String,
    /// Vertex entry point.
    pub vertex_entry: String,
    /// Fragment entry point.
    pub fragment_entry: String,
    /// Effect parameters.
    pub parameters: ParameterMap,
    /// Blend mode.
    pub blend_mode: BlendMode,
    /// Enabled state.
    pub enabled: bool,
    /// Performance impact estimate (1-10, higher = more expensive).
    pub performance_impact: u8,
}

/// An effect configuration with its texts and parameters as values.
pub ghost struct EffectView {
    pub effect_type: EffectType,
    pub name: Seq<char>,
    pub shader_source: Seq<char>,
    pub vertex_entry: Seq<char>,
    pub fragment_entry: Seq<char>,
    pub parameters: Map<Seq<char>, u32>,
    pub blend_mode: BlendMode,
    pub enabled: bool,
    pub performance_impact: u8,
}

impl View for EffectConfig {
    type V = EffectView;

    open spec fn view(&self) -> EffectView {
        EffectView {
            effect_type: self.effect_type,
            name: self.name@,
            shader_source: self.shader_source@,
            vertex_entry: self.vertex_entry@,
            fragment_entry: self.fragment_entry@,
            parameters: self.parameters@,
            blend_mode: self.blend_mode,
            enabled: self.enabled,
            performance_impact: self.performance_impact,
        }
    }
}

impl EffectConfig {
    /// A configuration for an effect: enabled, with normal blending, no
    /// parameters and a medium performance impact of 5.
    pub fn new(
        effect_type: EffectType,
        name: String,
        shader_source: String,
        vertex_entry: String,
        fragment_entry: String,
    ) -> (c: EffectConfig)
        ensures
            c@ == (EffectView {
                effect_type,
                name: name@,
                shader_source: shader_source@,
                vertex_entry: vertex_entry@,
                fragment_entry: fragment_entry@,
                parameters: Map::empty(),
                blend_mode: BlendMode::Normal,
                enabled: true,
                performance_impact: 5,
            }),
    {
        EffectConfig {
            effect_type,
            name,
            shader_source,
            vertex_entry,
            fragment_entry,
            parameters: ParameterMap::new(),
            blend_mode: BlendMode::Normal,
            enabled: true,
            performance_impact: 5,
        }
    }

    /// Sets a parameter, replacing any earlier value.
    pub fn set_parameter(&mut self, name: &str, value: u32)
        ensures
            final(self)@ == (EffectView {
                parameters: old(self)@.parameters.insert(name@, value),
                ..old(self)@
            }),
    {
        self.parameters.set(name, value);
    }

    /// The value of a parameter, if set.
    pub fn get_parameter(&self, name: &str) -> (r: Option<u32>)
        ensures
            r == (if self@.parameters.contains_key(name@) {
                Some(self@.parameters[name@])
            } else {
                None
            }),
    {
        self.parameters.get(name)
    }

    /// Sets the performance impact, kept within the documented range 1 to 10.
    pub fn set_performance_impact(&mut self, impact: u8)
        ensures
            final(self)@ == (EffectView { performance_impact: clamped_impact(impact), ..old(self)@ }),
    {
        self.performance_impact = capped_performance_impact(impact);
    }

    /// A copy of the configuration.
    pub fn duplicate(&self) -> (c: EffectConfig)
        ensures
            c@ == self@,
    {
        EffectConfig {
            effect_type: copy_effect_type(&self.effect_type),
            name: self.name.clone(),
            shader_source: self.shader_source.clone(),
            vertex_entry: self.vertex_entry.clone(),
            fragment_entry: self.fragment_entry.clone(),
            parameters: self.parameters.duplicate(),
            blend_mode: self.blend_mode,
            enabled: self.enabled,
            performance_impact: self.performance_impact,
        }
    }
}

/// Transition state for smooth effect switching.
#[derive(Debug, Clone)]
pub struct TransitionState {
    /// Currently transitioning.
    pub transitioning: bool,
    /// Transition progress, from 0.0 to 1.0, as the bit pattern of its `f32`.
    pub progress_bits: u32,
    /// Transition duration in seconds, as the bit pattern of its `f32`.
    pub duration_bits: u32,
    /// Source effect.
    pub source_effect: Option<String>,
    /// Target effect.
    pub target_effect: Option<String>,
}

/// An optional name as text.
pub open spec fn name_opt(o: Option<String>) -> Option<Seq<char>> {
    match o {
        Some(s) => Some(s@),
        None => None,
    }
}

impl TransitionState {
    /// No transition, with progress 0.0 and a duration of one second.
    pub fn new() -> (t: TransitionState)
        ensures
            !t.transitioning,
            t.progress_bits == 0,
            t.duration_bits == ONE_F32_BITS,
            t.source_effect is None,
            t.target_effect is None,
    {
        TransitionState {
            transitioning: false,
            progress_bits: 0,
            duration_bits: ONE_F32_BITS,
            source_effect: None,
            target_effect: None,
        }
    }

    /// Starts a transition from one effect to another, at progress 0.0.
    pub fn start_transition(&mut self, from: Option<String>, to: Option<String>)
        ensures
            final(self).transitioning,
            final(self).progress_bits == 0,
            final(self).duration_bits == old(self).duration_bits,
            name_opt(final(self).source_effect) == name_opt(from),
            name_opt(final(self).target_effect) == name_opt(to),
    {
        self.transitioning = true;
        self.progress_bits = 0;
        self.source_effect = from;
        self.target_effect = to;
    }
}

/// Effect preset for saving and loading configurations.
#[derive(Debug)]
pub struct EffectPreset {
    /// Preset name.
    pub name: String,
    /// Effect configurations by effect name, in the order they were added.
    pub effects: Vec<(String, EffectConfig)>,
    /// Active effect.
    pub active_effect: Option<String>,
}

/// The entries of a preset as texts and configuration views.
pub open spec fn preset_views(effects: Seq<(String, EffectConfig)>) -> Seq<(Seq<char>, EffectView)> {
    effects.map_values(|e: (String, EffectConfig)| (e.0@, e.1@))
}

/// The entries after a configuration is added under `name`: it replaces the
/// first entry of that name, or is appended where there is none.
pub open spec fn with_entry(entries: Seq<(Seq<char>, EffectView)>, name: Seq<char>, config: EffectView) -> Seq<
    (Seq<char>, EffectView),
> {
    if exists|i: int| 0 <= i < entries.len() && #[trigger] entries[i].0 == name {
        let i = choose|i: int|
            0 <= i < entries.len() && #[trigger] entries[i].0 == name && forall|j: int|
                0 <= j < i ==> entries[j].0 != name;
        entries.update(i, (name, config))
    } else {
        entries.push((name, config))
    }
}

impl EffectPreset {
    /// An empty preset with no active effect.
    pub fn new(name: String) -> (p: EffectPreset)
        ensures
            p.name@ == name@,
            p.effects@.len() == 0,
            p.active_effect is None,
    {
        EffectPreset { name, effects: Vec::new(), active_effect: None }
    }

    /// Adds a configuration under `name`, replacing an entry of that name.
    pub fn add_effect_config(&mut self, name: String, config: EffectConfig)
        ensures
            preset_views(final(self).effects@) == with_entry(
                preset_views(old(self).effects@),
                name@,
                config@,
            ),
            final(self).name == old(self).name,
            final(self).active_effect == old(self).active_effect,
    {
        let ghost pv = preset_views(self.effects@);
        let ghost cv = config@;
        let mut i: usize = 0;
        while i < self.effects.len()
            invariant
                i <= self.effects@.len(),
                pv == preset_views(self.effects@),
                *self == *old(self),
                cv == config@,
                forall|j: int| 0 <= j < i ==> pv[j].0 != name@,
            decreases self.effects@.len() - i,
        {
            if str_eq(self.effects[i].0.as_str(), name.as_str()) {
                proof {
                    assert(pv[i as int].0 == name@);
                    let c = choose|k: int|
                        0 <= k < pv.len() && #[trigger] pv[k].0 == name@ && forall|j: int|
                            0 <= j < k ==> pv[j].0 != name@;
                    assert(c == i) by {
                        if c < i {
                        } else if c > i {
                        }
                    }
                }
                let ghost before = self.effects@;
                let ghost entry = (name, config);
                self.effects.set(i, (name, config));
                proof {
                    assert(self.effects@ == before.update(i as int, entry));
                    assert(preset_views(self.effects@) =~= pv.update(i as int, (name@, cv)));
                }
                return;
            }
            i = i + 1;
        }
        self.effects.push((name, config));
        proof {
            assert(preset_views(self.effects@) =~= pv.push((name@, cv)));
        }
    }

    /// Sets the active effect.
    pub fn set_active_effect(&mut self, name: String)
        ensures
            final(self).active_effect == Some(name),
            final(self).name == old(self).name,
            final(self).effects == old(self).effects,
    {
        self.active_effect = Some(name);
    }
}

} // verus!
