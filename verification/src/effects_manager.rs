//! The effects manager: registers effect configurations under their names,
//! activates one at a time with a transition from the previous one, saves
//! and loads presets, and advises on the cost of effects.

use vstd::prelude::*;

use crate::effects::{
    name_opt, preset_views, EffectConfig, EffectPreset, EffectType, EffectView, ParameterMap,
    TransitionState,
};
use crate::engine::{names_distinct, texts};
use crate::shader_types::{BlendMode, GPURenderingError};
use crate::text::{push_str, str_eq};

verus! {

/// A transition with its effect names as text.
pub ghost struct TransitionView {
    pub transitioning: bool,
    pub progress_bits: u32,
    pub duration_bits: u32,
    pub source: Option<Seq<char>>,
    pub target: Option<Seq<char>>,
}

/// The view of a transition state.
pub open spec fn transition_view(t: TransitionState) -> TransitionView {
    TransitionView {
        transitioning: t.transitioning,
        progress_bits: t.progress_bits,
        duration_bits: t.duration_bits,
        source: name_opt(t.source_effect),
        target: name_opt(t.target_effect),
    }
}

/// The state of an effects manager.
#[verifier::ext_equal]
pub ghost struct ManagerView {
    /// The registered configurations, in the order their names were first
    /// registered.
    pub registry: Seq<EffectView>,
    /// The name of the active effect.
    pub active: Option<Seq<char>>,
    /// The transition between effects.
    pub transition: TransitionView,
    /// Whether frame performance is monitored.
    pub monitoring: bool,
}

/// The names of configurations, in order.
pub open spec fn effect_names(cs: Seq<EffectView>) -> Seq<Seq<char>> {
    cs.map_values(|c: EffectView| c.name)
}

/// The registry after a configuration is registered: it replaces the
/// configuration of the same name, or is appended where there is none.
pub open spec fn registered_with(cs: Seq<EffectView>, c: EffectView) -> Seq<EffectView> {
    if effect_names(cs).contains(c.name) {
        cs.update(effect_names(cs).index_of(c.name), c)
    } else {
        cs.push(c)
    }
}

/// The configuration of a built-in effect: its type, name and shader
/// source, the entry points `vertexMain` and `fragmentMain`, no parameters,
/// normal blending, enabled, with the given impact.
pub open spec fn builtin_view(t: EffectType, name: Seq<char>, source: Seq<char>, impact: u8) -> EffectView {
    EffectView {
        effect_type: t,
        name,
        shader_source: source,
        vertex_entry: "vertexMain"@,
        fragment_entry: "fragmentMain"@,
        parameters: Map::empty(),
        blend_mode: BlendMode::Normal,
        enabled: true,
        performance_impact: impact,
    }
}

/// The message for an effect that is not registered.
pub open spec fn not_found_message(name: Seq<char>) -> Seq<char> {
    "Effect '"@ + name + "' not found"@
}

/// The message for an effect that is disabled.
pub open spec fn disabled_message(name: Seq<char>) -> Seq<char> {
    "Effect '"@ + name + "' is disabled"@
}

/// Why the effect named `name` cannot be activated, if it cannot: it is not
/// registered, or it is disabled.
pub open spec fn activation_error(m: ManagerView, name: Seq<char>) -> Option<Seq<char>> {
    let names = effect_names(m.registry);
    if !names.contains(name) {
        Some(not_found_message(name))
    } else if !m.registry[names.index_of(name)].enabled {
        Some(disabled_message(name))
    } else {
        None
    }
}

/// A transition started from one effect to another, at progress 0.0.
pub open spec fn started(t: TransitionView, from: Seq<char>, to: Seq<char>) -> TransitionView {
    TransitionView {
        transitioning: true,
        progress_bits: 0,
        source: Some(from),
        target: Some(to),
        ..t
    }
}

/// The state after an attempt to activate the effect named `name`: where it
/// can be activated it becomes the active effect, and a transition starts
/// from the previously active effect where that was another one; otherwise
/// nothing changes.
pub open spec fn after_activation(m: ManagerView, name: Seq<char>) -> ManagerView {
    if activation_error(m, name) is Some {
        m
    } else {
        ManagerView {
            active: Some(name),
            transition: match m.active {
                Some(a) => if a != name {
                    started(m.transition, a, name)
                } else {
                    m.transition
                },
                None => m.transition,
            },
            ..m
        }
    }
}

/// Parameters set in order, later values replacing earlier ones.
pub open spec fn with_parameters(m: Map<Seq<char>, u32>, ps: Seq<(String, u32)>) -> Map<Seq<char>, u32>
    decreases ps.len(),
{
    if ps.len() == 0 {
        m
    } else {
        with_parameters(m, ps.drop_last()).insert(ps.last().0@, ps.last().1)
    }
}

/// The names of enabled configurations, in order.
pub open spec fn enabled_names(cs: Seq<EffectView>) -> Seq<Seq<char>>
    decreases cs.len(),
{
    if cs.len() == 0 {
        seq![]
    } else {
        enabled_names(cs.drop_last()) + if cs.last().enabled {
            seq![cs.last().name]
        } else {
            seq![]
        }
    }
}

/// The names of enabled configurations whose impact is at most 4, in order.
pub open spec fn light_effect_names(cs: Seq<EffectView>) -> Seq<Seq<char>>
    decreases cs.len(),
{
    if cs.len() == 0 {
        seq![]
    } else {
        light_effect_names(cs.drop_last()) + if cs.last().enabled && cs.last().performance_impact
            <= 4 {
            seq![cs.last().name]
        } else {
            seq![]
        }
    }
}

/// The configurations whose impact is `k`, in order.
pub open spec fn with_impact(cs: Seq<EffectView>, k: int) -> Seq<EffectView>
    decreases cs.len(),
{
    if cs.len() == 0 {
        seq![]
    } else {
        with_impact(cs.drop_last(), k) + if cs.last().performance_impact == k {
            seq![cs.last()]
        } else {
            seq![]
        }
    }
}

/// The configurations whose impact is below `k`, by increasing impact and,
/// among equal impacts, in order.
pub open spec fn impact_order_below(cs: Seq<EffectView>, k: nat) -> Seq<EffectView>
    decreases k,
{
    if k == 0 {
        seq![]
    } else {
        impact_order_below(cs, (k - 1) as nat) + with_impact(cs, k - 1)
    }
}

/// All configurations by increasing impact and, among equal impacts, in
/// order.
pub open spec fn impact_order(cs: Seq<EffectView>) -> Seq<EffectView> {
    impact_order_below(cs, 256)
}

/// The registry with one preset entry applied: the configuration of that
/// name takes the entry's parameters, blend mode and enabled state.
pub open spec fn entry_applied(cs: Seq<EffectView>, e: (Seq<char>, EffectView)) -> Seq<EffectView> {
    cs.map_values(
        |c: EffectView|
            if c.name == e.0 {
                EffectView {
                    parameters: e.1.parameters,
                    blend_mode: e.1.blend_mode,
                    enabled: e.1.enabled,
                    ..c
                }
            } else {
                c
            },
    )
}

/// The registry with a preset's entries applied in order.
pub open spec fn preset_applied(cs: Seq<EffectView>, es: Seq<(Seq<char>, EffectView)>) -> Seq<
    EffectView,
>
    decreases es.len(),
{
    if es.len() == 0 {
        cs
    } else {
        entry_applied(preset_applied(cs, es.drop_last()), es.last())
    }
}

/// A registry whose names are distinct is left as it is by applying, one
/// after another, entries that each hold one of its configurations under
/// that configuration's name.
proof fn lemma_own_entries_change_nothing(cs: Seq<EffectView>, k: nat)
    requires
        names_distinct(effect_names(cs)),
        k <= cs.len(),
    ensures
        preset_applied(cs, cs.map_values(|c: EffectView| (c.name, c)).take(k as int)) == cs,
    decreases k,
{
    let es = cs.map_values(|c: EffectView| (c.name, c));
    if k > 0 {
        assert(es.take(k as int).drop_last() =~= es.take(k - 1));
        lemma_own_entries_change_nothing(cs, (k - 1) as nat);
        let e = es[k - 1];
        assert(e == (cs[k - 1].name, cs[k - 1]));
        assert forall|j: int| 0 <= j < cs.len() implies #[trigger] entry_applied(cs, e)[j] == cs[j] by {
            if cs[j].name == e.0 {
                assert(effect_names(cs)[j] == effect_names(cs)[k - 1]);
            }
        }
        assert(entry_applied(cs, e) =~= cs);
    } else {
        assert(es.take(0) =~= Seq::<(Seq<char>, EffectView)>::empty());
    }
}

/// Loading a preset created from a manager leaves the manager's effects as
/// they were: the preset holds each registered configuration under its own
/// name, and applying those entries changes no configuration; where the
/// active effect is enabled, activating it again changes nothing either.
pub proof fn preset_round_trip(m: ManagerView)
    requires
        names_distinct(effect_names(m.registry)),
    ensures
        preset_applied(m.registry, m.registry.map_values(|c: EffectView| (c.name, c))) == m.registry,
        forall|a: Seq<char>|
            m.active == Some(a) && #[trigger] activation_error(m, a) is None ==> after_activation(m, a) == m,
{
    let es = m.registry.map_values(|c: EffectView| (c.name, c));
    lemma_own_entries_change_nothing(m.registry, m.registry.len());
    assert(es.take(m.registry.len() as int) =~= es);
}

/// The advice on switching to lighter effects.
pub open spec fn light_effects_advice(names_text: Seq<char>) -> Seq<char> {
    "Consider switching to a lower impact effect: "@ + names_text
}

/// The advice on a costly active effect.
pub open spec fn heavy_effect_advice() -> Seq<char> {
    "Current effect has high performance impact. Consider using a lighter effect for better performance."@
}

/// What the standard library's `Debug` formatting writes for a list of
/// strings.
pub uninterp spec fn debug_list_text(items: Seq<Seq<char>>) -> Seq<char>;

/// Formats a list of strings as `{:?}` does.
///
/// Trusted: the text is the one `format!("{:?}", items)` gives, named by
/// `debug_list_text` of the items' texts; what that formatting writes is
/// not restated here.
#[verifier::external_body]
fn debug_list(items: &Vec<String>) -> (s: String)
    ensures
        s@ == debug_list_text(texts(items@)),
{
    format!("{:?}", items)
}

/// The performance advice: where frames run slowly, a switch to the
/// enabled light effects (impact at most 4), if any; where the active
/// effect is costly (impact at least 8), a lighter one.
pub open spec fn performance_advice(m: ManagerView, low_frame_rate: bool) -> Seq<Seq<char>> {
    let light = light_effect_names(m.registry);
    let names = effect_names(m.registry);
    (if low_frame_rate && light.len() > 0 {
        seq![light_effects_advice(debug_list_text(light))]
    } else {
        seq![]
    }) + match m.active {
        Some(a) => if names.contains(a) && m.registry[names.index_of(a)].performance_impact >= 8 {
            seq![heavy_effect_advice()]
        } else {
            seq![]
        },
        None => seq![],
    }
}

/// Advanced effects manager.
///
/// The GPU side of activation (loading the effect's shader into the
/// visualization bridge, activating it there and setting its blend mode)
/// has no effect, as the bridge never holds a GPU engine, and is not
/// carried out here.
pub struct EffectsManager {
    effects: Vec<EffectConfig>,
    active_effect: Option<String>,
    transition_state: TransitionState,
    performance_monitoring_enabled: bool,
}

impl View for EffectsManager {
    type V = ManagerView;

    closed spec fn view(&self) -> ManagerView {
        ManagerView {
            registry: self.effects@.map_values(|c: EffectConfig| c@),
            active: name_opt(self.active_effect),
            transition: transition_view(self.transition_state),
            monitoring: self.performance_monitoring_enabled,
        }
    }
}

impl EffectsManager {
    /// Names are distinct and the active effect is a registered one.
    pub open spec fn wf(&self) -> bool {
        &&& names_distinct(effect_names(self@.registry))
        &&& match self@.active {
            Some(a) => effect_names(self@.registry).contains(a),
            None => true,
        }
    }

    /// A manager with no effects, no transition under way and performance
    /// monitoring on.
    pub fn new() -> (m: EffectsManager)
        ensures
            m.wf(),
            m@.registry.len() == 0,
            m@.active is None,
            m@.transition == (TransitionView {
                transitioning: false,
                progress_bits: 0,
                duration_bits: crate::effects::ONE_F32_BITS,
                source: None,
                target: None,
            }),
            m@.monitoring,
    {
        let m = EffectsManager {
            effects: Vec::new(),
            active_effect: None,
            transition_state: TransitionState::new(),
            performance_monitoring_enabled: true,
        };
        proof {
            assert(m@.registry =~= Seq::<EffectView>::empty());
        }
        m
    }

    /// Turns performance monitoring on or off.
    pub fn set_performance_monitoring(&mut self, enabled: bool)
        requires
            old(self).wf(),
        ensures
            final(self).wf(),
            final(self)@ == (ManagerView { monitoring: enabled, ..old(self)@ }),
    {
        self.performance_monitoring_enabled = enabled;
    }

    /// Whether performance monitoring is on.
    pub fn performance_monitoring(&self) -> (r: bool)
        ensures
            r == self@.monitoring,
    {
        self.performance_monitoring_enabled
    }

    /// The position of the effect named `name`, if registered.
    fn position_of(&self, name: &str) -> (r: Option<usize>)
        requires
            self.wf(),
        ensures
            match r {
                Some(i) => i < self@.registry.len() && effect_names(self@.registry)[i as int] == name@
                    && effect_names(self@.registry).index_of(name@) == i,
                None => !effect_names(self@.registry).contains(name@),
            },
    {
        let ghost names = effect_names(self@.registry);
        let mut i: usize = 0;
        while i < self.effects.len()
            invariant
                i <= self.effects@.len(),
                names == effect_names(self@.registry),
                names_distinct(names),
                forall|j: int| 0 <= j < i ==> names[j] != name@,
            decreases self.effects@.len() - i,
        {
            if str_eq(self.effects[i].name.as_str(), name) {
                proof {
                    assert(names[i as int] == name@);
                    let k = names.index_of(name@);
                    assert(names.contains(name@));
                    assert(names[k] == name@);
                    assert(k == i);
                }
                return Some(i);
            }
            i = i + 1;
        }
        None
    }

    /// Registers a configuration under its name, replacing a configuration
    /// of the same name.
    pub fn register_effect(&mut self, config: EffectConfig) -> (r: Result<(), GPURenderingError>)
        requires
            old(self).wf(),
        ensures
            final(self).wf(),
            r is Ok,
            final(self)@ == (ManagerView {
                registry: registered_with(old(self)@.registry, config@),
                ..old(self)@
            }),
    {
        let ghost reg = self@.registry;
        let ghost cv = config@;
        match self.position_of(config.name.as_str()) {
            Some(i) => {
                self.effects.set(i, config);
                proof {
                    assert(self@.registry =~= reg.update(i as int, cv));
                    assert(effect_names(self@.registry) =~= effect_names(reg));
                }
            },
            None => {
                self.effects.push(config);
                proof {
                    assert(self@.registry =~= reg.push(cv));
                    let names = effect_names(self@.registry);
                    assert(names =~= effect_names(reg).push(cv.name));
                    if let Some(a) = self@.active {
                        let k = choose|k: int| 0 <= k < effect_names(reg).len() && effect_names(reg)[k] == a;
                        assert(names[k] == a);
                    }
                }
            },
        }
        Ok(())
    }

    /// A built-in effect's configuration.
    fn builtin(t: EffectType, name: &str, source: String, impact: u8) -> (c: EffectConfig)
        requires
            1 <= impact <= 10,
        ensures
            c@ == builtin_view(t, name@, source@, impact),
    {
        let mut c = EffectConfig::new(
            t,
            name.to_string(),
            source,
            String::from_str("vertexMain"),
            String::from_str("fragmentMain"),
        );
        c.set_performance_impact(impact);
        c
    }

    /// Registers the four built-in effects from their shader sources:
    /// spectrum bars (impact 3), waveform (4), particle system (8) and the
    /// 3D visualizer (9), in that order.
    pub fn register_builtin_effects(
        &mut self,
        spectrum_bars: String,
        waveform: String,
        particle_system: String,
        three_d: String,
    ) -> (r: Result<(), GPURenderingError>)
        requires
            old(self).wf(),
        ensures
            final(self).wf(),
            r is Ok,
            final(self)@ == (ManagerView {
                registry: registered_with(
                    registered_with(
                        registered_with(
                            registered_with(
                                old(self)@.registry,
                                builtin_view(
                                    EffectType::SpectrumBars,
                                    "spectrum_bars"@,
                                    spectrum_bars@,
                                    3,
                                ),
                            ),
                            builtin_view(EffectType::Waveform, "waveform"@, waveform@, 4),
                        ),
                        builtin_view(
                            EffectType::ParticleSystem,
                            "particle_system"@,
                            particle_system@,
                            8,
                        ),
                    ),
                    builtin_view(EffectType::ThreeDimensional, "3d_visualizer"@, three_d@, 9),
                ),
                ..old(self)@
            }),
    {
        let c = EffectsManager::builtin(EffectType::SpectrumBars, "spectrum_bars", spectrum_bars, 3);
        let _ = self.register_effect(c);
        let c = EffectsManager::builtin(EffectType::Waveform, "waveform", waveform, 4);
        let _ = self.register_effect(c);
        let c = EffectsManager::builtin(EffectType::ParticleSystem, "particle_system", particle_system, 8);
        let _ = self.register_effect(c);
        let c = EffectsManager::builtin(EffectType::ThreeDimensional, "3d_visualizer", three_d, 9);
        let _ = self.register_effect(c);
        Ok(())
    }

    /// Activates the effect named `name` (see `after_activation`); fails,
    /// changing nothing, where it is not registered or is disabled.
    pub fn activate_effect(&mut self, name: &str) -> (r: Result<(), GPURenderingError>)
        requires
            old(self).wf(),
        ensures
            final(self).wf(),
            final(self)@ == after_activation(old(self)@, name@),
            match activation_error(old(self)@, name@) {
                Some(msg) => r matches Err(GPURenderingError::PipelineCreation(m)) && m@ == msg,
                None => r is Ok,
            },
    {
        match self.position_of(name) {
            None => {
                let mut m = String::new();
                push_str(&mut m, "Effect '");
                push_str(&mut m, name);
                push_str(&mut m, "' not found");
                Err(GPURenderingError::PipelineCreation(m))
            },
            Some(i) => {
                if !self.effects[i].enabled {
                    let mut m = String::new();
                    push_str(&mut m, "Effect '");
                    push_str(&mut m, name);
                    push_str(&mut m, "' is disabled");
                    return Err(GPURenderingError::PipelineCreation(m));
                }
                let switching = match &self.active_effect {
                    Some(current) => !str_eq(current.as_str(), name),
                    None => false,
                };
                if switching {
                    let from = self.active_effect.clone();
                    self.transition_state.start_transition(from, Some(name.to_string()));
                }
                self.active_effect = Some(name.to_string());
                proof {
                    assert(effect_names(self@.registry)[i as int] == name@);
                }
                Ok(())
            },
        }
    }

    /// Sets parameters of the effect named `name`, in order; fails,
    /// changing nothing, where it is not registered.
    pub fn update_effect_parameters(&mut self, name: &str, parameters: Vec<(String, u32)>) -> (r:
        Result<(), GPURenderingError>)
        requires
            old(self).wf(),
        ensures
            final(self).wf(),
            effect_names(old(self)@.registry).contains(name@) ==> {
                let i = effect_names(old(self)@.registry).index_of(name@);
                &&& r is Ok
                &&& final(self)@ == (ManagerView {
                    registry: old(self)@.registry.update(
                        i,
                        EffectView {
                            parameters: with_parameters(old(self)@.registry[i].parameters, parameters@),
                            ..old(self)@.registry[i]
                        },
                    ),
                    ..old(self)@
                })
            },
            !effect_names(old(self)@.registry).contains(name@) ==> {
                &&& r matches Err(GPURenderingError::PipelineCreation(m))
                &&& m@ == not_found_message(name@)
                &&& final(self)@ == old(self)@
            },
    {
        match self.position_of(name) {
            None => {
                let mut m = String::new();
                push_str(&mut m, "Effect '");
                push_str(&mut m, name);
                push_str(&mut m, "' not found");
                Err(GPURenderingError::PipelineCreation(m))
            },
            Some(i) => {
                let ghost reg = self@.registry;
                let mut config = self.effects.remove(i);
                let ghost start = config@;
                let mut k: usize = 0;
                while k < parameters.len()
                    invariant
                        k <= parameters@.len(),
                        config@ == (EffectView {
                            parameters: with_parameters(start.parameters, parameters@.take(k as int)),
                            ..start
                        }),
                    decreases parameters@.len() - k,
                {
                    proof {
                        assert(parameters@.take(k as int + 1).drop_last() =~= parameters@.take(
                            k as int,
                        ));
                    }
                    config.set_parameter(parameters[k].0.as_str(), parameters[k].1);
                    k = k + 1;
                }
                proof {
                    assert(parameters@.take(k as int) =~= parameters@);
                }
                let ghost updated = config@;
                self.effects.insert(i, config);
                proof {
                    assert(self@.registry =~= reg.update(i as int, updated));
                    assert(effect_names(self@.registry) =~= effect_names(reg));
                }
                Ok(())
            },
        }
    }

    /// Enables or disables the effect named `name`; fails, changing
    /// nothing, where it is not registered.
    pub fn set_effect_enabled(&mut self, name: &str, enabled: bool) -> (r: Result<(), GPURenderingError>)
        requires
            old(self).wf(),
        ensures
            final(self).wf(),
            effect_names(old(self)@.registry).contains(name@) ==> {
                let i = effect_names(old(self)@.registry).index_of(name@);
                &&& r is Ok
                &&& final(self)@ == (ManagerView {
                    registry: old(self)@.registry.update(
                        i,
                        EffectView { enabled, ..old(self)@.registry[i] },
                    ),
                    ..old(self)@
                })
            },
            !effect_names(old(self)@.registry).contains(name@) ==> {
                &&& r matches Err(GPURenderingError::PipelineCreation(m))
                &&& m@ == not_found_message(name@)
                &&& final(self)@ == old(self)@
            },
    {
        match self.position_of(name) {
            None => {
                let mut m = String::new();
                push_str(&mut m, "Effect '");
                push_str(&mut m, name);
                push_str(&mut m, "' not found");
                Err(GPURenderingError::PipelineCreation(m))
            },
            Some(i) => {
                let ghost reg = self@.registry;
                let mut config = self.effects.remove(i);
                config.enabled = enabled;
                let ghost updated = config@;
                self.effects.insert(i, config);
                proof {
                    assert(self@.registry =~= reg.update(i as int, updated));
                    assert(effect_names(self@.registry) =~= effect_names(reg));
                }
                Ok(())
            },
        }
    }

    /// The names of the registered effects, in registration order.
    pub fn available_effects(&self) -> (r: Vec<String>)
        ensures
            texts(r@) == effect_names(self@.registry),
    {
        let ghost names = effect_names(self@.registry);
        let mut r: Vec<String> = Vec::new();
        let mut i: usize = 0;
        while i < self.effects.len()
            invariant
                i <= self.effects@.len(),
                names == effect_names(self@.registry),
                texts(r@) == names.take(i as int),
            decreases self.effects@.len() - i,
        {
            let ghost before = r@;
            let n = self.effects[i].name.clone();
            r.push(n);
            proof {
                assert(texts(r@) =~= texts(before).push(n@));
                assert(names.take(i as int + 1) =~= names.take(i as int).push(names[i as int]));
            }
            i = i + 1;
        }
        proof {
            assert(names.take(i as int) =~= names);
        }
        r
    }

    /// The names of the enabled effects, in registration order.
    pub fn enabled_effects(&self) -> (r: Vec<String>)
        ensures
            texts(r@) == enabled_names(self@.registry),
    {
        let ghost reg = self@.registry;
        let mut r: Vec<String> = Vec::new();
        let mut i: usize = 0;
        while i < self.effects.len()
            invariant
                i <= self.effects@.len(),
                reg == self@.registry,
                texts(r@) == enabled_names(reg.take(i as int)),
            decreases self.effects@.len() - i,
        {
            proof {
                assert(reg.take(i as int + 1).drop_last() =~= reg.take(i as int));
            }
            if self.effects[i].enabled {
                let ghost before = r@;
                let n = self.effects[i].name.clone();
                r.push(n);
                proof {
                    assert(texts(r@) =~= texts(before).push(n@));
                }
            }
            proof {
                assert(texts(r@) =~= enabled_names(reg.take(i as int + 1)));
            }
            i = i + 1;
        }
        proof {
            assert(reg.take(i as int) =~= reg);
        }
        r
    }

    /// The name of the active effect, if any.
    pub fn active_effect(&self) -> (r: Option<&String>)
        ensures
            match r {
                Some(s) => self@.active == Some(s@),
                None => self@.active is None,
            },
    {
        self.active_effect.as_ref()
    }

    /// The configuration of the effect named `name`, if registered.
    pub fn get_effect_config(&self, name: &str) -> (r: Option<&EffectConfig>)
        requires
            self.wf(),
        ensures
            match r {
                Some(c) => effect_names(self@.registry).contains(name@) && c@
                    == self@.registry[effect_names(self@.registry).index_of(name@)],
                None => !effect_names(self@.registry).contains(name@),
            },
    {
        match self.position_of(name) {
            Some(i) => Some(&self.effects[i]),
            None => None,
        }
    }

    /// The registered effects with their names, by increasing performance
    /// impact and, among equal impacts, in registration order.
    pub fn effects_by_performance_impact(&self) -> (r: Vec<(&String, &EffectConfig)>)
        ensures
            r@.len() == impact_order(self@.registry).len(),
            forall|j: int|
                0 <= j < r@.len() ==> (#[trigger] r@[j]).1@ == impact_order(self@.registry)[j] && r@[j].0@
                    == r@[j].1@.name,
    {
        let ghost reg = self@.registry;
        let mut r: Vec<(&String, &EffectConfig)> = Vec::new();
        let mut k: u32 = 0;
        while k < 256
            invariant
                k <= 256,
                reg == self@.registry,
                r@.len() == impact_order_below(reg, k as nat).len(),
                forall|j: int|
                    0 <= j < r@.len() ==> (#[trigger] r@[j]).1@ == impact_order_below(reg, k as nat)[j]
                        && r@[j].0@ == r@[j].1@.name,
            decreases 256 - k,
        {
            let ghost prefix = impact_order_below(reg, k as nat);
            let mut i: usize = 0;
            while i < self.effects.len()
                invariant
                    k < 256,
                    i <= self.effects@.len(),
                    reg == self@.registry,
                    prefix == impact_order_below(reg, k as nat),
                    r@.len() == prefix.len() + with_impact(reg.take(i as int), k as int).len(),
                    forall|j: int|
                        0 <= j < r@.len() ==> (#[trigger] r@[j]).1@ == (prefix + with_impact(
                            reg.take(i as int),
                            k as int,
                        ))[j] && r@[j].0@ == r@[j].1@.name,
                decreases self.effects@.len() - i,
            {
                proof {
                    assert(reg.take(i as int + 1).drop_last() =~= reg.take(i as int));
                    assert(reg.take(i as int + 1).last() == reg[i as int]);
                }
                let c = &self.effects[i];
                if c.performance_impact as u32 == k {
                    let ghost before = r@;
                    r.push((&c.name, c));
                    proof {
                        let whole = prefix + with_impact(reg.take(i as int + 1), k as int);
                        assert(whole =~= (prefix + with_impact(reg.take(i as int), k as int)).push(
                            reg[i as int],
                        ));
                        assert forall|j: int| 0 <= j < r@.len() implies (#[trigger] r@[j]).1@
                            == whole[j] && r@[j].0@ == r@[j].1@.name by {
                            if j < before.len() {
                                assert(r@[j] == before[j]);
                            }
                        }
                    }
                } else {
                    proof {
                        assert(prefix + with_impact(reg.take(i as int + 1), k as int) =~= prefix
                            + with_impact(reg.take(i as int), k as int));
                    }
                }
                i = i + 1;
            }
            proof {
                assert(reg.take(i as int) =~= reg);
                assert(impact_order_below(reg, (k + 1) as nat) =~= prefix + with_impact(reg, k as int));
            }
            k = k + 1;
        }
        r
    }

    /// The performance advice (see `performance_advice`); `low_frame_rate`
    /// tells whether the latest monitored frame ran below 30 frames per
    /// second.
    pub fn get_performance_suggestions(&self, low_frame_rate: bool) -> (r: Vec<String>)
        requires
            self.wf(),
        ensures
            texts(r@) == performance_advice(self@, low_frame_rate),
    {
        let ghost reg = self@.registry;
        let mut r: Vec<String> = Vec::new();
        if low_frame_rate {
            let mut light: Vec<String> = Vec::new();
            let mut i: usize = 0;
            while i < self.effects.len()
                invariant
                    i <= self.effects@.len(),
                    reg == self@.registry,
                    texts(light@) == light_effect_names(reg.take(i as int)),
                decreases self.effects@.len() - i,
            {
                proof {
                    assert(reg.take(i as int + 1).drop_last() =~= reg.take(i as int));
                }
                let c = &self.effects[i];
                if c.performance_impact <= 4 && c.enabled {
                    let ghost before = light@;
                    let n = c.name.clone();
                    light.push(n);
                    proof {
                        assert(texts(light@) =~= texts(before).push(n@));
                    }
                }
                proof {
                    assert(texts(light@) =~= light_effect_names(reg.take(i as int + 1)));
                }
                i = i + 1;
            }
            proof {
                assert(reg.take(i as int) =~= reg);
            }
            if light.len() > 0 {
                let listed = debug_list(&light);
                let mut m = String::new();
                push_str(&mut m, "Consider switching to a lower impact effect: ");
                push_str(&mut m, listed.as_str());
                r.push(m);
            }
        }
        let ghost first = r@;
        match &self.active_effect {
            Some(a) => {
                match self.position_of(a.as_str()) {
                    Some(i) => {
                        if self.effects[i].performance_impact >= 8 {
                            let mut m = String::new();
                            push_str(
                                &mut m,
                                "Current effect has high performance impact. Consider using a lighter effect for better performance.",
                            );
                            r.push(m);
                            proof {
                                assert(texts(r@) =~= texts(first).push(heavy_effect_advice()));
                            }
                        }
                    },
                    None => {},
                }
            },
            None => {},
        }
        proof {
            assert(texts(r@) =~= performance_advice(self@, low_frame_rate));
        }
        r
    }

    /// The transition between effects.
    pub fn transition_state(&self) -> (t: &TransitionState)
        ensures
            transition_view(*t) == self@.transition,
    {
        &self.transition_state
    }

    /// The transition between effects, for advancing it as frames pass.
    pub fn transition_state_mut(&mut self) -> (t: &mut TransitionState)
        ensures
            transition_view(*t) == old(self)@.transition,
            final(self)@ == (ManagerView { transition: transition_view(*final(t)), ..old(self)@ }),
    {
        &mut self.transition_state
    }

    /// A preset holding a copy of every registered configuration under its
    /// name, in registration order, and the active effect.
    pub fn create_preset(&self, name: &str) -> (p: EffectPreset)
        ensures
            p.name@ == name@,
            preset_views(p.effects@) == self@.registry.map_values(|c: EffectView| (c.name, c)),
            name_opt(p.active_effect) == self@.active,
    {
        let ghost reg = self@.registry;
        let mut preset = EffectPreset::new(name.to_string());
        let mut i: usize = 0;
        while i < self.effects.len()
            invariant
                i <= self.effects@.len(),
                reg == self@.registry,
                preset.name@ == name@,
                preset.active_effect is None,
                preset_views(preset.effects@) == reg.take(i as int).map_values(
                    |c: EffectView| (c.name, c),
                ),
            decreases self.effects@.len() - i,
        {
            let ghost before = preset.effects@;
            let c = self.effects[i].duplicate();
            let n = self.effects[i].name.clone();
            let ghost entry = (n, c);
            preset.effects.push((n, c));
            proof {
                assert(preset.effects@ == before.push(entry));
                assert(c@ == reg[i as int]);
                assert(n@ == reg[i as int].name);
                assert(preset_views(preset.effects@) =~= preset_views(before).push((n@, c@)));
                assert(reg.take(i as int + 1).map_values(|c: EffectView| (c.name, c)) =~= reg.take(
                    i as int,
                ).map_values(|c: EffectView| (c.name, c)).push((reg[i as int].name, reg[i as int])));
            }
            i = i + 1;
        }
        proof {
            assert(reg.take(i as int) =~= reg);
        }
        match &self.active_effect {
            Some(a) => preset.set_active_effect(a.clone()),
            None => {},
        }
        preset
    }

    /// Loads a preset: each of its entries gives the registered effect of
    /// that name the entry's parameters, blend mode and enabled state, in
    /// order; then the preset's active effect, if any, is activated, and
    /// the result is that of the activation.
    pub fn load_preset(&mut self, preset: &EffectPreset) -> (r: Result<(), GPURenderingError>)
        requires
            old(self).wf(),
        ensures
            final(self).wf(),
            ({
                let mid = ManagerView {
                    registry: preset_applied(old(self)@.registry, preset_views(preset.effects@)),
                    ..old(self)@
                };
                match preset.active_effect {
                    Some(a) => {
                        &&& final(self)@ == after_activation(mid, a@)
                        &&& match activation_error(mid, a@) {
                            Some(msg) => r matches Err(GPURenderingError::PipelineCreation(m)) && m@
                                == msg,
                            None => r is Ok,
                        }
                    },
                    None => final(self)@ == mid && r is Ok,
                }
            }),
    {
        let ghost es = preset_views(preset.effects@);
        let ghost start = self@;
        let mut e: usize = 0;
        while e < preset.effects.len()
            invariant
                e <= preset.effects@.len(),
                es == preset_views(preset.effects@),
                self.wf(),
                self@ == (ManagerView {
                    registry: preset_applied(start.registry, es.take(e as int)),
                    ..start
                }),
            decreases preset.effects@.len() - e,
        {
            let ghost reg = self@.registry;
            let entry_name = preset.effects[e].0.as_str();
            let entry = &preset.effects[e].1;
            let mut i: usize = 0;
            while i < self.effects.len()
                invariant
                    e < preset.effects@.len(),
                    i <= self.effects@.len(),
                    es == preset_views(preset.effects@),
                    entry_name@ == es[e as int].0,
                    entry@ == es[e as int].1,
                    self@.registry.len() == reg.len(),
                    effect_names(self@.registry) == effect_names(reg),
                    self@.active == start.active,
                    self@.transition == start.transition,
                    self@.monitoring == start.monitoring,
                    forall|j: int|
                        0 <= j < reg.len() ==> #[trigger] self@.registry[j] == if j < i {
                            entry_applied(reg, es[e as int])[j]
                        } else {
                            reg[j]
                        },
                decreases self.effects@.len() - i,
            {
                let ghost prev = self@.registry;
                proof {
                    assert(prev[i as int] == reg[i as int]);
                }
                if str_eq(self.effects[i].name.as_str(), entry_name) {
                    let ghost before = self@.registry;
                    let mut config = self.effects.remove(i);
                    config.parameters = entry.parameters.duplicate();
                    config.blend_mode = entry.blend_mode;
                    config.enabled = entry.enabled;
                    let ghost updated = config@;
                    self.effects.insert(i, config);
                    proof {
                        assert(self@.registry =~= before.update(i as int, updated));
                        assert(effect_names(self@.registry) =~= effect_names(before));
                        assert(reg[i as int].name == es[e as int].0);
                        assert(updated == entry_applied(reg, es[e as int])[i as int]);
                    }
                } else {
                    proof {
                        assert(reg[i as int].name != es[e as int].0);
                        assert(prev[i as int] == entry_applied(reg, es[e as int])[i as int]);
                    }
                }
                proof {
                    assert forall|j: int| 0 <= j < reg.len() implies #[trigger] self@.registry[j] == if j
                        < i + 1 {
                        entry_applied(reg, es[e as int])[j]
                    } else {
                        reg[j]
                    } by {
                        if j != i {
                            assert(self@.registry[j] == prev[j]);
                        }
                    }
                }
                i = i + 1;
            }
            proof {
                assert(self@.registry =~= entry_applied(reg, es[e as int]));
                assert(es.take(e as int + 1).drop_last() =~= es.take(e as int));
                assert(es.take(e as int + 1).last() == es[e as int]);
            }
            e = e + 1;
        }
        proof {
            assert(es.take(e as int) =~= es);
        }
        match &preset.active_effect {
            Some(a) => self.activate_effect(a.as_str()),
            None => Ok(()),
        }
    }
}

/// Whether some registered effect is named `n`, is enabled and has impact
/// at most 4.
pub open spec fn is_light_enabled(cs: Seq<EffectView>, n: Seq<char>) -> bool {
    exists|j: int|
        0 <= j < cs.len() && #[trigger] cs[j].name == n && cs[j].enabled
            && cs[j].performance_impact <= 4
}

/// The effects proposed as lighter ones when frames run slow are exactly
/// the registered effects that are enabled and of impact at most 4: each
/// proposed name belongs to such an effect, and each such effect is
/// proposed.
pub proof fn light_effects_are_enabled(cs: Seq<EffectView>)
    ensures
        forall|i: int|
            0 <= i < light_effect_names(cs).len() ==> is_light_enabled(
                cs,
                #[trigger] light_effect_names(cs)[i],
            ),
        forall|j: int|
            0 <= j < cs.len() && cs[j].enabled && cs[j].performance_impact <= 4
                ==> light_effect_names(cs).contains(#[trigger] cs[j].name),
    decreases cs.len(),
{
    if cs.len() > 0 {
        let p = cs.drop_last();
        light_effects_are_enabled(p);
        let l = light_effect_names(cs);
        let lp = light_effect_names(p);
        let light_last = cs.last().enabled && cs.last().performance_impact <= 4;
        if light_last {
            assert(l =~= lp.push(cs.last().name));
        } else {
            assert(l =~= lp);
        }
        assert forall|i: int| 0 <= i < l.len() implies is_light_enabled(cs, #[trigger] l[i]) by {
            if i < lp.len() {
                assert(l[i] == lp[i]);
                assert(is_light_enabled(p, lp[i]));
                let j = choose|j: int|
                    0 <= j < p.len() && #[trigger] p[j].name == lp[i] && p[j].enabled
                        && p[j].performance_impact <= 4;
                assert(cs[j] == p[j]);
            } else {
                let last = cs.len() - 1;
                assert(cs[last] == cs.last());
                assert(l[i] == cs[last].name);
            }
        }
        assert forall|j: int|
            0 <= j < cs.len() && cs[j].enabled && cs[j].performance_impact <= 4 implies l.contains(
            #[trigger] cs[j].name,
        ) by {
            if j < p.len() {
                assert(cs[j] == p[j]);
                assert(lp.contains(p[j].name));
                let k = choose|k: int| 0 <= k < lp.len() && lp[k] == p[j].name;
                assert(l[k] == lp[k]);
            } else {
                assert(l[l.len() - 1] == cs.last().name);
            }
        }
    }
}

/// Every effect proposed as a lighter one when frames run slow can be
/// activated: none of them is missing or disabled.
pub proof fn light_effects_can_be_activated(m: ManagerView)
    requires
        names_distinct(effect_names(m.registry)),
    ensures
        forall|i: int|
            0 <= i < light_effect_names(m.registry).len() ==> activation_error(
                m,
                #[trigger] light_effect_names(m.registry)[i],
            ) is None,
{
    let cs = m.registry;
    let names = effect_names(cs);
    light_effects_are_enabled(cs);
    assert forall|i: int| 0 <= i < light_effect_names(cs).len() implies activation_error(
        m,
        #[trigger] light_effect_names(cs)[i],
    ) is None by {
        let n = light_effect_names(cs)[i];
        assert(is_light_enabled(cs, n));
        let j = choose|j: int|
            0 <= j < cs.len() && #[trigger] cs[j].name == n && cs[j].enabled
                && cs[j].performance_impact <= 4;
        assert(names[j] == n);
        assert(names.contains(n));
        let k = names.index_of(n);
        assert(names[k] == n);
        assert(k == j);
    }
}

/// Whether some registered effect is enabled and has impact at most 4.
pub open spec fn has_light_enabled(cs: Seq<EffectView>) -> bool {
    exists|j: int| 0 <= j < cs.len() && #[trigger] cs[j].enabled && cs[j].performance_impact <= 4
}

/// Whether the effect named `a` is registered with impact 8 or more.
pub open spec fn is_heavy(cs: Seq<EffectView>, a: Seq<char>) -> bool {
    exists|j: int| 0 <= j < cs.len() && #[trigger] cs[j].name == a && cs[j].performance_impact >= 8
}

/// The performance advice holds one piece of advice for each problem and
/// nothing else: advice to switch to the lighter effects exactly when frames
/// run slow and some enabled effect is light (impact at most 4), listing
/// them, and advice on the active effect exactly when it is registered with
/// impact 8 or more, in that order.
pub proof fn performance_advice_covers_problems(m: ManagerView, low_frame_rate: bool)
    requires
        names_distinct(effect_names(m.registry)),
    ensures
        ({
            let advice = performance_advice(m, low_frame_rate);
            let light = low_frame_rate && has_light_enabled(m.registry);
            let heavy = m.active matches Some(a) && is_heavy(m.registry, a);
            &&& advice.len() == (if light { 1int } else { 0int }) + (if heavy { 1int } else { 0int })
            &&& light ==> advice[0] == light_effects_advice(
                debug_list_text(light_effect_names(m.registry)),
            )
            &&& heavy ==> advice[advice.len() - 1] == heavy_effect_advice()
        }),
{
    let cs = m.registry;
    let names = effect_names(cs);
    light_effects_are_enabled(cs);
    if has_light_enabled(cs) {
        let j = choose|j: int| 0 <= j < cs.len() && #[trigger] cs[j].enabled && cs[j].performance_impact <= 4;
        assert(light_effect_names(cs).contains(cs[j].name));
    }
    if light_effect_names(cs).len() > 0 {
        let n = light_effect_names(cs)[0];
        assert(is_light_enabled(cs, n));
        let j = choose|j: int|
            0 <= j < cs.len() && #[trigger] cs[j].name == n && cs[j].enabled
                && cs[j].performance_impact <= 4;
        assert(cs[j].enabled);
    }
    if let Some(a) = m.active {
        if is_heavy(cs, a) {
            let j = choose|j: int| 0 <= j < cs.len() && #[trigger] cs[j].name == a && cs[j].performance_impact >= 8;
            assert(names[j] == a);
            assert(names.contains(a));
            assert(names[names.index_of(a)] == a);
            assert(names.index_of(a) == j);
        } else if names.contains(a) {
            let k = names.index_of(a);
            assert(names[k] == a);
            assert(cs[k].name == a);
        }
    }
}

} // verus!
