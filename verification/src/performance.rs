//! Performance advice: the optimizations to suggest when frame metrics miss
//! their thresholds.

use vstd::prelude::*;

verus! {

/// Optimization suggestions.
#[derive(Debug, Clone, Copy, PartialEq, Eq, Structural)]
pub enum OptimizationSuggestion {
    /// Reduce shader complexity.
    ReduceShaderComplexity,
    /// Lower resolution.
    LowerResolution,
    /// Reduce audio buffer size.
    ReduceAudioBufferSize,
    /// Disable expensive effects.
    DisableExpensiveEffects,
    /// Use simpler blending.
    UseSimplerBlending,
    /// Reduce particle count.
    ReduceParticleCount,
    /// Enable frame skipping.
    EnableFrameSkipping,
    /// Optimize texture usage.
    OptimizeTextureUsage,
}

/// The priority of a suggestion: lower comes first.
pub open spec fn priority_of(s: OptimizationSuggestion) -> u8 {
    match s {
        OptimizationSuggestion::ReduceShaderComplexity => 1,
        OptimizationSuggestion::LowerResolution => 2,
        OptimizationSuggestion::DisableExpensiveEffects => 3,
        OptimizationSuggestion::ReduceParticleCount => 4,
        OptimizationSuggestion::EnableFrameSkipping => 5,
        OptimizationSuggestion::OptimizeTextureUsage => 6,
        OptimizationSuggestion::ReduceAudioBufferSize => 7,
        OptimizationSuggestion::UseSimplerBlending => 8,
    }
}

/// The advice text of a suggestion.
pub open spec fn description_of(s: OptimizationSuggestion) -> Seq<char> {
    match s {
        OptimizationSuggestion::ReduceShaderComplexity => "Consider simplifying shader code to reduce GPU load"@,
        OptimizationSuggestion::LowerResolution => "Lower rendering resolution to improve performance"@,
        OptimizationSuggestion::ReduceAudioBufferSize => "Reduce audio buffer size to decrease processing time"@,
        OptimizationSuggestion::DisableExpensiveEffects => "Disable expensive visual effects to improve frame rate"@,
        OptimizationSuggestion::UseSimplerBlending => "Use simpler blending modes to reduce GPU overhead"@,
        OptimizationSuggestion::ReduceParticleCount => "Reduce particle count in particle system effects"@,
        OptimizationSuggestion::EnableFrameSkipping => "Enable frame skipping to maintain target frame rate"@,
        OptimizationSuggestion::OptimizeTextureUsage => "Optimize texture usage and reduce texture memory"@,
    }
}

impl OptimizationSuggestion {
    /// The advice text shown for the suggestion.
    pub fn description(&self) -> (d: &'static str)
        ensures
            d@ == description_of(*self),
    {
        match self {
            OptimizationSuggestion::ReduceShaderComplexity => "Consider simplifying shader code to reduce GPU load",
            OptimizationSuggestion::LowerResolution => "Lower rendering resolution to improve performance",
            OptimizationSuggestion::ReduceAudioBufferSize => "Reduce audio buffer size to decrease processing time",
            OptimizationSuggestion::DisableExpensiveEffects => "Disable expensive visual effects to improve frame rate",
            OptimizationSuggestion::UseSimplerBlending => "Use simpler blending modes to reduce GPU overhead",
            OptimizationSuggestion::ReduceParticleCount => "Reduce particle count in particle system effects",
            OptimizationSuggestion::EnableFrameSkipping => "Enable frame skipping to maintain target frame rate",
            OptimizationSuggestion::OptimizeTextureUsage => "Optimize texture usage and reduce texture memory",
        }
    }

    /// The priority of the suggestion: lower comes first.
    pub fn priority(&self) -> (p: u8)
        ensures
            p == priority_of(*self),
    {
        match self {
            OptimizationSuggestion::ReduceShaderComplexity => 1,
            OptimizationSuggestion::LowerResolution => 2,
            OptimizationSuggestion::DisableExpensiveEffects => 3,
            OptimizationSuggestion::ReduceParticleCount => 4,
            OptimizationSuggestion::EnableFrameSkipping => 5,
            OptimizationSuggestion::OptimizeTextureUsage => 6,
            OptimizationSuggestion::ReduceAudioBufferSize => 7,
            OptimizationSuggestion::UseSimplerBlending => 8,
        }
    }
}

/// Which thresholds a frame's metrics missed.
#[derive(Debug, Clone, Copy, PartialEq, Eq, Structural)]
pub struct PerformanceFindings {
    /// The frame took longer than the maximum frame time.
    pub frame_time_over: bool,
    /// The frame took longer than one and a half times the maximum frame time.
    pub frame_time_far_over: bool,
    /// The frame rate fell below the target.
    pub fps_below_target: bool,
    /// The frame rate fell below half the target.
    pub fps_below_half_target: bool,
    /// CPU usage rose above its maximum.
    pub cpu_over: bool,
    /// GPU memory rose above its maximum.
    pub gpu_memory_over: bool,
    /// Audio processing took longer than its maximum.
    pub audio_time_over: bool,
}

/// `[s]` where `b` holds, `[]` otherwise.
pub open spec fn when(b: bool, s: OptimizationSuggestion) -> Seq<OptimizationSuggestion> {
    if b {
        seq![s]
    } else {
        seq![]
    }
}

/// The suggestions in the order the checks raise them: frame time (shader
/// complexity, then resolution when far over), frame rate (expensive
/// effects, then frame skipping when below half), CPU (audio buffer size),
/// GPU memory (texture usage), audio time (audio buffer size).
pub open spec fn raised_suggestions(f: PerformanceFindings) -> Seq<OptimizationSuggestion> {
    when(f.frame_time_over, OptimizationSuggestion::ReduceShaderComplexity)
        + when(f.frame_time_over && f.frame_time_far_over, OptimizationSuggestion::LowerResolution)
        + when(f.fps_below_target, OptimizationSuggestion::DisableExpensiveEffects)
        + when(f.fps_below_target && f.fps_below_half_target, OptimizationSuggestion::EnableFrameSkipping)
        + when(f.cpu_over, OptimizationSuggestion::ReduceAudioBufferSize)
        + when(f.gpu_memory_over, OptimizationSuggestion::OptimizeTextureUsage)
        + when(f.audio_time_over, OptimizationSuggestion::ReduceAudioBufferSize)
}

/// The raised suggestions ordered by priority; suggestions of equal priority
/// are the same suggestion.
pub open spec fn ordered_suggestions(f: PerformanceFindings) -> Seq<OptimizationSuggestion> {
    when(f.frame_time_over, OptimizationSuggestion::ReduceShaderComplexity)
        + when(f.frame_time_over && f.frame_time_far_over, OptimizationSuggestion::LowerResolution)
        + when(f.fps_below_target, OptimizationSuggestion::DisableExpensiveEffects)
        + when(f.fps_below_target && f.fps_below_half_target, OptimizationSuggestion::EnableFrameSkipping)
        + when(f.gpu_memory_over, OptimizationSuggestion::OptimizeTextureUsage)
        + when(f.cpu_over, OptimizationSuggestion::ReduceAudioBufferSize)
        + when(f.audio_time_over, OptimizationSuggestion::ReduceAudioBufferSize)
}

/// Whether GPU memory in bytes exceeds a maximum given in MiB.
pub fn gpu_memory_exceeds(gpu_memory: u64, max_gpu_memory_mb: u64) -> (r: bool)
    requires
        max_gpu_memory_mb * 1024 * 1024 <= u64::MAX,
    ensures
        r == (gpu_memory > max_gpu_memory_mb * 1024 * 1024),
{
    gpu_memory > max_gpu_memory_mb * 1024 * 1024
}

/// The suggestions for a frame's findings, ordered by priority.
pub fn suggestions_for(f: PerformanceFindings) -> (r: Vec<OptimizationSuggestion>)
    ensures
        r@ == ordered_suggestions(f),
{
    let mut r: Vec<OptimizationSuggestion> = Vec::new();
    if f.frame_time_over {
        r.push(OptimizationSuggestion::ReduceShaderComplexity);
        if f.frame_time_far_over {
            r.push(OptimizationSuggestion::LowerResolution);
        }
    }
    if f.fps_below_target {
        r.push(OptimizationSuggestion::DisableExpensiveEffects);
        if f.fps_below_half_target {
            r.push(OptimizationSuggestion::EnableFrameSkipping);
        }
    }
    if f.gpu_memory_over {
        r.push(OptimizationSuggestion::OptimizeTextureUsage);
    }
    if f.cpu_over {
        r.push(OptimizationSuggestion::ReduceAudioBufferSize);
    }
    if f.audio_time_over {
        r.push(OptimizationSuggestion::ReduceAudioBufferSize);
    }
    proof {
        assert(r@ =~= ordered_suggestions(f));
    }
    r
}

/// How often `s` occurs in `q`.
pub open spec fn occurrences(q: Seq<OptimizationSuggestion>, s: OptimizationSuggestion) -> nat
    decreases q.len(),
{
    if q.len() == 0 {
        0
    } else {
        occurrences(q.drop_last(), s) + if q.last() == s {
            1nat
        } else {
            0nat
        }
    }
}

/// Occurrences add up over concatenation.
proof fn lemma_occurrences_concat(
    a: Seq<OptimizationSuggestion>,
    b: Seq<OptimizationSuggestion>,
    s: OptimizationSuggestion,
)
    ensures
        occurrences(a + b, s) == occurrences(a, s) + occurrences(b, s),
    decreases b.len(),
{
    if b.len() > 0 {
        lemma_occurrences_concat(a, b.drop_last(), s);
        assert((a + b).drop_last() =~= a + b.drop_last());
    } else {
        assert(a + b =~= a);
    }
}

/// Priorities never decrease along `q`.
pub open spec fn priority_sorted(q: Seq<OptimizationSuggestion>) -> bool {
    forall|i: int, j: int|
        0 <= i <= j < q.len() ==> priority_of(#[trigger] q[i]) <= priority_of(#[trigger] q[j])
}

/// Appending suggestions of priority `p` to a sorted sequence whose
/// priorities are at most `p` keeps it sorted.
proof fn lemma_sorted_append(x: Seq<OptimizationSuggestion>, b: bool, s: OptimizationSuggestion)
    requires
        priority_sorted(x),
        forall|k: int| 0 <= k < x.len() ==> priority_of(#[trigger] x[k]) <= priority_of(s),
    ensures
        priority_sorted(x + when(b, s)),
        forall|k: int|
            0 <= k < (x + when(b, s)).len() ==> priority_of(#[trigger] (x + when(b, s))[k])
                <= priority_of(s),
{
    let y = x + when(b, s);
    assert forall|i: int, j: int| 0 <= i <= j < y.len() implies priority_of(#[trigger] y[i])
        <= priority_of(#[trigger] y[j]) by {
        if j >= x.len() {
            assert(y[j] == s);
        }
        if i < x.len() {
            assert(y[i] == x[i]);
        }
        if j < x.len() {
            assert(y[j] == x[j]);
        }
    }
    assert forall|k: int| 0 <= k < y.len() implies priority_of(#[trigger] y[k]) <= priority_of(s) by {
        if k < x.len() {
            assert(y[k] == x[k]);
        }
    }
}

/// The suggestions come ordered by priority.
pub proof fn suggestions_sorted(f: PerformanceFindings)
    ensures
        priority_sorted(ordered_suggestions(f)),
{
    let e: Seq<OptimizationSuggestion> = seq![];
    let x1 = e + when(f.frame_time_over, OptimizationSuggestion::ReduceShaderComplexity);
    lemma_sorted_append(e, f.frame_time_over, OptimizationSuggestion::ReduceShaderComplexity);
    lemma_sorted_append(x1, f.frame_time_over && f.frame_time_far_over, OptimizationSuggestion::LowerResolution);
    let x2 = x1 + when(f.frame_time_over && f.frame_time_far_over, OptimizationSuggestion::LowerResolution);
    lemma_sorted_append(x2, f.fps_below_target, OptimizationSuggestion::DisableExpensiveEffects);
    let x3 = x2 + when(f.fps_below_target, OptimizationSuggestion::DisableExpensiveEffects);
    lemma_sorted_append(x3, f.fps_below_target && f.fps_below_half_target, OptimizationSuggestion::EnableFrameSkipping);
    let x4 = x3 + when(f.fps_below_target && f.fps_below_half_target, OptimizationSuggestion::EnableFrameSkipping);
    lemma_sorted_append(x4, f.gpu_memory_over, OptimizationSuggestion::OptimizeTextureUsage);
    let x5 = x4 + when(f.gpu_memory_over, OptimizationSuggestion::OptimizeTextureUsage);
    lemma_sorted_append(x5, f.cpu_over, OptimizationSuggestion::ReduceAudioBufferSize);
    let x6 = x5 + when(f.cpu_over, OptimizationSuggestion::ReduceAudioBufferSize);
    lemma_sorted_append(x6, f.audio_time_over, OptimizationSuggestion::ReduceAudioBufferSize);
    let x7 = x6 + when(f.audio_time_over, OptimizationSuggestion::ReduceAudioBufferSize);
    assert(x1 =~= when(f.frame_time_over, OptimizationSuggestion::ReduceShaderComplexity));
    assert(x7 =~= ordered_suggestions(f));
}

/// The suggestions are exactly the ones the checks raise, each as often as
/// it is raised.
pub proof fn suggestions_complete(f: PerformanceFindings, s: OptimizationSuggestion)
    ensures
        occurrences(ordered_suggestions(f), s) == occurrences(raised_suggestions(f), s),
{
    let a = when(f.frame_time_over, OptimizationSuggestion::ReduceShaderComplexity);
    let b = when(f.frame_time_over && f.frame_time_far_over, OptimizationSuggestion::LowerResolution);
    let c = when(f.fps_below_target, OptimizationSuggestion::DisableExpensiveEffects);
    let d = when(f.fps_below_target && f.fps_below_half_target, OptimizationSuggestion::EnableFrameSkipping);
    let e = when(f.cpu_over, OptimizationSuggestion::ReduceAudioBufferSize);
    let g = when(f.gpu_memory_over, OptimizationSuggestion::OptimizeTextureUsage);
    let h = when(f.audio_time_over, OptimizationSuggestion::ReduceAudioBufferSize);
    let abcd = a + b + c + d;
    lemma_occurrences_concat(a, b, s);
    lemma_occurrences_concat(a + b, c, s);
    lemma_occurrences_concat(a + b + c, d, s);
    lemma_occurrences_concat(abcd, e, s);
    lemma_occurrences_concat(abcd + e, g, s);
    lemma_occurrences_concat(abcd + e + g, h, s);
    lemma_occurrences_concat(abcd, g, s);
    lemma_occurrences_concat(abcd + g, e, s);
    lemma_occurrences_concat(abcd + g + e, h, s);
    assert(raised_suggestions(f) == abcd + e + g + h);
    assert(ordered_suggestions(f) == abcd + g + e + h);
}

} // verus!
