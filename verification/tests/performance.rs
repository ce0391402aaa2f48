use sonic_flow::performance::{
    gpu_memory_exceeds, suggestions_for, OptimizationSuggestion, PerformanceFindings,
};

#[test]
fn test_optimization_suggestion_priority() {
    let suggestion1 = OptimizationSuggestion::ReduceShaderComplexity;
    let suggestion2 = OptimizationSuggestion::LowerResolution;
    assert!(suggestion1.priority() < suggestion2.priority());
}

fn none() -> PerformanceFindings {
    PerformanceFindings {
        frame_time_over: false,
        frame_time_far_over: false,
        fps_below_target: false,
        fps_below_half_target: false,
        cpu_over: false,
        gpu_memory_over: false,
        audio_time_over: false,
    }
}

#[test]
fn no_findings_no_suggestions() {
    assert!(suggestions_for(none()).is_empty());
}

#[test]
fn all_findings_come_sorted_by_priority() {
    let f = PerformanceFindings {
        frame_time_over: true,
        frame_time_far_over: true,
        fps_below_target: true,
        fps_below_half_target: true,
        cpu_over: true,
        gpu_memory_over: true,
        audio_time_over: true,
    };
    let s = suggestions_for(f);
    assert_eq!(
        s,
        vec![
            OptimizationSuggestion::ReduceShaderComplexity,
            OptimizationSuggestion::LowerResolution,
            OptimizationSuggestion::DisableExpensiveEffects,
            OptimizationSuggestion::EnableFrameSkipping,
            OptimizationSuggestion::OptimizeTextureUsage,
            OptimizationSuggestion::ReduceAudioBufferSize,
            OptimizationSuggestion::ReduceAudioBufferSize
        ]
    );
    for w in s.windows(2) {
        assert!(w[0].priority() <= w[1].priority());
    }
}

#[test]
fn far_over_needs_over() {
    let f = PerformanceFindings { frame_time_far_over: true, fps_below_half_target: true, ..none() };
    assert!(suggestions_for(f).is_empty());
    let f = PerformanceFindings { cpu_over: true, ..none() };
    assert_eq!(suggestions_for(f), vec![OptimizationSuggestion::ReduceAudioBufferSize]);
}

#[test]
fn gpu_memory_threshold_in_mib() {
    assert!(!gpu_memory_exceeds(512 * 1024 * 1024, 512));
    assert!(gpu_memory_exceeds(512 * 1024 * 1024 + 1, 512));
}

#[test]
fn descriptions() {
    assert_eq!(
        OptimizationSuggestion::EnableFrameSkipping.description(),
        "Enable frame skipping to maintain target frame rate"
    );
    assert_eq!(OptimizationSuggestion::UseSimplerBlending.priority(), 8);
}
