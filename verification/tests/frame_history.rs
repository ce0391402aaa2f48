use sonic_flow::frame_history::{FrameCounts, FrameHistory};

fn counts(gpu: u64, draws: u32) -> FrameCounts {
    FrameCounts { gpu_memory: gpu, draw_calls: draws, vertex_count: 4, fragment_count: 100 }
}

#[test]
fn window_keeps_latest_frames() {
    let mut h = FrameHistory::new(3);
    for i in 1..=5u64 {
        h.record(counts(i * 10, i as u32));
    }
    assert_eq!(h.len(), 3);
    assert_eq!(h.peak_gpu_memory(), 50);
    assert_eq!(h.average_metrics(2), Some(FrameCounts {
        gpu_memory: 45,
        draw_calls: 4,
        vertex_count: 4,
        fragment_count: 100,
    }));
    assert_eq!(h.average_metrics(10), Some(FrameCounts {
        gpu_memory: 40,
        draw_calls: 4,
        vertex_count: 4,
        fragment_count: 100,
    }));
    assert_eq!(h.average_metrics(0), None);
    h.clear();
    assert_eq!(h.average_metrics(3), None);
    assert_eq!(h.peak_gpu_memory(), 0);
}

#[test]
fn zero_capacity_keeps_nothing() {
    let mut h = FrameHistory::new(0);
    h.record(counts(1, 1));
    assert_eq!(h.len(), 0);
}

#[test]
fn sums_that_overflow_are_reported() {
    let mut h = FrameHistory::new(4);
    h.record(counts(u64::MAX, 1));
    h.record(counts(1, 1));
    assert!(!h.average_fits(2));
    assert!(h.average_fits(1));
    assert_eq!(h.average_metrics(1).unwrap().gpu_memory, 1);
}
