use truvis_app::render_modes::RtRestirDiMode;
use truvis_app::rt_schedule::{
    previous_frame_label, ray_trace_schedule, realtime_post_path, realtime_trace_plan, restir_imports,
    sharc_resolve_extent, RealtimePostPath, RestirHistoryTracker, RestirImportState, RestirTargetSet, RtTraceStep,
    TraceExtent,
};

fn t(spp_idx: u32, restir_phase: u32, sharc_phase: u32, extent: TraceExtent) -> RtTraceStep {
    RtTraceStep::Trace { spp_idx, restir_phase, sharc_phase, extent }
}

#[test]
fn schedule_without_restir_or_sharc_is_one_trace() {
    assert_eq!(ray_trace_schedule(0, 0, 100, 1), vec![t(0, 0, 0, TraceExtent::Render)]);
}

#[test]
fn schedule_temporal_spatial_with_sharc() {
    let steps = ray_trace_schedule(3, 1, 5000, 1);
    assert_eq!(
        steps,
        vec![
            t(0, 0, 1, TraceExtent::Render),
            RtTraceStep::SharcBufferBarrier,
            t(0, 0, 2, TraceExtent::Grid { width: 2048, height: 3 }),
            RtTraceStep::SharcBufferBarrier,
            t(0, 0, 0, TraceExtent::Render),
            RtTraceStep::PhaseImageBarrier,
            t(0, 1, 0, TraceExtent::Render),
            RtTraceStep::PhaseImageBarrier,
            t(0, 2, 0, TraceExtent::Render),
            RtTraceStep::PhaseImageBarrier,
            t(0, 3, 0, TraceExtent::Render),
        ]
    );
}

#[test]
fn schedule_initial_only_and_temporal() {
    assert_eq!(
        ray_trace_schedule(1, 0, 0, 1),
        vec![t(0, 0, 0, TraceExtent::Render), RtTraceStep::PhaseImageBarrier, t(0, 3, 0, TraceExtent::Render)]
    );
    assert_eq!(
        ray_trace_schedule(2, 0, 0, 1),
        vec![
            t(0, 0, 0, TraceExtent::Render),
            RtTraceStep::PhaseImageBarrier,
            t(0, 1, 0, TraceExtent::Render),
            RtTraceStep::PhaseImageBarrier,
            t(0, 3, 0, TraceExtent::Render),
        ]
    );
}

#[test]
fn schedule_two_samples_separated_by_barrier() {
    assert_eq!(
        ray_trace_schedule(0, 0, 0, 2),
        vec![t(0, 0, 0, TraceExtent::Render), RtTraceStep::PhaseImageBarrier, t(1, 0, 0, TraceExtent::Render)]
    );
    let steps = ray_trace_schedule(3, 2, 10, 3);
    for pair in steps.windows(2) {
        let both_traces = matches!(pair[0], RtTraceStep::Trace { .. }) && matches!(pair[1], RtTraceStep::Trace { .. });
        assert!(!both_traces);
    }
}

#[test]
fn sharc_grid_covers_capacity() {
    assert_eq!(sharc_resolve_extent(0), (1, 0));
    assert_eq!(sharc_resolve_extent(1), (1, 1));
    assert_eq!(sharc_resolve_extent(2048), (2048, 1));
    assert_eq!(sharc_resolve_extent(2049), (2048, 2));
    assert_eq!(sharc_resolve_extent(u32::MAX), (2048, 2097152));
}

#[test]
fn previous_label_rotates() {
    assert_eq!(previous_frame_label(0, 3), 2);
    assert_eq!(previous_frame_label(1, 3), 0);
    assert_eq!(previous_frame_label(5, 3), 1);
    assert_eq!(previous_frame_label(u64::MAX, 3), (u64::MAX - 1) % 3);
    assert_eq!(previous_frame_label(7, 1), 0);
}

#[test]
fn restir_history_requires_same_mode() {
    let mut tracker = RestirHistoryTracker::new();
    assert!(!tracker.observe(RtRestirDiMode::Temporal, 0, false));
    assert!(tracker.observe(RtRestirDiMode::Temporal, 1, false));
    assert!(!tracker.observe(RtRestirDiMode::Temporal, 2, true));
    assert!(!tracker.observe(RtRestirDiMode::TemporalSpatial, 3, false));
    assert!(tracker.observe(RtRestirDiMode::TemporalSpatial, 4, false));
    assert!(!tracker.observe(RtRestirDiMode::Off, 5, false));
    assert!(!tracker.observe(RtRestirDiMode::Off, 6, false));
}

#[test]
fn post_path_prefers_ray_reconstruction() {
    assert_eq!(realtime_post_path(true, true), RealtimePostPath::RayReconstruction);
    assert_eq!(realtime_post_path(false, true), RealtimePostPath::SuperResolution);
    assert_eq!(realtime_post_path(false, false), RealtimePostPath::Native);
}

#[test]
fn no_trace_without_tlas() {
    assert!(realtime_trace_plan(false, 3, 1, 4096, 2).is_empty());
    assert_eq!(realtime_trace_plan(true, 3, 1, 4096, 2), ray_trace_schedule(3, 1, 4096, 2));
    assert!(!realtime_trace_plan(true, 0, 0, 0, 1).is_empty());
}

#[test]
fn restir_history_comes_from_previous_temporal_slot() {
    let imports = restir_imports(7, 1, 3);
    let got: Vec<(&str, RestirTargetSet, u64, RestirImportState)> =
        imports.iter().map(|i| (i.name_prefix, i.set, i.frame_label, i.initial_state)).collect();
    let current = RestirImportState::UndefinedTop;
    let history = RestirImportState::General;
    assert_eq!(
        got,
        vec![
            ("restir-di-initial", RestirTargetSet::Initial, 1, current),
            ("restir-di-temporal", RestirTargetSet::Temporal, 1, current),
            ("restir-di-final", RestirTargetSet::Final, 1, current),
            ("restir-di-history", RestirTargetSet::Temporal, 0, history),
            ("restir-di-surface", RestirTargetSet::SurfaceKey, 1, current),
            ("restir-di-history-surface", RestirTargetSet::SurfaceKey, 0, history),
        ]
    );
    let wrapped = restir_imports(6, 0, 3);
    assert_eq!(wrapped[3].frame_label, 2);
    assert_eq!(wrapped[5].frame_label, 2);
}
