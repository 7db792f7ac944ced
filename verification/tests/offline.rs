use truvis_app::offline::{
    OfflineAccumState, OfflineComputePlan, OfflinePipelineSettings, OfflineSampleState, OfflineSettingsAccumSignature,
};
use truvis_app::render_modes::{RtDebugChannel, RtSkySamplingMode};

fn signature(bits: u32) -> OfflineSettingsAccumSignature {
    OfflinePipelineSettings::default().accum_signature(RtSkySamplingMode::Importance, bits, true, true)
}

#[test]
fn dispatch_count_is_clamped() {
    assert_eq!(OfflinePipelineSettings::clamp_ray_dispatch_count(0), 1);
    assert_eq!(OfflinePipelineSettings::clamp_ray_dispatch_count(5), 5);
    assert_eq!(OfflinePipelineSettings::clamp_ray_dispatch_count(9), 8);
    let mut settings = OfflinePipelineSettings::default();
    assert_eq!(settings.ray_dispatch_count, 1);
    assert_eq!(settings.debug_channel, RtDebugChannel::Final);
    settings.set_ray_dispatch_count(100);
    assert_eq!(settings.ray_dispatch_count, 8);
    settings.ray_dispatch_count = 0;
    assert_eq!(settings.effective_ray_dispatch_count(), 1);
}

#[test]
fn accum_signature_keeps_fields() {
    let mut settings = OfflinePipelineSettings::default();
    settings.debug_channel = RtDebugChannel::BaseColor;
    let sig = settings.accum_signature(RtSkySamplingMode::Uniform, 8.0f32.to_bits(), false, true);
    assert_eq!(sig.debug_channel, RtDebugChannel::BaseColor);
    assert_eq!(sig.sky_sampling_mode, RtSkySamplingMode::Uniform);
    assert_eq!(sig.sky_brightness_bits, 8.0f32.to_bits());
    assert!(!sig.emissive_nee_enabled);
    assert!(sig.analytic_nee_enabled);
}

#[test]
fn sample_batches_are_consecutive() {
    let mut state = OfflineAccumState::new();
    let first = state.take_next_sample_batch(3);
    assert_eq!(
        first,
        vec![
            OfflineSampleState { spp_idx: 0, accum_frames: 0, jitter_sample_index: 1 },
            OfflineSampleState { spp_idx: 1, accum_frames: 1, jitter_sample_index: 2 },
            OfflineSampleState { spp_idx: 2, accum_frames: 2, jitter_sample_index: 3 },
        ]
    );
    assert_eq!(state.sample_count(), 3);
    let second = state.take_next_sample_batch(0);
    assert_eq!(second, vec![OfflineSampleState { spp_idx: 3, accum_frames: 3, jitter_sample_index: 4 }]);
    assert_eq!(state.sample_count(), 4);
    let third = state.take_next_sample_batch(20);
    assert_eq!(third.len(), 8);
    assert_eq!(third[7].spp_idx, 11);
    assert_eq!(state.sample_count(), 12);
}

#[test]
fn signature_change_resets_history() {
    let mut state = OfflineAccumState::default();
    state.update_signature(signature(1), false);
    state.take_next_sample_batch(4);
    state.update_signature(signature(1), false);
    assert_eq!(state.sample_count(), 4);
    state.update_signature(signature(1), true);
    assert_eq!(state.sample_count(), 0);
    state.take_next_sample_batch(2);
    state.update_signature(signature(2), false);
    assert_eq!(state.sample_count(), 0);
    state.take_next_sample_batch(2);
    state.reset();
    assert_eq!(state.sample_count(), 0);
}

#[test]
fn compute_plan_without_tlas_clears() {
    let mut state = OfflineAccumState::new();
    state.take_next_sample_batch(5);
    assert!(matches!(state.plan_compute(false, 4), OfflineComputePlan::Clear));
    assert_eq!(state.sample_count(), 0);
    match state.plan_compute(true, 2) {
        OfflineComputePlan::Accumulate(batch) => {
            assert_eq!(batch.len(), 2);
            assert_eq!(batch[1].spp_idx, 1);
        }
        OfflineComputePlan::Clear => panic!("expected accumulation"),
    }
    assert_eq!(state.sample_count(), 2);
}
