//! Offline (ground truth) path tracing: settings and sample accumulation.
//!
//! The offline pipeline accumulates samples into one history image. `OfflineAccumState`
//! counts the samples already fused there and hands out the per-dispatch sample
//! indices; a change of the accumulation signature discards the history.
use vstd::prelude::*;
use crate::render_modes::{RtDebugChannel, RtSkySamplingMode};

verus! {

/// Settings owned by the offline pipeline.
#[derive(Clone, Copy, Debug, PartialEq, Eq, Structural)]
pub struct OfflinePipelineSettings {
    pub ray_dispatch_count: u32,
    pub debug_channel: RtDebugChannel,
}

pub open spec fn clamp_dispatch(value: u32) -> u32 {
    if value < OfflinePipelineSettings::MIN_RAY_DISPATCH_COUNT {
        OfflinePipelineSettings::MIN_RAY_DISPATCH_COUNT
    } else if value > OfflinePipelineSettings::MAX_RAY_DISPATCH_COUNT {
        OfflinePipelineSettings::MAX_RAY_DISPATCH_COUNT
    } else {
        value
    }
}

impl Default for OfflinePipelineSettings {
    fn default() -> (s: Self)
        ensures
            s.ray_dispatch_count == OfflinePipelineSettings::MIN_RAY_DISPATCH_COUNT,
            s.debug_channel == RtDebugChannel::Final,
    {
        OfflinePipelineSettings {
            ray_dispatch_count: OfflinePipelineSettings::MIN_RAY_DISPATCH_COUNT,
            debug_channel: RtDebugChannel::Final,
        }
    }
}

impl OfflinePipelineSettings {
    pub const MIN_RAY_DISPATCH_COUNT: u32 = 1;

    pub const MAX_RAY_DISPATCH_COUNT: u32 = 8;

    /// `value` clamped to `[MIN_RAY_DISPATCH_COUNT, MAX_RAY_DISPATCH_COUNT]`.
    pub fn clamp_ray_dispatch_count(value: u32) -> (r: u32)
        ensures
            r == clamp_dispatch(value),
            OfflinePipelineSettings::MIN_RAY_DISPATCH_COUNT <= r
                <= OfflinePipelineSettings::MAX_RAY_DISPATCH_COUNT,
    {
        if value < Self::MIN_RAY_DISPATCH_COUNT {
            Self::MIN_RAY_DISPATCH_COUNT
        } else if value > Self::MAX_RAY_DISPATCH_COUNT {
            Self::MAX_RAY_DISPATCH_COUNT
        } else {
            value
        }
    }

    pub fn set_ray_dispatch_count(&mut self, value: u32)
        ensures
            final(self).ray_dispatch_count == clamp_dispatch(value),
            final(self).debug_channel == old(self).debug_channel,
    {
        self.ray_dispatch_count = Self::clamp_ray_dispatch_count(value);
    }

    /// The number of dispatches per frame actually used.
    pub fn effective_ray_dispatch_count(self) -> (r: u32)
        ensures
            r == clamp_dispatch(self.ray_dispatch_count),
    {
        Self::clamp_ray_dispatch_count(self.ray_dispatch_count)
    }

    /// The part of the accumulation signature that these settings and the shared
    /// path tracing settings determine. The dispatch count and the tone mapping are
    /// left out: they do not change the radiance of any sample.
    /// `sky_brightness_bits` is the bit pattern of the sky brightness factor.
    pub fn accum_signature(
        self,
        sky_sampling_mode: RtSkySamplingMode,
        sky_brightness_bits: u32,
        emissive_nee_enabled: bool,
        analytic_nee_enabled: bool,
    ) -> (s: OfflineSettingsAccumSignature)
        ensures
            s == (OfflineSettingsAccumSignature {
                debug_channel: self.debug_channel,
                sky_sampling_mode,
                sky_brightness_bits,
                emissive_nee_enabled,
                analytic_nee_enabled,
            }),
    {
        OfflineSettingsAccumSignature {
            debug_channel: self.debug_channel,
            sky_sampling_mode,
            sky_brightness_bits,
            emissive_nee_enabled,
            analytic_nee_enabled,
        }
    }
}

/// Settings that change the radiance of an offline sample; a change of any of them
/// makes the accumulated history unusable.
#[derive(Clone, Copy, Debug, PartialEq, Eq, Structural)]
pub struct OfflineSettingsAccumSignature {
    pub debug_channel: RtDebugChannel,
    pub sky_sampling_mode: RtSkySamplingMode,
    pub sky_brightness_bits: u32,
    pub emissive_nee_enabled: bool,
    pub analytic_nee_enabled: bool,
}

/// Inputs of one offline ray tracing dispatch.
#[derive(Clone, Copy, Debug, PartialEq, Eq, Structural)]
pub struct OfflineSampleState {
    /// Sample-per-pixel index, the stable seed of the shader's random numbers.
    pub spp_idx: u32,
    /// Samples already fused into the history before this one.
    pub accum_frames: u32,
    /// The 1-based index in the Halton sequence of this sample's sub-pixel jitter.
    pub jitter_sample_index: u32,
}

pub open spec fn sat_add(a: u32, b: u32) -> u32 {
    if a + b > u32::MAX {
        u32::MAX
    } else {
        (a + b) as u32
    }
}

/// The state of the `i`-th dispatch of a batch that starts after `start` samples.
pub open spec fn sample_at(start: u32, i: u32) -> OfflineSampleState {
    let index = sat_add(start, i);
    OfflineSampleState { spp_idx: index, accum_frames: index, jitter_sample_index: sat_add(index, 1) }
}

/// The states of a batch of `n` dispatches that starts after `start` samples.
pub open spec fn sample_batch(start: u32, n: u32) -> Seq<OfflineSampleState> {
    Seq::new(n as nat, |i: int| sample_at(start, i as u32))
}

/// Sample accumulation state of the offline pipeline.
pub struct OfflineAccumState {
    sample_count: u32,
    settings_signature: Option<OfflineSettingsAccumSignature>,
}

/// What the offline compute graph records this frame.
#[derive(Debug)]
pub enum OfflineComputePlan {
    /// No acceleration structure: every offline target is cleared to black.
    Clear,
    /// One ray tracing and accumulation pass per sample, then tone mapping.
    Accumulate(Vec<OfflineSampleState>),
}

impl OfflineAccumState {
    pub closed spec fn count(self) -> u32 {
        self.sample_count
    }

    pub closed spec fn signature(self) -> Option<OfflineSettingsAccumSignature> {
        self.settings_signature
    }

    pub fn new() -> (s: Self)
        ensures
            s.count() == 0,
            s.signature() is None,
    {
        OfflineAccumState { sample_count: 0, settings_signature: None }
    }

    /// The number of samples fused into the history.
    pub fn sample_count(&self) -> (c: u32)
        ensures
            c == self.count(),
    {
        self.sample_count
    }

    /// Discards the accumulated history.
    pub fn reset(&mut self)
        ensures
            final(self).count() == 0,
            final(self).signature() == old(self).signature(),
    {
        self.sample_count = 0;
    }

    /// Records this frame's signature. The history is discarded when the view or
    /// the scene changed (`view_scene_changed`, which the caller determines from the
    /// view and scene signatures) or when the settings signature differs from the
    /// recorded one (or none was recorded yet).
    pub fn update_signature(&mut self, settings: OfflineSettingsAccumSignature, view_scene_changed: bool)
        ensures
            final(self).signature() == Some(settings),
            final(self).count() == if view_scene_changed || old(self).signature() != Some(settings) {
                0
            } else {
                old(self).count()
            },
    {
        let same = match self.settings_signature {
            Some(previous) => previous == settings,
            None => false,
        };
        if view_scene_changed || !same {
            self.settings_signature = Some(settings);
            self.sample_count = 0;
        }
    }

    /// Hands out the sample states of the next `dispatch_count` dispatches (clamped
    /// to the allowed range) and advances the sample count past them, saturating at
    /// `u32::MAX`.
    pub fn take_next_sample_batch(&mut self, dispatch_count: u32) -> (batch: Vec<OfflineSampleState>)
        ensures
            batch@ == sample_batch(old(self).count(), clamp_dispatch(dispatch_count)),
            final(self).count() == sat_add(old(self).count(), clamp_dispatch(dispatch_count)),
            final(self).signature() == old(self).signature(),
    {
        let n = OfflinePipelineSettings::clamp_ray_dispatch_count(dispatch_count);
        let accum_frames = self.sample_count;
        let mut batch: Vec<OfflineSampleState> = Vec::new();
        let mut i: u32 = 0;
        while i < n
            invariant
                i <= n,
                batch@ == sample_batch(accum_frames, i),
            decreases n - i,
        {
            let index = accum_frames.saturating_add(i);
            batch.push(
                OfflineSampleState {
                    spp_idx: index,
                    accum_frames: index,
                    jitter_sample_index: index.saturating_add(1),
                },
            );
            assert(batch@ =~= sample_batch(accum_frames, (i + 1) as u32));
            i = i + 1;
        }
        self.sample_count = accum_frames.saturating_add(n);
        batch
    }

    /// Decides this frame's offline compute work. Without an acceleration structure
    /// the history is discarded and the targets are cleared; otherwise the next batch
    /// of samples is taken.
    pub fn plan_compute(&mut self, has_tlas: bool, dispatch_count: u32) -> (plan: OfflineComputePlan)
        ensures
            final(self).signature() == old(self).signature(),
            !has_tlas ==> plan == OfflineComputePlan::Clear && final(self).count() == 0,
            has_tlas ==> (plan matches OfflineComputePlan::Accumulate(b) && b@ == sample_batch(
                old(self).count(),
                clamp_dispatch(dispatch_count),
            )),
            has_tlas ==> final(self).count() == sat_add(old(self).count(), clamp_dispatch(dispatch_count)),
    {
        if !has_tlas {
            self.reset();
            OfflineComputePlan::Clear
        } else {
            OfflineComputePlan::Accumulate(self.take_next_sample_batch(dispatch_count))
        }
    }
}

impl Default for OfflineAccumState {
    fn default() -> (s: Self)
        ensures
            s.count() == 0,
            s.signature() is None,
    {
        OfflineAccumState::new()
    }
}

/// Taking two batches in a row hands out the same samples as one batch of their
/// combined size, as long as the count does not saturate.
pub proof fn lemma_batches_compose(start: u32, n1: u32, n2: u32)
    requires
        start + n1 + n2 <= u32::MAX,
    ensures
        sample_batch(start, n1) + sample_batch(sat_add(start, n1), n2) == sample_batch(
            start,
            (n1 + n2) as u32,
        ),
        sat_add(sat_add(start, n1), n2) == sat_add(start, (n1 + n2) as u32),
{
    assert(sample_batch(start, n1) + sample_batch(sat_add(start, n1), n2) =~= sample_batch(
        start,
        (n1 + n2) as u32,
    ));
}

/// Within a batch the sample indices are consecutive and each jitter index is the
/// 1-based position of its sample, as long as the count does not saturate.
pub proof fn lemma_batch_indices(start: u32, n: u32, i: int)
    requires
        start + n < u32::MAX,
        0 <= i < n,
    ensures
        sample_batch(start, n)[i].spp_idx == start + i,
        sample_batch(start, n)[i].accum_frames == start + i,
        sample_batch(start, n)[i].jitter_sample_index == start + i + 1,
{
}

} // verus!
