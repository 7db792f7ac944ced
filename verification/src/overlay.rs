//! Decisions of the render control overlays that do not depend on the UI toolkit.
use vstd::prelude::*;
use crate::render_modes::{RenderMode, RtDebugChannel};

verus! {

pub open spec fn all_debug_channels() -> Seq<RtDebugChannel> {
    seq![
        RtDebugChannel::Final,
        RtDebugChannel::ForwardNormal,
        RtDebugChannel::WorldNormal,
        RtDebugChannel::ObjectNormal,
        RtDebugChannel::BaseColor,
        RtDebugChannel::NeeHdri,
        RtDebugChannel::Emission,
        RtDebugChannel::BrdfHdri,
        RtDebugChannel::NeeBounce0,
        RtDebugChannel::NeeBounce1,
        RtDebugChannel::NeeEmissive,
        RtDebugChannel::NeeAnalytic,
        RtDebugChannel::MaterialType,
        RtDebugChannel::DeltaMask,
        RtDebugChannel::SpecularMotionMagnitude,
        RtDebugChannel::RestirInitialWeight,
        RtDebugChannel::RestirTemporalValid,
        RtDebugChannel::RestirFinalContribution,
        RtDebugChannel::SharcHashGrid,
        RtDebugChannel::SharcCache,
        RtDebugChannel::SharcQueryDepth,
    ]
}

/// Whether the offline pipeline can show `channel` (it has no ReSTIR, specular
/// motion or SHARC data).
pub open spec fn offline_supports(channel: RtDebugChannel) -> bool {
    !channel.is_realtime_only()
}

/// The channels offered in the offline debug selector, in display order.
pub open spec fn offline_channel_choices() -> Seq<RtDebugChannel> {
    all_debug_channels().filter(|c: RtDebugChannel| offline_supports(c))
}

fn supports_offline(channel: RtDebugChannel) -> (b: bool)
    ensures
        b == offline_supports(channel),
{
    !matches!(
        channel,
        RtDebugChannel::RestirInitialWeight | RtDebugChannel::RestirTemporalValid
            | RtDebugChannel::RestirFinalContribution | RtDebugChannel::SpecularMotionMagnitude
            | RtDebugChannel::SharcHashGrid | RtDebugChannel::SharcCache
            | RtDebugChannel::SharcQueryDepth
    )
}

/// The channel the offline section shows: an unsupported channel falls back to
/// `Final`.
fn sanitized_offline_channel(channel: RtDebugChannel) -> (c: RtDebugChannel)
    ensures
        c == if offline_supports(channel) {
            channel
        } else {
            RtDebugChannel::Final
        },
{
    if supports_offline(channel) {
        channel
    } else {
        RtDebugChannel::Final
    }
}

fn offline_choices() -> (v: Vec<RtDebugChannel>)
    ensures
        v@ == offline_channel_choices(),
{
    let all = RtDebugChannel::ALL;
    let mut v: Vec<RtDebugChannel> = Vec::new();
    let mut i: usize = 0;
    assert(all@ == all_debug_channels());
    while i < 21
        invariant
            i <= 21,
            all@ == all_debug_channels(),
            v@ == all_debug_channels().subrange(0, i as int).filter(|c: RtDebugChannel| offline_supports(c)),
        decreases 21 - i,
    {
        let c = all[i];
        proof {
            reveal(Seq::filter);
            assert(all_debug_channels().subrange(0, i + 1).drop_last() =~= all_debug_channels().subrange(
                0,
                i as int,
            ));
        }
        if supports_offline(c) {
            v.push(c);
        }
        i = i + 1;
    }
    assert(all_debug_channels().subrange(0, 21) =~= all_debug_channels());
    v
}

/// The controls overlay shared by the path tracing apps.
#[derive(Clone, Copy, Debug, Default)]
pub struct PipelineControlsOverlay;

impl PipelineControlsOverlay {
    pub fn offline_supports_debug_channel(channel: RtDebugChannel) -> (b: bool)
        ensures
            b == offline_supports(channel),
    {
        supports_offline(channel)
    }

    /// The channel the offline section shows and stores back: unsupported channels
    /// fall back to `Final`.
    pub fn offline_debug_channel(channel: RtDebugChannel) -> (c: RtDebugChannel)
        ensures
            c == if offline_supports(channel) {
                channel
            } else {
                RtDebugChannel::Final
            },
    {
        sanitized_offline_channel(channel)
    }

    /// The channels the offline debug selector offers.
    pub fn offline_debug_channel_choices() -> (v: Vec<RtDebugChannel>)
        ensures
            v@ == offline_channel_choices(),
    {
        offline_choices()
    }

    /// The mode the overlay works with: an app without an offline pipeline is
    /// always in realtime mode.
    pub fn effective_render_mode(render_mode: RenderMode, offline_mode_supported: bool) -> (m: RenderMode)
        ensures
            m == if offline_mode_supported {
                render_mode
            } else {
                RenderMode::Realtime
            },
    {
        if offline_mode_supported {
            render_mode
        } else {
            RenderMode::Realtime
        }
    }

    /// DLSS controls are enabled only in realtime mode.
    pub fn dlss_controls_enabled(render_mode: RenderMode) -> (b: bool)
        ensures
            b == (render_mode == RenderMode::Realtime),
    {
        render_mode == RenderMode::Realtime
    }
}

/// The controls overlay of the renderer app.
#[derive(Clone, Copy, Debug, Default)]
pub struct RenderControlsOverlay;

impl RenderControlsOverlay {
    pub fn offline_supports_debug_channel(channel: RtDebugChannel) -> (b: bool)
        ensures
            b == offline_supports(channel),
    {
        supports_offline(channel)
    }

    /// The channel the offline section shows and stores back.
    pub fn offline_debug_channel(channel: RtDebugChannel) -> (c: RtDebugChannel)
        ensures
            c == if offline_supports(channel) {
                channel
            } else {
                RtDebugChannel::Final
            },
    {
        sanitized_offline_channel(channel)
    }

    /// The channels the offline debug selector offers.
    pub fn offline_debug_channel_choices() -> (v: Vec<RtDebugChannel>)
        ensures
            v@ == offline_channel_choices(),
    {
        offline_choices()
    }
}

/// The channel shown in offline mode is always one the offline pipeline produces,
/// and every choice offered there is one.
pub proof fn lemma_offline_channel_supported(channel: RtDebugChannel, i: int)
    ensures
        offline_supports(if offline_supports(channel) { channel } else { RtDebugChannel::Final }),
        0 <= i < offline_channel_choices().len() ==> offline_supports(offline_channel_choices()[i]),
{
    if 0 <= i < offline_channel_choices().len() {
        all_debug_channels().lemma_filter_pred(|c: RtDebugChannel| offline_supports(c), i);
    }
}

} // verus!
