//! Decisions of the realtime ray tracing pipeline that do not touch the GPU: the order
//! of the trace dispatches of one frame, the SHARC resolve grid, ReSTIR history
//! validity, frame-label rotation and the post-processing branch.
use vstd::prelude::*;
use crate::render_modes::{RtRestirDiMode, RtSharcMode};

verus! {

/// ReSTIR DI phase numbers read by the ray tracing shaders.
pub const RESTIR_DI_MODE_OFF: u32 = 0;
pub const RESTIR_DI_MODE_INITIAL_ONLY: u32 = 1;
pub const RESTIR_DI_MODE_TEMPORAL: u32 = 2;
pub const RESTIR_DI_MODE_TEMPORAL_SPATIAL: u32 = 3;
pub const RESTIR_DI_PHASE_PATH: u32 = 0;
pub const RESTIR_DI_PHASE_TEMPORAL: u32 = 1;
pub const RESTIR_DI_PHASE_SPATIAL: u32 = 2;
pub const RESTIR_DI_PHASE_FINAL: u32 = 3;

/// SHARC mode and sub-pass numbers read by the ray tracing shaders.
pub const SHARC_MODE_OFF: u32 = 0;
pub const SHARC_PHASE_NONE: u32 = 0;
pub const SHARC_PHASE_UPDATE: u32 = 1;
pub const SHARC_PHASE_RESOLVE: u32 = 2;

/// Width of the 2D grid that covers the SHARC cache entries in the resolve phase.
pub const SHARC_RESOLVE_DISPATCH_WIDTH: u32 = 2048;

/// The dispatch size of one trace.
#[derive(Clone, Copy, Debug, PartialEq, Eq, Structural)]
pub enum TraceExtent {
    /// The render extent of the frame.
    Render,
    /// The SHARC resolve grid.
    Grid { width: u32, height: u32 },
}

/// One command of the realtime ray tracing pass, in recording order.
#[derive(Clone, Copy, Debug, PartialEq, Eq, Structural)]
pub enum RtTraceStep {
    /// Push the constants with these phases and trace rays over `extent`.
    Trace { spp_idx: u32, restir_phase: u32, sharc_phase: u32, extent: TraceExtent },
    /// Read/write barrier over the images shared by consecutive phases.
    PhaseImageBarrier,
    /// Read/write memory barrier over the SHARC cache buffers.
    SharcBufferBarrier,
}

pub open spec fn div_ceil(a: int, b: int) -> int {
    (a + b - 1) / b
}

pub open spec fn sharc_grid_width(capacity: u32) -> u32 {
    let c = if capacity < 1 { 1 } else { capacity };
    if c < SHARC_RESOLVE_DISPATCH_WIDTH {
        c
    } else {
        SHARC_RESOLVE_DISPATCH_WIDTH
    }
}

pub open spec fn sharc_grid_height(capacity: u32) -> u32 {
    div_ceil(capacity as int, sharc_grid_width(capacity) as int) as u32
}

/// The resolve grid: at most `SHARC_RESOLVE_DISPATCH_WIDTH` wide, and just tall
/// enough to hold one thread per cache entry.
pub fn sharc_resolve_extent(capacity: u32) -> (r: (u32, u32))
    ensures
        r.0 == sharc_grid_width(capacity),
        r.1 == sharc_grid_height(capacity),
        r.0 >= 1,
        r.0 * r.1 >= capacity,
        r.1 > 0 ==> r.0 * (r.1 - 1) < capacity,
{
    let c = if capacity < 1 { 1 } else { capacity };
    let width = if c < SHARC_RESOLVE_DISPATCH_WIDTH { c } else { SHARC_RESOLVE_DISPATCH_WIDTH };
    let height = capacity / width + if capacity % width == 0 { 0 } else { 1 };
    proof {
        let w = width as int;
        let q = capacity as int / w;
        let m = capacity as int % w;
        assert(capacity as int == q * w + m) by (nonlinear_arith)
            requires
                w > 0,
                q == capacity as int / w,
                m == capacity as int % w,
        ;
        assert(0 <= m < w) by (nonlinear_arith)
            requires
                w > 0,
                m == capacity as int % w,
        ;
        assert(div_ceil(capacity as int, w) == height) by (nonlinear_arith)
            requires
                w > 0,
                capacity as int == q * w + m,
                0 <= m < w,
                height == q + if m == 0 { 0int } else { 1int },
        ;
        assert(w * height >= capacity) by (nonlinear_arith)
            requires
                w > 0,
                capacity as int == q * w + m,
                0 <= m < w,
                height == q + if m == 0 { 0int } else { 1int },
        ;
        assert(height > 0 ==> w * (height - 1) < capacity) by (nonlinear_arith)
            requires
                w > 0,
                capacity as int == q * w + m,
                0 <= m < w,
                height == q + if m == 0 { 0int } else { 1int },
        ;
    }
    (width, height)
}

/// A trace with the given phases.
pub open spec fn trace(spp_idx: u32, restir_phase: u32, sharc_phase: u32, extent: TraceExtent) -> RtTraceStep {
    RtTraceStep::Trace { spp_idx, restir_phase, sharc_phase, extent }
}

/// SHARC maintenance before path tracing: update over the render extent, then
/// resolve over the cache grid, each followed by a buffer barrier.
pub open spec fn sharc_steps(sharc_mode: u32, capacity: u32) -> Seq<RtTraceStep> {
    if sharc_mode == SHARC_MODE_OFF {
        Seq::empty()
    } else {
        seq![
            trace(0, RESTIR_DI_PHASE_PATH, SHARC_PHASE_UPDATE, TraceExtent::Render),
            RtTraceStep::SharcBufferBarrier,
            trace(
                0,
                RESTIR_DI_PHASE_PATH,
                SHARC_PHASE_RESOLVE,
                TraceExtent::Grid {
                    width: sharc_grid_width(capacity),
                    height: sharc_grid_height(capacity),
                },
            ),
            RtTraceStep::SharcBufferBarrier,
        ]
    }
}

/// The ReSTIR phases after the path phase of one sample.
pub open spec fn restir_tail(restir_mode: u32, s: u32) -> Seq<RtTraceStep> {
    if restir_mode == RESTIR_DI_MODE_OFF {
        Seq::empty()
    } else {
        let reuse = if restir_mode == RESTIR_DI_MODE_INITIAL_ONLY {
            Seq::empty()
        } else if restir_mode == RESTIR_DI_MODE_TEMPORAL_SPATIAL {
            seq![
                trace(s, RESTIR_DI_PHASE_TEMPORAL, SHARC_PHASE_NONE, TraceExtent::Render),
                RtTraceStep::PhaseImageBarrier,
                trace(s, RESTIR_DI_PHASE_SPATIAL, SHARC_PHASE_NONE, TraceExtent::Render),
                RtTraceStep::PhaseImageBarrier,
            ]
        } else {
            seq![
                trace(s, RESTIR_DI_PHASE_TEMPORAL, SHARC_PHASE_NONE, TraceExtent::Render),
                RtTraceStep::PhaseImageBarrier,
            ]
        };
        seq![RtTraceStep::PhaseImageBarrier] + reuse + seq![
            trace(s, RESTIR_DI_PHASE_FINAL, SHARC_PHASE_NONE, TraceExtent::Render),
        ]
    }
}

/// The commands of sample `s`: a barrier between samples, the path phase, and the
/// ReSTIR phases.
pub open spec fn sample_steps(restir_mode: u32, s: u32) -> Seq<RtTraceStep> {
    let lead = if s == 0 {
        Seq::empty()
    } else {
        seq![RtTraceStep::PhaseImageBarrier]
    };
    lead + seq![trace(s, RESTIR_DI_PHASE_PATH, SHARC_PHASE_NONE, TraceExtent::Render)] + restir_tail(
        restir_mode,
        s,
    )
}

/// The commands of samples `0..n`.
pub open spec fn samples_steps(restir_mode: u32, n: u32) -> Seq<RtTraceStep>
    decreases n,
{
    if n == 0 {
        Seq::empty()
    } else {
        samples_steps(restir_mode, (n - 1) as u32) + sample_steps(restir_mode, (n - 1) as u32)
    }
}

/// All commands of the realtime ray tracing pass.
pub open spec fn trace_schedule(restir_mode: u32, sharc_mode: u32, capacity: u32, spp: u32) -> Seq<RtTraceStep> {
    sharc_steps(sharc_mode, capacity) + samples_steps(restir_mode, spp)
}

pub open spec fn is_trace(step: RtTraceStep) -> bool {
    step is Trace
}

/// Appends the commands of sample `s`.
fn push_sample_steps(steps: &mut Vec<RtTraceStep>, restir_mode: u32, s: u32)
    ensures
        final(steps)@ == old(steps)@ + sample_steps(restir_mode, s),
{
    let ghost before = steps@;
    if s != 0 {
        steps.push(RtTraceStep::PhaseImageBarrier);
    }
    steps.push(
        RtTraceStep::Trace {
            spp_idx: s,
            restir_phase: RESTIR_DI_PHASE_PATH,
            sharc_phase: SHARC_PHASE_NONE,
            extent: TraceExtent::Render,
        },
    );
    if restir_mode != RESTIR_DI_MODE_OFF {
        steps.push(RtTraceStep::PhaseImageBarrier);
        if restir_mode != RESTIR_DI_MODE_INITIAL_ONLY {
            steps.push(
                RtTraceStep::Trace {
                    spp_idx: s,
                    restir_phase: RESTIR_DI_PHASE_TEMPORAL,
                    sharc_phase: SHARC_PHASE_NONE,
                    extent: TraceExtent::Render,
                },
            );
            steps.push(RtTraceStep::PhaseImageBarrier);
            if restir_mode == RESTIR_DI_MODE_TEMPORAL_SPATIAL {
                steps.push(
                    RtTraceStep::Trace {
                        spp_idx: s,
                        restir_phase: RESTIR_DI_PHASE_SPATIAL,
                        sharc_phase: SHARC_PHASE_NONE,
                        extent: TraceExtent::Render,
                    },
                );
                steps.push(RtTraceStep::PhaseImageBarrier);
            }
        }
        steps.push(
            RtTraceStep::Trace {
                spp_idx: s,
                restir_phase: RESTIR_DI_PHASE_FINAL,
                sharc_phase: SHARC_PHASE_NONE,
                extent: TraceExtent::Render,
            },
        );
    }
    assert(steps@ =~= before + sample_steps(restir_mode, s));
}

/// The order of the trace dispatches and barriers of one realtime ray tracing pass
/// with `spp` samples per pixel.
pub fn ray_trace_schedule(restir_mode: u32, sharc_mode: u32, sharc_capacity: u32, spp: u32) -> (steps: Vec<
    RtTraceStep,
>)
    ensures
        steps@ == trace_schedule(restir_mode, sharc_mode, sharc_capacity, spp),
{
    let mut steps: Vec<RtTraceStep> = Vec::new();
    if sharc_mode != SHARC_MODE_OFF {
        let (width, height) = sharc_resolve_extent(sharc_capacity);
        steps.push(
            RtTraceStep::Trace {
                spp_idx: 0,
                restir_phase: RESTIR_DI_PHASE_PATH,
                sharc_phase: SHARC_PHASE_UPDATE,
                extent: TraceExtent::Render,
            },
        );
        steps.push(RtTraceStep::SharcBufferBarrier);
        steps.push(
            RtTraceStep::Trace {
                spp_idx: 0,
                restir_phase: RESTIR_DI_PHASE_PATH,
                sharc_phase: SHARC_PHASE_RESOLVE,
                extent: TraceExtent::Grid { width, height },
            },
        );
        steps.push(RtTraceStep::SharcBufferBarrier);
    }
    assert(steps@ =~= sharc_steps(sharc_mode, sharc_capacity));
    let mut s: u32 = 0;
    while s < spp
        invariant
            s <= spp,
            steps@ == sharc_steps(sharc_mode, sharc_capacity) + samples_steps(restir_mode, s),
        decreases spp - s,
    {
        push_sample_steps(&mut steps, restir_mode, s);
        assert(samples_steps(restir_mode, (s + 1) as u32) == samples_steps(restir_mode, s)
            + sample_steps(restir_mode, s));
        assert(steps@ =~= sharc_steps(sharc_mode, sharc_capacity) + samples_steps(
            restir_mode,
            (s + 1) as u32,
        ));
        s = s + 1;
    }
    steps
}

// ---------------------------------------------------------------------------
// Laws of the schedule
// ---------------------------------------------------------------------------

pub open spec fn no_adjacent_traces(steps: Seq<RtTraceStep>) -> bool {
    forall|i: int| 0 <= i < steps.len() - 1 ==> !(is_trace(#[trigger] steps[i]) && is_trace(steps[i + 1]))
}

proof fn lemma_concat_no_adjacent(a: Seq<RtTraceStep>, b: Seq<RtTraceStep>)
    requires
        no_adjacent_traces(a),
        no_adjacent_traces(b),
        a.len() > 0 && b.len() > 0 ==> !(is_trace(a.last()) && is_trace(b[0])),
    ensures
        no_adjacent_traces(a + b),
{
    let c = a + b;
    assert forall|i: int| 0 <= i < c.len() - 1 implies !(is_trace(#[trigger] c[i]) && is_trace(
        c[i + 1],
    )) by {
        if i < a.len() - 1 {
            assert(c[i] == a[i] && c[i + 1] == a[i + 1]);
        } else if i == a.len() - 1 {
            assert(c[i] == a.last() && c[i + 1] == b[0]);
        } else {
            assert(c[i] == b[i - a.len()] && c[i + 1] == b[i - a.len() + 1]);
        }
    }
}

proof fn lemma_sample_steps_shape(restir_mode: u32, s: u32)
    ensures
        no_adjacent_traces(sample_steps(restir_mode, s)),
        sample_steps(restir_mode, s).len() > 0,
        is_trace(sample_steps(restir_mode, s).last()),
        s == 0 ==> is_trace(sample_steps(restir_mode, s)[0]),
        s != 0 ==> sample_steps(restir_mode, s)[0] == RtTraceStep::PhaseImageBarrier,
{
    let st = sample_steps(restir_mode, s);
    assert(no_adjacent_traces(st));
}

proof fn lemma_samples_steps_shape(restir_mode: u32, n: u32)
    ensures
        no_adjacent_traces(samples_steps(restir_mode, n)),
        n > 0 ==> is_trace(samples_steps(restir_mode, n)[0]),
        n > 0 ==> is_trace(samples_steps(restir_mode, n).last()),
        n == 0 ==> samples_steps(restir_mode, n).len() == 0,
    decreases n,
{
    if n > 0 {
        let m = (n - 1) as u32;
        lemma_samples_steps_shape(restir_mode, m);
        lemma_sample_steps_shape(restir_mode, m);
        lemma_concat_no_adjacent(samples_steps(restir_mode, m), sample_steps(restir_mode, m));
        let all = samples_steps(restir_mode, m) + sample_steps(restir_mode, m);
        assert(all.last() == sample_steps(restir_mode, m).last());
        if m == 0 {
            assert(all[0] == sample_steps(restir_mode, m)[0]);
        } else {
            assert(all[0] == samples_steps(restir_mode, m)[0]);
        }
    }
}

/// The commands of the realtime ray tracing pass for a frame whose top-level
/// acceleration structure is (`tlas_ready`) or is not ready: nothing is recorded
/// without one, otherwise the full schedule.
pub fn realtime_trace_plan(tlas_ready: bool, restir_mode: u32, sharc_mode: u32, sharc_capacity: u32, spp: u32) -> (steps: Vec<
    RtTraceStep,
>)
    ensures
        !tlas_ready ==> steps@.len() == 0,
        tlas_ready ==> steps@ == trace_schedule(restir_mode, sharc_mode, sharc_capacity, spp),
{
    if !tlas_ready {
        return Vec::new();
    }
    ray_trace_schedule(restir_mode, sharc_mode, sharc_capacity, spp)
}

/// Two trace dispatches are never recorded back to back: every phase's writes are
/// made visible by a barrier before the next dispatch reads them.
pub proof fn lemma_schedule_barrier_between_traces(
    restir_mode: u32,
    sharc_mode: u32,
    capacity: u32,
    spp: u32,
)
    ensures
        no_adjacent_traces(trace_schedule(restir_mode, sharc_mode, capacity, spp)),
{
    let sh = sharc_steps(sharc_mode, capacity);
    assert(no_adjacent_traces(sh));
    lemma_samples_steps_shape(restir_mode, spp);
    lemma_concat_no_adjacent(sh, samples_steps(restir_mode, spp));
}

/// With ReSTIR enabled, each sample ends with the final shading phase; with SHARC
/// enabled, the cache is updated and then resolved before any path tracing.
pub proof fn lemma_schedule_phase_order(restir_mode: u32, sharc_mode: u32, capacity: u32, spp: u32)
    ensures
        spp > 0 ==> trace_schedule(restir_mode, sharc_mode, capacity, spp).last() == trace(
            (spp - 1) as u32,
            if restir_mode == RESTIR_DI_MODE_OFF {
                RESTIR_DI_PHASE_PATH
            } else {
                RESTIR_DI_PHASE_FINAL
            },
            SHARC_PHASE_NONE,
            TraceExtent::Render,
        ),
        sharc_mode != SHARC_MODE_OFF ==> trace_schedule(restir_mode, sharc_mode, capacity, spp)[0]
            == trace(0, RESTIR_DI_PHASE_PATH, SHARC_PHASE_UPDATE, TraceExtent::Render),
        sharc_mode != SHARC_MODE_OFF ==> trace_schedule(restir_mode, sharc_mode, capacity, spp)[2]
            is Trace && trace_schedule(restir_mode, sharc_mode, capacity, spp)[2]->sharc_phase
            == SHARC_PHASE_RESOLVE,
{
    let sched = trace_schedule(restir_mode, sharc_mode, capacity, spp);
    let sh = sharc_steps(sharc_mode, capacity);
    if spp > 0 {
        let m = (spp - 1) as u32;
        let ss = samples_steps(restir_mode, spp);
        assert(ss == samples_steps(restir_mode, m) + sample_steps(restir_mode, m));
        assert(ss.last() == sample_steps(restir_mode, m).last());
        assert(sched.last() == ss.last());
    }
    if sharc_mode != SHARC_MODE_OFF {
        assert(sched[0] == sh[0]);
        assert(sched[2] == sh[2]);
    }
}

proof fn lemma_div_ceil_bounds(c: int, w: int)
    requires
        c >= 0,
        w > 0,
    ensures
        w * div_ceil(c, w) >= c,
        div_ceil(c, w) > 0 ==> w * (div_ceil(c, w) - 1) < c,
{
    let h = div_ceil(c, w);
    let q = (c + w - 1) / w;
    let m = (c + w - 1) % w;
    assert(c + w - 1 == q * w + m && 0 <= m < w) by (nonlinear_arith)
        requires
            w > 0,
            q == (c + w - 1) / w,
            m == (c + w - 1) % w,
    ;
    assert(w * h >= c && (h > 0 ==> w * (h - 1) < c)) by (nonlinear_arith)
        requires
            w > 0,
            c >= 0,
            h == q,
            c + w - 1 == q * w + m,
            0 <= m < w,
    ;
}

/// With SHARC on, in either of its modes, the third command resolves the cache
/// over a grid that depends on the capacity alone: one column per entry up to 2048
/// columns (at least one), and just enough rows that every cache entry gets a
/// thread and no row is wholly past the last entry.
pub proof fn lemma_sharc_resolve_covers_capacity(restir_mode: u32, sharc_mode: u32, capacity: u32, spp: u32)
    requires
        sharc_mode != 0,
    ensures
        trace_schedule(restir_mode, sharc_mode, capacity, spp)[2] matches RtTraceStep::Trace {
            spp_idx,
            restir_phase,
            sharc_phase,
            extent: TraceExtent::Grid { width, height },
        } && spp_idx == 0 && restir_phase == 0 && sharc_phase == 2 && width == (if capacity <= 1 {
            1
        } else if capacity <= 2048 {
            capacity
        } else {
            2048
        }) && width * height >= capacity && (height > 0 ==> width * (height - 1) < capacity),
        forall|other_mode: u32|
            other_mode != 0 ==> #[trigger] trace_schedule(restir_mode, other_mode, capacity, spp)[2]
                == trace_schedule(restir_mode, sharc_mode, capacity, spp)[2],
{
    let sched = trace_schedule(restir_mode, sharc_mode, capacity, spp);
    assert(sched[2] == sharc_steps(sharc_mode, capacity)[2]);
    let w = sharc_grid_width(capacity);
    lemma_div_ceil_bounds(capacity as int, w as int);
    assert forall|other_mode: u32|
        other_mode != 0 implies #[trigger] trace_schedule(restir_mode, other_mode, capacity, spp)[2]
            == sched[2] by {
        assert(trace_schedule(restir_mode, other_mode, capacity, spp)[2] == sharc_steps(other_mode, capacity)[2]);
    }
}

/// The ReSTIR DI numbers the shaders get are the ones the schedule branches on:
/// off is the "no ReSTIR" number, and each further mode adds one reuse stage.
pub proof fn lemma_restir_shader_codes_match_schedule(m: RtRestirDiMode)
    ensures
        (m.shader_code() == RESTIR_DI_MODE_OFF) <==> (m == RtRestirDiMode::Off),
        (m.shader_code() == RESTIR_DI_MODE_INITIAL_ONLY) <==> (m == RtRestirDiMode::InitialOnly),
        (m.shader_code() == RESTIR_DI_MODE_TEMPORAL) <==> (m == RtRestirDiMode::Temporal),
        (m.shader_code() == RESTIR_DI_MODE_TEMPORAL_SPATIAL) <==> (m == RtRestirDiMode::TemporalSpatial),
        RESTIR_DI_MODE_OFF == 0 && RESTIR_DI_MODE_INITIAL_ONLY == 1 && RESTIR_DI_MODE_TEMPORAL == 2
            && RESTIR_DI_MODE_TEMPORAL_SPATIAL == 3,
{
}

/// SHARC is off for the shaders exactly when the mode is off.
pub proof fn lemma_sharc_shader_code_matches_schedule(m: RtSharcMode)
    ensures
        (m.shader_code() == SHARC_MODE_OFF) <==> (m == RtSharcMode::Off),
        SHARC_MODE_OFF == 0,
{
}

// ---------------------------------------------------------------------------
// Frame-to-frame decisions
// ---------------------------------------------------------------------------

/// The in-flight frame slot used `1` frame before frame `frame_id`, with
/// `fif_count` slots in rotation.
#[verifier::spinoff_prover]
pub fn previous_frame_label(frame_id: u64, fif_count: u64) -> (l: u64)
    requires
        fif_count > 0,
    ensures
        l == (frame_id + fif_count - 1) % (fif_count as int),
        l < fif_count,
{
    let r = frame_id % fif_count;
    let l = if r == 0 { fif_count - 1 } else { r - 1 };
    proof {
        let f = fif_count as int;
        let q = frame_id as int / f;
        assert(frame_id as int == q * f + r && 0 <= r < f) by (nonlinear_arith)
            requires
                f > 0,
                q == frame_id as int / f,
                r == frame_id as int % f,
        ;
        let t = if r == 0 { q } else { q + 1 };
        assert(frame_id + f - 1 == t * f + l) by (nonlinear_arith)
            requires
                frame_id as int == q * f + r,
                t == if r == 0 { q } else { q + 1 },
                l == if r == 0 { f - 1 } else { r - 1 },
        ;
        vstd::arithmetic::div_mod::lemma_mod_multiples_vanish(t, l as int, f);
        vstd::arithmetic::div_mod::lemma_small_mod(l as nat, f as nat);
    }
    l
}

/// A ReSTIR DI image set of one in-flight frame slot.
#[derive(Clone, Copy, Debug, PartialEq, Eq, Structural)]
pub enum RestirTargetSet {
    /// Reservoirs of the initial candidates.
    Initial,
    /// Reservoirs after temporal reuse; the only ones that serve as next frame's history.
    Temporal,
    /// Reservoirs after spatial reuse; they serve the current frame only.
    Final,
    /// Primary surface keys.
    SurfaceKey,
}

/// The state in which the render graph imports an image.
#[derive(Clone, Copy, Debug, PartialEq, Eq, Structural)]
pub enum RestirImportState {
    /// Contents are discarded: the pass writes them anew.
    UndefinedTop,
    /// Contents are kept in the general layout, as last frame left them.
    General,
}

/// One ReSTIR DI import of the realtime compute graph.
#[derive(Clone, Copy, Debug)]
pub struct RestirImport {
    pub name_prefix: &'static str,
    pub set: RestirTargetSet,
    pub frame_label: u64,
    pub initial_state: RestirImportState,
}

pub open spec fn restir_import(
    name_prefix: &'static str,
    set: RestirTargetSet,
    frame_label: u64,
    initial_state: RestirImportState,
) -> RestirImport {
    RestirImport { name_prefix, set, frame_label, initial_state }
}

/// The imports, in order: the current slot's initial, temporal and final
/// reservoirs, the previous slot's temporal reservoir as history, the current
/// surface keys and the previous surface keys as history.
pub open spec fn restir_import_plan(frame_label: u64, previous_label: u64) -> Seq<RestirImport> {
    seq![
        restir_import("restir-di-initial", RestirTargetSet::Initial, frame_label, RestirImportState::UndefinedTop),
        restir_import("restir-di-temporal", RestirTargetSet::Temporal, frame_label, RestirImportState::UndefinedTop),
        restir_import("restir-di-final", RestirTargetSet::Final, frame_label, RestirImportState::UndefinedTop),
        restir_import("restir-di-history", RestirTargetSet::Temporal, previous_label, RestirImportState::General),
        restir_import("restir-di-surface", RestirTargetSet::SurfaceKey, frame_label, RestirImportState::UndefinedTop),
        restir_import(
            "restir-di-history-surface",
            RestirTargetSet::SurfaceKey,
            previous_label,
            RestirImportState::General,
        ),
    ]
}

/// The ReSTIR DI images the realtime compute graph imports for frame `frame_id`
/// in slot `frame_label`, with `fif_count` slots in rotation: the working sets of
/// the current slot, discarded, and the history of the previous slot, kept.
pub fn restir_imports(frame_id: u64, frame_label: u64, fif_count: u64) -> (v: Vec<RestirImport>)
    requires
        fif_count > 0,
    ensures
        v@ == restir_import_plan(frame_label, ((frame_id + fif_count - 1) % (fif_count as int)) as u64),
{
    let previous = previous_frame_label(frame_id, fif_count);
    let current = RestirImportState::UndefinedTop;
    let history = RestirImportState::General;
    let mut v: Vec<RestirImport> = Vec::new();
    v.push(RestirImport { name_prefix: "restir-di-initial", set: RestirTargetSet::Initial, frame_label, initial_state: current });
    v.push(RestirImport { name_prefix: "restir-di-temporal", set: RestirTargetSet::Temporal, frame_label, initial_state: current });
    v.push(RestirImport { name_prefix: "restir-di-final", set: RestirTargetSet::Final, frame_label, initial_state: current });
    v.push(
        RestirImport {
            name_prefix: "restir-di-history",
            set: RestirTargetSet::Temporal,
            frame_label: previous,
            initial_state: history,
        },
    );
    v.push(
        RestirImport {
            name_prefix: "restir-di-surface",
            set: RestirTargetSet::SurfaceKey,
            frame_label,
            initial_state: current,
        },
    );
    v.push(
        RestirImport {
            name_prefix: "restir-di-history-surface",
            set: RestirTargetSet::SurfaceKey,
            frame_label: previous,
            initial_state: history,
        },
    );
    assert(v@ =~= restir_import_plan(frame_label, previous));
    v
}

/// History is only ever read from the previous slot's temporal reservoirs and
/// surface keys, kept in the general layout; the final (spatially reused)
/// reservoirs are imported only for the current slot and are discarded.
pub proof fn lemma_restir_history_is_previous_temporal(frame_label: u64, previous_label: u64, i: int)
    requires
        0 <= i < restir_import_plan(frame_label, previous_label).len(),
    ensures
        ({
            let imp = restir_import_plan(frame_label, previous_label)[i];
            &&& imp.initial_state == RestirImportState::General ==> imp.frame_label == previous_label && (
            imp.set == RestirTargetSet::Temporal || imp.set == RestirTargetSet::SurfaceKey)
            &&& imp.initial_state == RestirImportState::UndefinedTop ==> imp.frame_label == frame_label
            &&& imp.set == RestirTargetSet::Final ==> imp.frame_label == frame_label
                && imp.initial_state == RestirImportState::UndefinedTop
        }),
        restir_import_plan(frame_label, previous_label).len() == 6,
{
}

/// Tracks the ReSTIR DI mode of the previous frame, so that a mode switch cuts off
/// the temporal history.
pub struct RestirHistoryTracker {
    last_mode: RtRestirDiMode,
}

impl RestirHistoryTracker {
    pub closed spec fn last(self) -> RtRestirDiMode {
        self.last_mode
    }

    pub fn new() -> (t: Self)
        ensures
            t.last() == RtRestirDiMode::Off,
    {
        RestirHistoryTracker { last_mode: RtRestirDiMode::Off }
    }

    /// Records this frame's mode and says whether last frame's reservoirs may be
    /// reused: ReSTIR is on, this is not the first frame, the mode did not change and
    /// the upscaler did not reset its history.
    pub fn observe(&mut self, mode: RtRestirDiMode, frame_id: u64, dlss_reset: bool) -> (valid: bool)
        ensures
            valid == (mode != RtRestirDiMode::Off && frame_id > 0 && old(self).last() == mode
                && !dlss_reset),
            final(self).last() == mode,
    {
        let valid = mode.is_enabled() && frame_id > 0 && self.last_mode == mode && !dlss_reset;
        self.last_mode = mode;
        valid
    }
}

impl Default for RestirHistoryTracker {
    fn default() -> (t: Self)
        ensures
            t.last() == RtRestirDiMode::Off,
    {
        RestirHistoryTracker::new()
    }
}

/// How the realtime color reaches the tone mapping pass.
#[derive(Clone, Copy, Debug, PartialEq, Eq, Structural)]
pub enum RealtimePostPath {
    /// DLSS ray reconstruction, tone mapped at the output extent.
    RayReconstruction,
    /// DLSS super resolution or DLAA, tone mapped at the output extent.
    SuperResolution,
    /// The native ray traced color, tone mapped from the render extent.
    Native,
}

/// Ray reconstruction takes precedence over super resolution.
pub fn realtime_post_path(rr_active: bool, sr_active: bool) -> (p: RealtimePostPath)
    ensures
        p == if rr_active {
            RealtimePostPath::RayReconstruction
        } else if sr_active {
            RealtimePostPath::SuperResolution
        } else {
            RealtimePostPath::Native
        },
{
    if rr_active {
        RealtimePostPath::RayReconstruction
    } else if sr_active {
        RealtimePostPath::SuperResolution
    } else {
        RealtimePostPath::Native
    }
}

} // verus!
