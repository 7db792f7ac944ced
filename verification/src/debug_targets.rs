//! The debug images each pipeline offers, and the state in which the GUI pass
//! imports each of them.
use vstd::prelude::*;

verus! {

/// Stable state of a debug image between render graphs.
#[derive(Clone, Copy, Debug, PartialEq, Eq, Structural)]
pub enum DebugImageGraphState {
    /// Storage image in the general layout.
    General,
    /// Left in the read-only layout in which the DLSS evaluation read it.
    StreamlineInputRead,
}

/// One debug image a pipeline offers.
#[derive(Clone, Copy, Debug)]
pub struct DebugImagePlan {
    pub id: &'static str,
    pub label: &'static str,
    pub graph_state: DebugImageGraphState,
}

pub open spec fn plan(id: &'static str, label: &'static str, graph_state: DebugImageGraphState) -> DebugImagePlan {
    DebugImagePlan { id, label, graph_state }
}

pub open spec fn state_if(read_by_dlss: bool) -> DebugImageGraphState {
    if read_by_dlss {
        DebugImageGraphState::StreamlineInputRead
    } else {
        DebugImageGraphState::General
    }
}

pub open spec fn realtime_debug_plan(dlss_active: bool, rr_active: bool) -> Seq<DebugImagePlan> {
    seq![
        plan("single-frame-rt", "Single Frame RT", state_if(dlss_active)),
        plan("main-view-color", "Main View Color", DebugImageGraphState::General),
        plan("dlss-output", "DLSS Output", DebugImageGraphState::General),
        plan("dlss-depth", "DLSS Depth", state_if(dlss_active)),
        plan("dlss-motion-vectors", "DLSS Motion Vectors", state_if(dlss_active)),
        plan("dlss-rr-diffuse-albedo", "DLSS RR Diffuse Albedo", state_if(rr_active)),
        plan("dlss-rr-specular-albedo", "DLSS RR Specular Albedo", state_if(rr_active)),
        plan("dlss-rr-specular-motion-vectors", "DLSS RR Specular Motion Vectors", state_if(rr_active)),
        plan("gbuffer-a", "GBuffer-A", state_if(rr_active)),
        plan("gbuffer-b", "GBuffer-B", DebugImageGraphState::General),
        plan("gbuffer-c", "GBuffer-C", DebugImageGraphState::General),
    ]
}

fn state_for(read_by_dlss: bool) -> (s: DebugImageGraphState)
    ensures
        s == state_if(read_by_dlss),
{
    if read_by_dlss {
        DebugImageGraphState::StreamlineInputRead
    } else {
        DebugImageGraphState::General
    }
}

/// The realtime pipeline's debug images. Inputs that DLSS read this frame stay in
/// its read-only layout: the super resolution inputs while any DLSS mode is active,
/// the ray reconstruction inputs (and GBuffer A) while ray reconstruction is.
pub fn realtime_debug_images(dlss_active: bool, rr_active: bool) -> (v: Vec<DebugImagePlan>)
    ensures
        v@ == realtime_debug_plan(dlss_active, rr_active),
{
    let sl = state_for(dlss_active);
    let rr = state_for(rr_active);
    let general = DebugImageGraphState::General;
    let mut v: Vec<DebugImagePlan> = Vec::new();
    v.push(DebugImagePlan { id: "single-frame-rt", label: "Single Frame RT", graph_state: sl });
    v.push(DebugImagePlan { id: "main-view-color", label: "Main View Color", graph_state: general });
    v.push(DebugImagePlan { id: "dlss-output", label: "DLSS Output", graph_state: general });
    v.push(DebugImagePlan { id: "dlss-depth", label: "DLSS Depth", graph_state: sl });
    v.push(DebugImagePlan { id: "dlss-motion-vectors", label: "DLSS Motion Vectors", graph_state: sl });
    v.push(DebugImagePlan { id: "dlss-rr-diffuse-albedo", label: "DLSS RR Diffuse Albedo", graph_state: rr });
    v.push(DebugImagePlan { id: "dlss-rr-specular-albedo", label: "DLSS RR Specular Albedo", graph_state: rr });
    v.push(
        DebugImagePlan {
            id: "dlss-rr-specular-motion-vectors",
            label: "DLSS RR Specular Motion Vectors",
            graph_state: rr,
        },
    );
    v.push(DebugImagePlan { id: "gbuffer-a", label: "GBuffer-A", graph_state: rr });
    v.push(DebugImagePlan { id: "gbuffer-b", label: "GBuffer-B", graph_state: general });
    v.push(DebugImagePlan { id: "gbuffer-c", label: "GBuffer-C", graph_state: general });
    assert(v@ =~= realtime_debug_plan(dlss_active, rr_active));
    v
}

pub open spec fn offline_debug_plan() -> Seq<DebugImagePlan> {
    seq![
        plan("offline-single-frame", "Offline Single Frame", DebugImageGraphState::General),
        plan("offline-accum", "Offline Accum", DebugImageGraphState::General),
        plan("offline-render-target", "Offline Render Target", DebugImageGraphState::General),
    ]
}

/// The offline pipeline's debug images; all stay in the general layout.
pub fn offline_debug_images() -> (v: Vec<DebugImagePlan>)
    ensures
        v@ == offline_debug_plan(),
{
    let mut v: Vec<DebugImagePlan> = Vec::new();
    v.push(
        DebugImagePlan {
            id: "offline-single-frame",
            label: "Offline Single Frame",
            graph_state: DebugImageGraphState::General,
        },
    );
    v.push(DebugImagePlan { id: "offline-accum", label: "Offline Accum", graph_state: DebugImageGraphState::General });
    v.push(
        DebugImagePlan {
            id: "offline-render-target",
            label: "Offline Render Target",
            graph_state: DebugImageGraphState::General,
        },
    );
    assert(v@ =~= offline_debug_plan());
    v
}


/// The images DLSS super resolution (and DLAA) reads: the ray traced color, depth
/// and motion vectors.
pub open spec fn read_by_dlss_sr(id: Seq<char>) -> bool {
    id == "single-frame-rt"@ || id == "dlss-depth"@ || id == "dlss-motion-vectors"@
}

/// The images only DLSS ray reconstruction reads: its albedo and specular motion
/// inputs and the normal/roughness GBuffer.
pub open spec fn read_by_dlss_rr(id: Seq<char>) -> bool {
    id == "dlss-rr-diffuse-albedo"@ || id == "dlss-rr-specular-albedo"@ || id
        == "dlss-rr-specular-motion-vectors"@ || id == "gbuffer-a"@
}

/// An image is offered in DLSS's read-only layout exactly when DLSS read it this
/// frame: the super resolution inputs while any DLSS mode is active, the ray
/// reconstruction inputs while ray reconstruction is; every other image is in the
/// general layout. Each of these inputs is offered.
pub proof fn lemma_realtime_debug_states(dlss_active: bool, rr_active: bool)
    ensures
        forall|i: int|
            0 <= i < realtime_debug_plan(dlss_active, rr_active).len() ==> {
                let p = #[trigger] realtime_debug_plan(dlss_active, rr_active)[i];
                &&& read_by_dlss_sr(p.id@) ==> (p.graph_state == DebugImageGraphState::StreamlineInputRead
                    <==> dlss_active)
                &&& read_by_dlss_rr(p.id@) ==> (p.graph_state == DebugImageGraphState::StreamlineInputRead
                    <==> rr_active)
                &&& !read_by_dlss_sr(p.id@) && !read_by_dlss_rr(p.id@) ==> p.graph_state
                    == DebugImageGraphState::General
            },
        forall|id: Seq<char>|
            read_by_dlss_sr(id) || read_by_dlss_rr(id) ==> exists|i: int|
                0 <= i < realtime_debug_plan(dlss_active, rr_active).len() && (#[trigger] realtime_debug_plan(
                    dlss_active,
                    rr_active,
                )[i]).id@ == id,
{
    reveal_strlit("single-frame-rt");
    reveal_strlit("main-view-color");
    reveal_strlit("dlss-output");
    reveal_strlit("dlss-depth");
    reveal_strlit("dlss-motion-vectors");
    reveal_strlit("dlss-rr-diffuse-albedo");
    reveal_strlit("dlss-rr-specular-albedo");
    reveal_strlit("dlss-rr-specular-motion-vectors");
    reveal_strlit("gbuffer-a");
    reveal_strlit("gbuffer-b");
    reveal_strlit("gbuffer-c");
    let plan = realtime_debug_plan(dlss_active, rr_active);
    assert("single-frame-rt"@.len() == 15);
    assert("main-view-color"@.len() == 15);
    assert("dlss-output"@.len() == 11);
    assert("dlss-depth"@.len() == 10);
    assert("dlss-motion-vectors"@.len() == 19);
    assert("dlss-rr-diffuse-albedo"@.len() == 22);
    assert("dlss-rr-specular-albedo"@.len() == 23);
    assert("dlss-rr-specular-motion-vectors"@.len() == 31);
    assert("gbuffer-a"@.len() == 9);
    assert("gbuffer-b"@.len() == 9);
    assert("gbuffer-c"@.len() == 9);
    assert("main-view-color"@[0] != "single-frame-rt"@[0]);
    assert("gbuffer-b"@[8] != "gbuffer-a"@[8]);
    assert("gbuffer-c"@[8] != "gbuffer-a"@[8]);
    assert forall|i: int| 0 <= i < plan.len() implies {
        let p = #[trigger] plan[i];
        &&& read_by_dlss_sr(p.id@) ==> (p.graph_state == DebugImageGraphState::StreamlineInputRead
            <==> dlss_active)
        &&& read_by_dlss_rr(p.id@) ==> (p.graph_state == DebugImageGraphState::StreamlineInputRead
            <==> rr_active)
        &&& !read_by_dlss_sr(p.id@) && !read_by_dlss_rr(p.id@) ==> p.graph_state
            == DebugImageGraphState::General
    } by {
        assert(0 <= i < 11);
        if i == 0 {
            assert(plan[0].id@ == "single-frame-rt"@);
            assert(read_by_dlss_sr("single-frame-rt"@));
            assert(!read_by_dlss_rr("single-frame-rt"@));
        } else if i == 1 {
            assert(plan[1].id@ == "main-view-color"@);
            assert(!read_by_dlss_sr("main-view-color"@));
            assert(!read_by_dlss_rr("main-view-color"@));
        } else if i == 2 {
            assert(plan[2].id@ == "dlss-output"@);
            assert(!read_by_dlss_sr("dlss-output"@));
            assert(!read_by_dlss_rr("dlss-output"@));
        } else if i == 3 {
            assert(plan[3].id@ == "dlss-depth"@);
            assert(read_by_dlss_sr("dlss-depth"@));
            assert(!read_by_dlss_rr("dlss-depth"@));
        } else if i == 4 {
            assert(plan[4].id@ == "dlss-motion-vectors"@);
            assert(read_by_dlss_sr("dlss-motion-vectors"@));
            assert(!read_by_dlss_rr("dlss-motion-vectors"@));
        } else if i == 5 {
            assert(plan[5].id@ == "dlss-rr-diffuse-albedo"@);
            assert(!read_by_dlss_sr("dlss-rr-diffuse-albedo"@));
            assert(read_by_dlss_rr("dlss-rr-diffuse-albedo"@));
        } else if i == 6 {
            assert(plan[6].id@ == "dlss-rr-specular-albedo"@);
            assert(!read_by_dlss_sr("dlss-rr-specular-albedo"@));
            assert(read_by_dlss_rr("dlss-rr-specular-albedo"@));
        } else if i == 7 {
            assert(plan[7].id@ == "dlss-rr-specular-motion-vectors"@);
            assert(!read_by_dlss_sr("dlss-rr-specular-motion-vectors"@));
            assert(read_by_dlss_rr("dlss-rr-specular-motion-vectors"@));
        } else if i == 8 {
            assert(plan[8].id@ == "gbuffer-a"@);
            assert(!read_by_dlss_sr("gbuffer-a"@));
            assert(read_by_dlss_rr("gbuffer-a"@));
        } else if i == 9 {
            assert(plan[9].id@ == "gbuffer-b"@);
            assert(!read_by_dlss_sr("gbuffer-b"@));
            assert(!read_by_dlss_rr("gbuffer-b"@));
        } else {
            assert(plan[10].id@ == "gbuffer-c"@);
            assert(!read_by_dlss_sr("gbuffer-c"@));
            assert(!read_by_dlss_rr("gbuffer-c"@));
        }
    }
    assert forall|id: Seq<char>|
        read_by_dlss_sr(id) || read_by_dlss_rr(id) implies exists|i: int|
            0 <= i < plan.len() && (#[trigger] plan[i]).id@ == id by {
        if id == "single-frame-rt"@ {
            assert(plan[0].id@ == id);
        } else if id == "dlss-depth"@ {
            assert(plan[3].id@ == id);
        } else if id == "dlss-motion-vectors"@ {
            assert(plan[4].id@ == id);
        } else if id == "dlss-rr-diffuse-albedo"@ {
            assert(plan[5].id@ == id);
        } else if id == "dlss-rr-specular-albedo"@ {
            assert(plan[6].id@ == id);
        } else if id == "dlss-rr-specular-motion-vectors"@ {
            assert(plan[7].id@ == id);
        } else {
            assert(plan[8].id@ == id);
        }
    }
}

} // verus!
