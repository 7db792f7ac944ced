//! Shader stage and shader group tables of the realtime ray tracing pipeline.
//!
//! The order of the stages is the order of the pipeline's stage array; groups refer
//! to stages by that index, and the order of the groups fixes the shader binding
//! table regions.
use vstd::prelude::*;

verus! {

#[derive(Clone, Copy, Debug, PartialEq, Eq, Structural)]
pub enum ShaderStages {
    RayGen,
    SkyMiss,
    ShadowMiss,
    ClosestHit,
    TransAny,
}

impl ShaderStages {
    pub const COUNT: usize = 5;

    pub open spec fn position(self) -> usize {
        match self {
            ShaderStages::RayGen => 0,
            ShaderStages::SkyMiss => 1,
            ShaderStages::ShadowMiss => 2,
            ShaderStages::ClosestHit => 3,
            ShaderStages::TransAny => 4,
        }
    }

    /// Index of the stage in the stage array.
    pub fn index(self) -> (i: usize)
        ensures
            i == self.position(),
            i < ShaderStages::COUNT,
    {
        match self {
            ShaderStages::RayGen => 0,
            ShaderStages::SkyMiss => 1,
            ShaderStages::ShadowMiss => 2,
            ShaderStages::ClosestHit => 3,
            ShaderStages::TransAny => 4,
        }
    }
}

#[derive(Clone, Copy, Debug, PartialEq, Eq, Structural)]
pub enum ShaderGroups {
    RayGen,
    SkyMiss,
    ShadowMiss,
    Hit,
}

/// The stages one shader group uses.
#[derive(Clone, Copy, Debug, PartialEq, Eq, Structural)]
pub enum ShaderGroupStages {
    /// A general group (ray generation or miss) with its one stage.
    General { general: usize },
    /// A triangle hit group with its closest-hit and any-hit stages.
    TrianglesHit { closest_hit: usize, any_hit: usize },
}

impl ShaderGroups {
    pub const COUNT: usize = 4;

    pub open spec fn position(self) -> usize {
        match self {
            ShaderGroups::RayGen => 0,
            ShaderGroups::SkyMiss => 1,
            ShaderGroups::ShadowMiss => 2,
            ShaderGroups::Hit => 3,
        }
    }

    /// Index of the group, which is also its shader binding table slot.
    pub fn index(self) -> (i: usize)
        ensures
            i == self.position(),
            i < ShaderGroups::COUNT,
    {
        match self {
            ShaderGroups::RayGen => 0,
            ShaderGroups::SkyMiss => 1,
            ShaderGroups::ShadowMiss => 2,
            ShaderGroups::Hit => 3,
        }
    }

    pub open spec fn stage_table(self) -> ShaderGroupStages {
        match self {
            ShaderGroups::RayGen => ShaderGroupStages::General { general: ShaderStages::RayGen.position() },
            ShaderGroups::SkyMiss => ShaderGroupStages::General { general: ShaderStages::SkyMiss.position() },
            ShaderGroups::ShadowMiss => ShaderGroupStages::General {
                general: ShaderStages::ShadowMiss.position(),
            },
            ShaderGroups::Hit => ShaderGroupStages::TrianglesHit {
                closest_hit: ShaderStages::ClosestHit.position(),
                any_hit: ShaderStages::TransAny.position(),
            },
        }
    }

    /// The stage indices this group refers to.
    pub fn stages(self) -> (s: ShaderGroupStages)
        ensures
            s == self.stage_table(),
    {
        match self {
            ShaderGroups::RayGen => ShaderGroupStages::General { general: ShaderStages::RayGen.index() },
            ShaderGroups::SkyMiss => ShaderGroupStages::General { general: ShaderStages::SkyMiss.index() },
            ShaderGroups::ShadowMiss => ShaderGroupStages::General {
                general: ShaderStages::ShadowMiss.index(),
            },
            ShaderGroups::Hit => ShaderGroupStages::TrianglesHit {
                closest_hit: ShaderStages::ClosestHit.index(),
                any_hit: ShaderStages::TransAny.index(),
            },
        }
    }
}

/// Every group refers only to existing stages, distinct groups occupy distinct
/// binding table slots, and each stage is used by exactly one group.
pub proof fn lemma_shader_tables_consistent(g: ShaderGroups, h: ShaderGroups)
    ensures
        g.position() == h.position() ==> g == h,
        g.stage_table() matches ShaderGroupStages::General { general } ==> general
            < ShaderStages::COUNT,
        g.stage_table() matches ShaderGroupStages::TrianglesHit { closest_hit, any_hit }
            ==> closest_hit < ShaderStages::COUNT && any_hit < ShaderStages::COUNT && closest_hit
            != any_hit,
        g != h ==> match (g.stage_table(), h.stage_table()) {
            (ShaderGroupStages::General { general: a }, ShaderGroupStages::General { general: b }) => a != b,
            _ => true,
        },
{
}

} // verus!
