//! Render modes and ray tracing options chosen in the UI or from the environment.
//!
//! Each option has a display label, the number the shaders read for it, and (where
//! the renderer accepts one) a textual configuration form. Configuration values are
//! compared in normal form: trimmed, ASCII lower case, without `_`, `-` and spaces.
use vstd::prelude::*;
use crate::text::{chars_eq_str, lemma_normalized_plain, normalize_config_value, normalized_config};

verus! {

// ---------------------------------------------------------------------------
// RenderMode
// ---------------------------------------------------------------------------

/// Which sub render graph the app uses to produce the image.
#[derive(Clone, Copy, Debug, PartialEq, Eq, Structural)]
pub enum RenderMode {
    Realtime,
    Offline,
}

impl Default for RenderMode {
    fn default() -> (m: Self)
        ensures
            m == RenderMode::Realtime,
    {
        RenderMode::Realtime
    }
}

impl RenderMode {
    pub const ALL: [Self; 2] = [Self::Realtime, Self::Offline];

    pub open spec fn label_text(self) -> Seq<char> {
        match self {
            RenderMode::Realtime => "Realtime"@,
            RenderMode::Offline => "Offline"@,
        }
    }

    /// The mode that a normalized configuration value names, if any.
    pub open spec fn from_normalized(n: Seq<char>) -> Option<RenderMode> {
        if n == "realtime"@ || n == "real"@ || n == "rt"@ {
            Some(RenderMode::Realtime)
        } else if n == "offline"@ || n == "groundtruth"@ || n == "gt"@ {
            Some(RenderMode::Offline)
        } else {
            None
        }
    }

    pub open spec fn initial_for(value: Option<Seq<char>>) -> RenderMode {
        match value {
            None => RenderMode::Realtime,
            Some(v) => match RenderMode::from_normalized(normalized_config(v)) {
                Some(m) => m,
                None => RenderMode::Realtime,
            },
        }
    }

    pub fn label(self) -> (l: &'static str)
        ensures
            l@ == self.label_text(),
    {
        match self {
            RenderMode::Realtime => "Realtime",
            RenderMode::Offline => "Offline",
        }
    }

    /// Parses a configuration value such as `"ground-truth"` or `" RT "`.
    pub fn from_config_value(value: &str) -> (m: Option<Self>)
        ensures
            m == RenderMode::from_normalized(normalized_config(value@)),
    {
        let n = normalize_config_value(value);
        if chars_eq_str(&n, "realtime") || chars_eq_str(&n, "real") || chars_eq_str(&n, "rt") {
            Some(RenderMode::Realtime)
        } else if chars_eq_str(&n, "offline") || chars_eq_str(&n, "groundtruth") || chars_eq_str(
            &n,
            "gt",
        ) {
            Some(RenderMode::Offline)
        } else {
            None
        }
    }

    /// The initial mode for the value of the mode variable (`None` when unset):
    /// `Realtime` unless the value names a mode.
    pub fn initial_from_env_value(value: Option<&str>) -> (m: Self)
        ensures
            m == RenderMode::initial_for(
                match value {
                    Some(v) => Some(v@),
                    None => None,
                },
            ),
    {
        match value {
            None => RenderMode::Realtime,
            Some(v) => match RenderMode::from_config_value(v) {
                Some(m) => m,
                None => RenderMode::Realtime,
            },
        }
    }
}

// ---------------------------------------------------------------------------
// RtSkySamplingMode
// ---------------------------------------------------------------------------

/// How the direct light from the HDRI sky is sampled.
#[derive(Clone, Copy, Debug, PartialEq, Eq, Structural)]
pub enum RtSkySamplingMode {
    Uniform,
    Importance,
}

impl RtSkySamplingMode {
    pub const ALL: [Self; 2] = [Self::Importance, Self::Uniform];

    pub open spec fn label_text(self) -> Seq<char> {
        match self {
            RtSkySamplingMode::Uniform => "uniform"@,
            RtSkySamplingMode::Importance => "importance"@,
        }
    }

    pub open spec fn shader_code(self) -> u32 {
        match self {
            RtSkySamplingMode::Uniform => 0,
            RtSkySamplingMode::Importance => 1,
        }
    }

    pub fn label(self) -> (l: &'static str)
        ensures
            l@ == self.label_text(),
    {
        match self {
            RtSkySamplingMode::Uniform => "uniform",
            RtSkySamplingMode::Importance => "importance",
        }
    }

    pub fn shader_mode(self) -> (c: u32)
        ensures
            c == self.shader_code(),
    {
        match self {
            RtSkySamplingMode::Uniform => 0,
            RtSkySamplingMode::Importance => 1,
        }
    }
}

// ---------------------------------------------------------------------------
// RtSharcMode
// ---------------------------------------------------------------------------

/// SHARC world-space radiance cache mode.
#[derive(Clone, Copy, Debug, PartialEq, Eq, Structural)]
pub enum RtSharcMode {
    /// The cache is not maintained.
    Off,
    /// The cache is updated and resolved but never queried.
    Update,
    /// The cache is maintained and queried.
    On,
}

impl Default for RtSharcMode {
    fn default() -> (m: Self)
        ensures
            m == RtSharcMode::Off,
    {
        RtSharcMode::Off
    }
}

impl RtSharcMode {
    pub const ALL: [Self; 3] = [Self::Off, Self::Update, Self::On];

    pub open spec fn label_text(self) -> Seq<char> {
        match self {
            RtSharcMode::Off => "Off"@,
            RtSharcMode::Update => "Update (no query)"@,
            RtSharcMode::On => "On (query)"@,
        }
    }

    pub open spec fn shader_code(self) -> u32 {
        match self {
            RtSharcMode::Off => 0,
            RtSharcMode::Update => 1,
            RtSharcMode::On => 2,
        }
    }

    pub open spec fn from_normalized(n: Seq<char>) -> Option<RtSharcMode> {
        if n == "off"@ {
            Some(RtSharcMode::Off)
        } else if n == "update"@ || n == "updateonly"@ {
            Some(RtSharcMode::Update)
        } else if n == "on"@ || n == "query"@ {
            Some(RtSharcMode::On)
        } else {
            None
        }
    }

    pub open spec fn initial_for(value: Option<Seq<char>>) -> RtSharcMode {
        match value {
            None => RtSharcMode::Off,
            Some(v) => match RtSharcMode::from_normalized(normalized_config(v)) {
                Some(m) => m,
                None => RtSharcMode::Off,
            },
        }
    }

    pub fn label(self) -> (l: &'static str)
        ensures
            l@ == self.label_text(),
    {
        match self {
            RtSharcMode::Off => "Off",
            RtSharcMode::Update => "Update (no query)",
            RtSharcMode::On => "On (query)",
        }
    }

    pub fn shader_mode(self) -> (c: u32)
        ensures
            c == self.shader_code(),
    {
        match self {
            RtSharcMode::Off => 0,
            RtSharcMode::Update => 1,
            RtSharcMode::On => 2,
        }
    }

    pub fn from_config_value(value: &str) -> (m: Option<Self>)
        ensures
            m == RtSharcMode::from_normalized(normalized_config(value@)),
    {
        let n = normalize_config_value(value);
        if chars_eq_str(&n, "off") {
            Some(RtSharcMode::Off)
        } else if chars_eq_str(&n, "update") || chars_eq_str(&n, "updateonly") {
            Some(RtSharcMode::Update)
        } else if chars_eq_str(&n, "on") || chars_eq_str(&n, "query") {
            Some(RtSharcMode::On)
        } else {
            None
        }
    }

    /// The initial mode for the value of the SHARC mode variable (`None` when unset):
    /// `Off` unless the value names a mode.
    pub fn initial_mode_from_env_value(value: Option<&str>) -> (m: Self)
        ensures
            m == RtSharcMode::initial_for(
                match value {
                    Some(v) => Some(v@),
                    None => None,
                },
            ),
    {
        match value {
            None => RtSharcMode::Off,
            Some(v) => match RtSharcMode::from_config_value(v) {
                Some(m) => m,
                None => RtSharcMode::Off,
            },
        }
    }
}

// ---------------------------------------------------------------------------
// RtRestirDiMode
// ---------------------------------------------------------------------------

/// ReSTIR DI mode of the primary visible surface.
#[derive(Clone, Copy, Debug, PartialEq, Eq, Structural)]
pub enum RtRestirDiMode {
    /// Unified NEE only.
    Off,
    /// Initial reservoir, visibility re-tested at final shading.
    InitialOnly,
    /// Initial reservoir plus temporal reuse of the previous frame.
    Temporal,
    /// Temporal reuse followed by spatial reuse.
    TemporalSpatial,
}

impl Default for RtRestirDiMode {
    fn default() -> (m: Self)
        ensures
            m == RtRestirDiMode::Off,
    {
        RtRestirDiMode::Off
    }
}

impl RtRestirDiMode {
    pub const ALL: [Self; 4] = [Self::Off, Self::InitialOnly, Self::Temporal, Self::TemporalSpatial];

    pub open spec fn label_text(self) -> Seq<char> {
        match self {
            RtRestirDiMode::Off => "Off"@,
            RtRestirDiMode::InitialOnly => "InitialOnly"@,
            RtRestirDiMode::Temporal => "Temporal"@,
            RtRestirDiMode::TemporalSpatial => "TemporalSpatial"@,
        }
    }

    pub open spec fn shader_code(self) -> u32 {
        match self {
            RtRestirDiMode::Off => 0,
            RtRestirDiMode::InitialOnly => 1,
            RtRestirDiMode::Temporal => 2,
            RtRestirDiMode::TemporalSpatial => 3,
        }
    }

    pub open spec fn from_normalized(n: Seq<char>) -> Option<RtRestirDiMode> {
        if n == "off"@ {
            Some(RtRestirDiMode::Off)
        } else if n == "initialonly"@ || n == "initial"@ {
            Some(RtRestirDiMode::InitialOnly)
        } else if n == "temporal"@ {
            Some(RtRestirDiMode::Temporal)
        } else if n == "temporalspatial"@ || n == "spatial"@ {
            Some(RtRestirDiMode::TemporalSpatial)
        } else {
            None
        }
    }

    pub open spec fn initial_for(value: Option<Seq<char>>) -> RtRestirDiMode {
        match value {
            None => RtRestirDiMode::Off,
            Some(v) => match RtRestirDiMode::from_normalized(normalized_config(v)) {
                Some(m) => m,
                None => RtRestirDiMode::Off,
            },
        }
    }

    pub fn label(self) -> (l: &'static str)
        ensures
            l@ == self.label_text(),
    {
        match self {
            RtRestirDiMode::Off => "Off",
            RtRestirDiMode::InitialOnly => "InitialOnly",
            RtRestirDiMode::Temporal => "Temporal",
            RtRestirDiMode::TemporalSpatial => "TemporalSpatial",
        }
    }

    pub fn shader_mode(self) -> (c: u32)
        ensures
            c == self.shader_code(),
    {
        match self {
            RtRestirDiMode::Off => 0,
            RtRestirDiMode::InitialOnly => 1,
            RtRestirDiMode::Temporal => 2,
            RtRestirDiMode::TemporalSpatial => 3,
        }
    }

    pub fn is_enabled(self) -> (b: bool)
        ensures
            b == (self != RtRestirDiMode::Off),
    {
        self != RtRestirDiMode::Off
    }

    pub fn from_config_value(value: &str) -> (m: Option<Self>)
        ensures
            m == RtRestirDiMode::from_normalized(normalized_config(value@)),
    {
        let n = normalize_config_value(value);
        if chars_eq_str(&n, "off") {
            Some(RtRestirDiMode::Off)
        } else if chars_eq_str(&n, "initialonly") || chars_eq_str(&n, "initial") {
            Some(RtRestirDiMode::InitialOnly)
        } else if chars_eq_str(&n, "temporal") {
            Some(RtRestirDiMode::Temporal)
        } else if chars_eq_str(&n, "temporalspatial") || chars_eq_str(&n, "spatial") {
            Some(RtRestirDiMode::TemporalSpatial)
        } else {
            None
        }
    }

    /// The initial mode for the value of the ReSTIR DI mode variable (`None` when
    /// unset): `Off` unless the value names a mode.
    pub fn initial_mode_from_env_value(value: Option<&str>) -> (m: Self)
        ensures
            m == RtRestirDiMode::initial_for(
                match value {
                    Some(v) => Some(v@),
                    None => None,
                },
            ),
    {
        match value {
            None => RtRestirDiMode::Off,
            Some(v) => match RtRestirDiMode::from_config_value(v) {
                Some(m) => m,
                None => RtRestirDiMode::Off,
            },
        }
    }
}

// ---------------------------------------------------------------------------
// RtDebugChannel
// ---------------------------------------------------------------------------

/// Debug output channel of the ray tracing passes.
#[derive(Clone, Copy, Debug, PartialEq, Eq, Structural)]
pub enum RtDebugChannel {
    Final,
    ForwardNormal,
    WorldNormal,
    ObjectNormal,
    BaseColor,
    NeeHdri,
    Emission,
    BrdfHdri,
    NeeBounce0,
    NeeBounce1,
    NeeEmissive,
    NeeAnalytic,
    MaterialType,
    DeltaMask,
    SpecularMotionMagnitude,
    RestirInitialWeight,
    RestirTemporalValid,
    RestirFinalContribution,
    SharcHashGrid,
    SharcCache,
    SharcQueryDepth,
}

impl RtDebugChannel {
    pub const ALL: [Self; 21] = [
        Self::Final,
        Self::ForwardNormal,
        Self::WorldNormal,
        Self::ObjectNormal,
        Self::BaseColor,
        Self::NeeHdri,
        Self::Emission,
        Self::BrdfHdri,
        Self::NeeBounce0,
        Self::NeeBounce1,
        Self::NeeEmissive,
        Self::NeeAnalytic,
        Self::MaterialType,
        Self::DeltaMask,
        Self::SpecularMotionMagnitude,
        Self::RestirInitialWeight,
        Self::RestirTemporalValid,
        Self::RestirFinalContribution,
        Self::SharcHashGrid,
        Self::SharcCache,
        Self::SharcQueryDepth,
    ];

    pub open spec fn label_text(self) -> Seq<char> {
        match self {
            RtDebugChannel::Final => "final"@,
            RtDebugChannel::ForwardNormal => "forward normal"@,
            RtDebugChannel::WorldNormal => "world normal"@,
            RtDebugChannel::ObjectNormal => "object normal"@,
            RtDebugChannel::BaseColor => "base color"@,
            RtDebugChannel::NeeHdri => "from NEE HDRI"@,
            RtDebugChannel::Emission => "from emission"@,
            RtDebugChannel::BrdfHdri => "from BRDF HDRI"@,
            RtDebugChannel::NeeBounce0 => "NEE bounce 0"@,
            RtDebugChannel::NeeBounce1 => "NEE bounce 1"@,
            RtDebugChannel::NeeEmissive => "from NEE emissive"@,
            RtDebugChannel::NeeAnalytic => "from NEE analytic"@,
            RtDebugChannel::MaterialType => "material type"@,
            RtDebugChannel::DeltaMask => "delta mask"@,
            RtDebugChannel::SpecularMotionMagnitude => "specular motion magnitude"@,
            RtDebugChannel::RestirInitialWeight => "ReSTIR initial weight"@,
            RtDebugChannel::RestirTemporalValid => "ReSTIR temporal valid"@,
            RtDebugChannel::RestirFinalContribution => "ReSTIR final contribution"@,
            RtDebugChannel::SharcHashGrid => "SHARC hash grid"@,
            RtDebugChannel::SharcCache => "SHARC cache radiance"@,
            RtDebugChannel::SharcQueryDepth => "SHARC query depth"@,
        }
    }

    pub open spec fn shader_code(self) -> u32 {
        match self {
            RtDebugChannel::Final => 0,
            RtDebugChannel::ForwardNormal => 1,
            RtDebugChannel::WorldNormal => 10,
            RtDebugChannel::ObjectNormal => 11,
            RtDebugChannel::BaseColor => 2,
            RtDebugChannel::NeeHdri => 4,
            RtDebugChannel::Emission => 5,
            RtDebugChannel::BrdfHdri => 6,
            RtDebugChannel::NeeBounce0 => 7,
            RtDebugChannel::NeeBounce1 => 8,
            RtDebugChannel::NeeEmissive => 9,
            RtDebugChannel::NeeAnalytic => 12,
            RtDebugChannel::MaterialType => 16,
            RtDebugChannel::DeltaMask => 17,
            RtDebugChannel::SpecularMotionMagnitude => 18,
            RtDebugChannel::RestirInitialWeight => 13,
            RtDebugChannel::RestirTemporalValid => 14,
            RtDebugChannel::RestirFinalContribution => 15,
            RtDebugChannel::SharcHashGrid => 19,
            RtDebugChannel::SharcCache => 20,
            RtDebugChannel::SharcQueryDepth => 21,
        }
    }

    /// Channels that only the realtime pipeline produces (ReSTIR, specular motion,
    /// SHARC); the offline pipeline has no source for them.
    pub open spec fn is_realtime_only(self) -> bool {
        match self {
            RtDebugChannel::RestirInitialWeight | RtDebugChannel::RestirTemporalValid
            | RtDebugChannel::RestirFinalContribution | RtDebugChannel::SpecularMotionMagnitude
            | RtDebugChannel::SharcHashGrid | RtDebugChannel::SharcCache
            | RtDebugChannel::SharcQueryDepth => true,
            _ => false,
        }
    }

    pub fn label(self) -> (l: &'static str)
        ensures
            l@ == self.label_text(),
    {
        match self {
            RtDebugChannel::Final => "final",
            RtDebugChannel::ForwardNormal => "forward normal",
            RtDebugChannel::WorldNormal => "world normal",
            RtDebugChannel::ObjectNormal => "object normal",
            RtDebugChannel::BaseColor => "base color",
            RtDebugChannel::NeeHdri => "from NEE HDRI",
            RtDebugChannel::Emission => "from emission",
            RtDebugChannel::BrdfHdri => "from BRDF HDRI",
            RtDebugChannel::NeeBounce0 => "NEE bounce 0",
            RtDebugChannel::NeeBounce1 => "NEE bounce 1",
            RtDebugChannel::NeeEmissive => "from NEE emissive",
            RtDebugChannel::NeeAnalytic => "from NEE analytic",
            RtDebugChannel::MaterialType => "material type",
            RtDebugChannel::DeltaMask => "delta mask",
            RtDebugChannel::SpecularMotionMagnitude => "specular motion magnitude",
            RtDebugChannel::RestirInitialWeight => "ReSTIR initial weight",
            RtDebugChannel::RestirTemporalValid => "ReSTIR temporal valid",
            RtDebugChannel::RestirFinalContribution => "ReSTIR final contribution",
            RtDebugChannel::SharcHashGrid => "SHARC hash grid",
            RtDebugChannel::SharcCache => "SHARC cache radiance",
            RtDebugChannel::SharcQueryDepth => "SHARC query depth",
        }
    }

    pub fn shader_channel(self) -> (c: u32)
        ensures
            c == self.shader_code(),
    {
        match self {
            RtDebugChannel::Final => 0,
            RtDebugChannel::ForwardNormal => 1,
            RtDebugChannel::WorldNormal => 10,
            RtDebugChannel::ObjectNormal => 11,
            RtDebugChannel::BaseColor => 2,
            RtDebugChannel::NeeHdri => 4,
            RtDebugChannel::Emission => 5,
            RtDebugChannel::BrdfHdri => 6,
            RtDebugChannel::NeeBounce0 => 7,
            RtDebugChannel::NeeBounce1 => 8,
            RtDebugChannel::NeeEmissive => 9,
            RtDebugChannel::NeeAnalytic => 12,
            RtDebugChannel::MaterialType => 16,
            RtDebugChannel::DeltaMask => 17,
            RtDebugChannel::SpecularMotionMagnitude => 18,
            RtDebugChannel::RestirInitialWeight => 13,
            RtDebugChannel::RestirTemporalValid => 14,
            RtDebugChannel::RestirFinalContribution => 15,
            RtDebugChannel::SharcHashGrid => 19,
            RtDebugChannel::SharcCache => 20,
            RtDebugChannel::SharcQueryDepth => 21,
        }
    }
}

// ---------------------------------------------------------------------------
// Laws
// ---------------------------------------------------------------------------

/// A render mode's label, read back as a configuration value, names that mode.
pub proof fn lemma_render_mode_label_round_trip(m: RenderMode)
    ensures
        RenderMode::from_normalized(normalized_config(m.label_text())) == Some(m),
{
    reveal_strlit("Realtime");
    reveal_strlit("realtime");
    reveal_strlit("Offline");
    reveal_strlit("offline");
    reveal_strlit("real");
    reveal_strlit("rt");
    let l = m.label_text();
    lemma_normalized_plain(l);
    match m {
        RenderMode::Realtime => {
            assert(l.map_values(|c: char| crate::text::ascii_lower(c)) =~= "realtime"@);
        },
        RenderMode::Offline => {
            assert(l.map_values(|c: char| crate::text::ascii_lower(c)) =~= "offline"@);
        },
    }
}

/// A ReSTIR DI mode's label, read back as a configuration value, names that mode.
pub proof fn lemma_restir_label_round_trip(m: RtRestirDiMode)
    ensures
        RtRestirDiMode::from_normalized(normalized_config(m.label_text())) == Some(m),
{
    reveal_strlit("Off");
    reveal_strlit("InitialOnly");
    reveal_strlit("Temporal");
    reveal_strlit("TemporalSpatial");
    reveal_strlit("off");
    reveal_strlit("initialonly");
    reveal_strlit("initial");
    reveal_strlit("temporal");
    reveal_strlit("temporalspatial");
    reveal_strlit("spatial");
    let l = m.label_text();
    lemma_normalized_plain(l);
    match m {
        RtRestirDiMode::Off => {
            assert(l.map_values(|c: char| crate::text::ascii_lower(c)) =~= "off"@);
        },
        RtRestirDiMode::InitialOnly => {
            assert(l.map_values(|c: char| crate::text::ascii_lower(c)) =~= "initialonly"@);
        },
        RtRestirDiMode::Temporal => {
            assert(l.map_values(|c: char| crate::text::ascii_lower(c)) =~= "temporal"@);
        },
        RtRestirDiMode::TemporalSpatial => {
            assert(l.map_values(|c: char| crate::text::ascii_lower(c)) =~= "temporalspatial"@);
        },
    }
}

/// Distinct sky sampling modes reach the shaders as distinct numbers.
pub proof fn lemma_sky_sampling_code_injective(a: RtSkySamplingMode, b: RtSkySamplingMode)
    ensures
        a.shader_code() == b.shader_code() ==> a == b,
{
}

/// Distinct SHARC modes reach the shaders as distinct numbers.
pub proof fn lemma_sharc_code_injective(a: RtSharcMode, b: RtSharcMode)
    ensures
        a.shader_code() == b.shader_code() ==> a == b,
{
}

/// Distinct ReSTIR DI modes reach the shaders as distinct numbers.
pub proof fn lemma_restir_code_injective(a: RtRestirDiMode, b: RtRestirDiMode)
    ensures
        a.shader_code() == b.shader_code() ==> a == b,
{
}

/// Distinct debug channels reach the shaders as distinct numbers, all below 22.
pub proof fn lemma_debug_channel_code_injective(a: RtDebugChannel, b: RtDebugChannel)
    ensures
        a.shader_code() == b.shader_code() ==> a == b,
        a.shader_code() < 22,
{
}


/// Distinct debug channels have distinct labels, so the channel menu never shows
/// two entries with the same text.
pub proof fn lemma_debug_channel_label_injective(a: RtDebugChannel, b: RtDebugChannel)
    ensures
        a.label_text() == b.label_text() ==> a == b,
{
    reveal_strlit("final");
    reveal_strlit("forward normal");
    reveal_strlit("world normal");
    reveal_strlit("object normal");
    reveal_strlit("base color");
    reveal_strlit("from NEE HDRI");
    reveal_strlit("from emission");
    reveal_strlit("from BRDF HDRI");
    reveal_strlit("NEE bounce 0");
    reveal_strlit("NEE bounce 1");
    reveal_strlit("from NEE emissive");
    reveal_strlit("from NEE analytic");
    reveal_strlit("material type");
    reveal_strlit("delta mask");
    reveal_strlit("specular motion magnitude");
    reveal_strlit("ReSTIR initial weight");
    reveal_strlit("ReSTIR temporal valid");
    reveal_strlit("ReSTIR final contribution");
    reveal_strlit("SHARC hash grid");
    reveal_strlit("SHARC cache radiance");
    reveal_strlit("SHARC query depth");
    let la = a.label_text();
    let lb = b.label_text();
    if la == lb {
        assert(la.len() == lb.len());
        assert(la[0] == lb[0]);
        assert(la[1] == lb[1]);
        assert(la[5] == lb[5]);
        assert(la[7] == lb[7]);
        assert(la[9] == lb[9]);
        assert(la[11] == lb[11]);
    }
}

} // verus!
