//! The DLSS passes. They own no GPU objects; evaluation itself goes through the
//! Streamline runtime.
use vstd::prelude::*;

verus! {

/// DLSS ray reconstruction pass.
#[derive(Clone, Copy, Debug)]
pub struct DlssRrPass;

impl DlssRrPass {
    pub fn new() -> (p: Self) {
        DlssRrPass
    }

    /// Releases the pass; it holds nothing.
    pub fn destroy(self) {
    }

    /// Ray reconstruction is evaluated only when super resolution is not off and ray
    /// reconstruction is enabled.
    pub fn should_evaluate(sr_mode_off: bool, rr_enabled: bool) -> (b: bool)
        ensures
            b == (!sr_mode_off && rr_enabled),
    {
        !sr_mode_off && rr_enabled
    }
}

/// DLSS super resolution pass.
#[derive(Clone, Copy, Debug)]
pub struct DlssSrPass;

impl DlssSrPass {
    pub fn new() -> (p: Self) {
        DlssSrPass
    }

    /// Super resolution (or DLAA) is evaluated only while it is active.
    pub fn should_evaluate(sr_active: bool) -> (b: bool)
        ensures
            b == sr_active,
    {
        sr_active
    }

    /// Releases the pass; it holds nothing.
    pub fn destroy(self) {
    }
}

} // verus!
