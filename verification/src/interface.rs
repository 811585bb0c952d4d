//! Backend abstraction surface of the native library.
//!
//! At context creation the caller supplies a table of backend callbacks
//! (create and destroy resources, schedule and execute GPU jobs, query
//! capabilities); the native library drives its passes through them.
//! The table itself is raw function pointers and lives with the
//! foreign declarations; this module fixes the numeric codes of the two
//! enums the callbacks receive: the compute pass being created and the
//! severity of a log message.

use vstd::prelude::*;

verus! {

/// Compute passes of the upscaler pipeline. The backend is asked to
/// create one pipeline per pass.
#[derive(Copy, Clone, Debug, Eq, PartialEq, Hash)]
pub enum FfxFsr2Pass {
    DepthClip,
    ReconstructPreviousDepth,
    Lock,
    Accumulate,
    AccumulateSharpen,
    Rcas,
    ComputeLuminancePyramid,
    GenerateReactive,
    TcrAutogenerate,
}

impl FfxFsr2Pass {
    /// Number of passes the pipeline comprises.
    pub const COUNT: usize = 9;

    /// Numeric code of the pass in the native ABI: the passes are
    /// numbered 0 through 8 in pipeline order.
    pub open spec fn spec_code(self) -> u8 {
        match self {
            FfxFsr2Pass::DepthClip => 0,
            FfxFsr2Pass::ReconstructPreviousDepth => 1,
            FfxFsr2Pass::Lock => 2,
            FfxFsr2Pass::Accumulate => 3,
            FfxFsr2Pass::AccumulateSharpen => 4,
            FfxFsr2Pass::Rcas => 5,
            FfxFsr2Pass::ComputeLuminancePyramid => 6,
            FfxFsr2Pass::GenerateReactive => 7,
            FfxFsr2Pass::TcrAutogenerate => 8,
        }
    }

    /// Returns the numeric code of this pass. Every code lies below
    /// [`FfxFsr2Pass::COUNT`].
    pub fn code(self) -> (r: u8)
        ensures
            r == self.spec_code(),
            (r as usize) < Self::COUNT,
    {
        match self {
            FfxFsr2Pass::DepthClip => 0,
            FfxFsr2Pass::ReconstructPreviousDepth => 1,
            FfxFsr2Pass::Lock => 2,
            FfxFsr2Pass::Accumulate => 3,
            FfxFsr2Pass::AccumulateSharpen => 4,
            FfxFsr2Pass::Rcas => 5,
            FfxFsr2Pass::ComputeLuminancePyramid => 6,
            FfxFsr2Pass::GenerateReactive => 7,
            FfxFsr2Pass::TcrAutogenerate => 8,
        }
    }
}

/// Severity of a message the native library hands to the caller's
/// logging callback.
#[derive(Copy, Clone, Debug, Eq, PartialEq, Hash)]
pub enum FfxFsr2MsgType {
    Error,
    Warning,
}

impl FfxFsr2MsgType {
    /// Number of message severities.
    pub const COUNT: usize = 2;

    /// Numeric code of the severity in the native ABI: 0 for an error,
    /// 1 for a warning.
    pub open spec fn spec_code(self) -> u8 {
        match self {
            FfxFsr2MsgType::Error => 0,
            FfxFsr2MsgType::Warning => 1,
        }
    }

    /// Returns the numeric code of this severity. Every code lies below
    /// [`FfxFsr2MsgType::COUNT`].
    pub fn code(self) -> (r: u8)
        ensures
            r == self.spec_code(),
            (r as usize) < Self::COUNT,
    {
        match self {
            FfxFsr2MsgType::Error => 0,
            FfxFsr2MsgType::Warning => 1,
        }
    }
}

} // verus!
