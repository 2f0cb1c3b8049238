use vstd::prelude::*;

verus! {

/// Which family of GPU backends the instance should be created with.
#[derive(Clone, Copy, PartialEq, Eq, Structural, Debug)]
pub enum Backend {
    /// The host's primary native backends.
    Primary,
    /// The GL-class backend used on constrained targets.
    Gl,
}

/// Which device limit set to request during device negotiation.
#[derive(Clone, Copy, PartialEq, Eq, Structural, Debug)]
pub enum LimitsPreset {
    /// The default feature/limit set.
    Full,
    /// The reduced limit set for constrained targets.
    Downlevel,
}

/// Platform-conditional choices, resolved once at startup, so that the
/// lifecycle logic is written once against the resolved values.
#[derive(Clone, Copy, PartialEq, Eq, Structural, Debug)]
pub struct HostProfile {
    /// Every requested drawable size is divided by this before use, to
    /// compensate for a platform pixel-ratio mismatch.
    pub pixel_ratio_divisor: u32,
    pub backend: Backend,
    pub limits: LimitsPreset,
}

impl HostProfile {
    pub open spec fn wf(self) -> bool {
        self.pixel_ratio_divisor >= 1
    }

    /// The profile of an ordinary native host: sizes are taken as reported.
    pub fn native() -> (p: HostProfile)
        ensures
            p == (HostProfile {
                pixel_ratio_divisor: 1,
                backend: Backend::Primary,
                limits: LimitsPreset::Full,
            }),
            p.wf(),
    {
        HostProfile { pixel_ratio_divisor: 1, backend: Backend::Primary, limits: LimitsPreset::Full }
    }

    /// The profile of a constrained host: sizes are halved before use, the
    /// GL-class backend is selected, and reduced device limits are requested.
    pub fn constrained() -> (p: HostProfile)
        ensures
            p == (HostProfile {
                pixel_ratio_divisor: 2,
                backend: Backend::Gl,
                limits: LimitsPreset::Downlevel,
            }),
            p.wf(),
    {
        HostProfile { pixel_ratio_divisor: 2, backend: Backend::Gl, limits: LimitsPreset::Downlevel }
    }
}

} // verus!
