use vstd::prelude::*;

verus! {

/// The version that the firmware reports.
pub const CONF_VERSION: &'static str = "v1.0.0";

/// Whether the synthesizer is idle and may take a new frequency request.
#[derive(Debug, Clone, Copy, PartialEq, Eq, Structural)]
pub struct DdsFlag {
    pub available: bool,
}

impl DdsFlag {
    /// The flag at start-up: the synthesizer is idle.
    pub fn new() -> (flag: Self)
        ensures
            flag.available,
    {
        DdsFlag { available: true }
    }
}

/// Records that the synthesizer has become idle (`true`) or busy (`false`).
pub fn set_dds_available(flag: &mut DdsFlag, status: bool)
    ensures
        final(flag).available == status,
{
    flag.available = status;
}

/// Tells whether the synthesizer is idle.
pub fn is_dds_available(flag: &DdsFlag) -> (available: bool)
    ensures
        available == flag.available,
{
    flag.available
}

} // verus!
