//! Direct3D common values: feature levels and driver types.

use vstd::prelude::*;

verus! {

/// The minimum Direct3D capability a device is asked for.
#[derive(Clone, Copy, Debug, PartialEq, Eq, Structural)]
pub enum FeatureLevel {
    V11,
    V11_1,
    V12,
}

impl FeatureLevel {
    /// The native feature-level code.
    pub open spec fn spec_value(self) -> u32 {
        match self {
            FeatureLevel::V11 => 0xb000,
            FeatureLevel::V11_1 => 0xb100,
            FeatureLevel::V12 => 0xc000,
        }
    }

    /// Converts the feature level to its native code.
    pub fn value(self) -> (r: u32)
        ensures
            r == self.spec_value(),
    {
        match self {
            FeatureLevel::V11 => 0xb000,
            FeatureLevel::V11_1 => 0xb100,
            FeatureLevel::V12 => 0xc000,
        }
    }
}

/// Driver type code that lets the adapter decide.
pub const DRIVER_TYPE_UNKNOWN: u32 = 0;

/// Driver type code for the hardware device.
pub const DRIVER_TYPE_HARDWARE: u32 = 1;

/// Chooses the driver type for device creation: the adapter decides when one
/// is named, the hardware driver otherwise.
pub fn driver_type(has_adapter: bool) -> (r: u32)
    ensures
        r == (if has_adapter { DRIVER_TYPE_UNKNOWN } else { DRIVER_TYPE_HARDWARE }),
{
    if has_adapter { DRIVER_TYPE_UNKNOWN } else { DRIVER_TYPE_HARDWARE }
}

} // verus!
