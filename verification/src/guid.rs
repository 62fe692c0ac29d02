//! Globally unique identifiers, as the four plain fields COM lays them out in.

use vstd::prelude::*;

verus! {

/// A COM GUID: one 32-bit field, two 16-bit fields and eight bytes.
#[derive(Clone, Copy, Debug, PartialEq, Eq)]
pub struct Guid {
    pub data1: u32,
    pub data2: u16,
    pub data3: u16,
    pub data4: [u8; 8],
}

/// The interface identifier of the DXGI debug interface.
pub open spec fn spec_dxgi_debug_iid() -> Guid {
    Guid {
        data1: 0x119e7452,
        data2: 0xde9e,
        data3: 0x40fe,
        data4: [0x88, 0x06, 0x88, 0xf9, 0x0c, 0x12, 0xb4, 0x41],
    }
}

/// Builds the interface identifier of the DXGI debug interface.
pub fn dxgi_debug_iid() -> (g: Guid)
    ensures
        g == spec_dxgi_debug_iid(),
{
    Guid {
        data1: 0x119e7452,
        data2: 0xde9e,
        data3: 0x40fe,
        data4: [0x88, 0x06, 0x88, 0xf9, 0x0c, 0x12, 0xb4, 0x41],
    }
}

/// The class identifier of the UI animation coordinator object.
pub open spec fn spec_uianimation_clsid() -> Guid {
    Guid {
        data1: 0xbfcd4a0c,
        data2: 0x06b6,
        data3: 0x4384,
        data4: [0xb7, 0x68, 0x0d, 0xaa, 0x79, 0x2c, 0x38, 0x0e],
    }
}

/// Builds the class identifier of the UI animation coordinator object.
pub fn uianimation_clsid() -> (g: Guid)
    ensures
        g == spec_uianimation_clsid(),
{
    Guid {
        data1: 0xbfcd4a0c,
        data2: 0x06b6,
        data3: 0x4384,
        data4: [0xb7, 0x68, 0x0d, 0xaa, 0x79, 0x2c, 0x38, 0x0e],
    }
}

/// The interface identifier of the UI animation timer interface.
pub open spec fn spec_uianimation_timer_iid() -> Guid {
    Guid {
        data1: 0x6b0efad1,
        data2: 0xa053,
        data3: 0x41d6,
        data4: [0x90, 0x85, 0x33, 0xa6, 0x89, 0x14, 0x46, 0x65],
    }
}

/// Builds the interface identifier of the UI animation timer interface.
pub fn uianimation_timer_iid() -> (g: Guid)
    ensures
        g == spec_uianimation_timer_iid(),
{
    Guid {
        data1: 0x6b0efad1,
        data2: 0xa053,
        data3: 0x41d6,
        data4: [0x90, 0x85, 0x33, 0xa6, 0x89, 0x14, 0x46, 0x65],
    }
}

} // verus!
