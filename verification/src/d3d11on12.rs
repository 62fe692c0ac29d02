//! Direct3D 11-on-12 interop: the creation flags the layered device takes.

use vstd::prelude::*;
use crate::d3d11::{CREATE_DEVICE_BGRA_SUPPORT, CREATE_DEVICE_DEBUG};

verus! {

/// The flags the layered device is created with: BGRA support and the
/// debug layer, each exactly when asked for.
pub fn layered_device_flags(bgra_support: bool, debug: bool) -> (r: u32)
    ensures
        r == (if bgra_support { CREATE_DEVICE_BGRA_SUPPORT } else { 0u32 }) | (if debug {
            CREATE_DEVICE_DEBUG
        } else {
            0u32
        }),
{
    (if bgra_support { CREATE_DEVICE_BGRA_SUPPORT } else { 0 }) | (if debug {
        CREATE_DEVICE_DEBUG
    } else {
        0
    })
}

} // verus!
