//! DXGI descriptor models: pixel formats, alpha modes and swap-chain descriptions.

use vstd::prelude::*;
use crate::geometry::Size2U;
use crate::guid::Guid;

verus! {

/// A DXGI pixel format code.
pub type Format = u32;

pub const DXGI_FORMAT_UNKNOWN: Format = 0;
pub const DXGI_FORMAT_R32G32B32A32_FLOAT: Format = 2;
pub const DXGI_FORMAT_R32G32B32_FLOAT: Format = 6;
pub const DXGI_FORMAT_R32G32_FLOAT: Format = 16;
pub const DXGI_FORMAT_R8G8B8A8_UNORM: Format = 28;
pub const DXGI_FORMAT_R32_FLOAT: Format = 41;
pub const DXGI_FORMAT_R16_UINT: Format = 57;
pub const DXGI_FORMAT_B8G8R8A8_UNORM: Format = 87;

/// How the pixel alpha channel is interpreted by composition.
#[derive(Clone, Copy, Debug, PartialEq, Eq, Structural)]
pub enum AlphaMode {
    Unspecified,
    Premultiplied,
    Straight,
    Ignored,
}

impl AlphaMode {
    /// The code the native swap-chain description carries for this mode.
    pub open spec fn spec_value(self) -> u32 {
        match self {
            AlphaMode::Unspecified => 0,
            AlphaMode::Premultiplied => 1,
            AlphaMode::Straight => 2,
            AlphaMode::Ignored => 3,
        }
    }

    /// Converts the mode to its native code.
    pub fn value(self) -> (r: u32)
        ensures
            r == self.spec_value(),
    {
        match self {
            AlphaMode::Unspecified => 0,
            AlphaMode::Premultiplied => 1,
            AlphaMode::Straight => 2,
            AlphaMode::Ignored => 3,
        }
    }
}

/// Multisampling description: sample count and quality level.
#[derive(Clone, Copy, Debug, PartialEq, Eq, Structural)]
pub struct SampleDesc {
    pub count: u32,
    pub quality: u32,
}

impl SampleDesc {
    /// The description for no multisampling: one sample, quality zero.
    pub fn single() -> (r: SampleDesc)
        ensures
            r.count == 1,
            r.quality == 0,
    {
        SampleDesc { count: 1, quality: 0 }
    }
}

/// Buffer usage flag: the buffer serves as render-target output.
pub const DXGI_USAGE_RENDER_TARGET_OUTPUT: u32 = 0x20;

/// Flag that asks the DXGI factory for debug facilities.
pub const DXGI_CREATE_FACTORY_DEBUG: u32 = 0x1;

/// Swap-effect code for flip-model presentation without reuse of the back buffer.
pub const DXGI_SWAP_EFFECT_FLIP_SEQUENTIAL: u32 = 3;

/// Swap-effect code for flip-model presentation that discards the back buffer.
pub const DXGI_SWAP_EFFECT_FLIP_DISCARD: u32 = 4;

/// Scaling code that stretches the buffer to the output size.
pub const DXGI_SCALING_STRETCH: u32 = 0;

/// Chooses the factory creation flags: the debug flag exactly when asked for.
pub fn factory_flags(debug: bool) -> (r: u32)
    ensures
        r == (if debug { DXGI_CREATE_FACTORY_DEBUG } else { 0u32 }),
{
    if debug { DXGI_CREATE_FACTORY_DEBUG } else { 0 }
}

/// Chooses the flip-model swap effect: sequential when asked, discard otherwise.
pub fn swap_effect(use_sequential: bool) -> (r: u32)
    ensures
        r == (if use_sequential {
            DXGI_SWAP_EFFECT_FLIP_SEQUENTIAL
        } else {
            DXGI_SWAP_EFFECT_FLIP_DISCARD
        }),
{
    if use_sequential { DXGI_SWAP_EFFECT_FLIP_SEQUENTIAL } else { DXGI_SWAP_EFFECT_FLIP_DISCARD }
}

/// A swap-chain description over plain values, laid out as the native one is.
#[derive(Clone, Copy, Debug, PartialEq, Eq, Structural)]
pub struct SwapChainDesc {
    pub width: u32,
    pub height: u32,
    pub format: Format,
    pub stereo: bool,
    pub sample: SampleDesc,
    pub buffer_usage: u32,
    pub buffer_count: u32,
    pub scaling: u32,
    pub swap_effect: u32,
    pub alpha_mode: u32,
    pub flags: u32,
}

/// Builds the swap-chain description used for composition and window targets:
/// render-target usage, one sample, stretch scaling, a flip-model swap effect,
/// and the given size, format, alpha mode and buffer count.
pub fn swapchain_desc(
    init_size: Size2U,
    format: Format,
    alpha_mode: AlphaMode,
    buffer_count: usize,
    use_sequential: bool,
) -> (r: SwapChainDesc)
    requires
        buffer_count <= u32::MAX,
    ensures
        r.width == init_size.0,
        r.height == init_size.1,
        r.format == format,
        !r.stereo,
        r.sample == (SampleDesc { count: 1, quality: 0 }),
        r.buffer_usage == DXGI_USAGE_RENDER_TARGET_OUTPUT,
        r.buffer_count == buffer_count,
        r.scaling == DXGI_SCALING_STRETCH,
        r.swap_effect == (if use_sequential {
            DXGI_SWAP_EFFECT_FLIP_SEQUENTIAL
        } else {
            DXGI_SWAP_EFFECT_FLIP_DISCARD
        }),
        r.alpha_mode == alpha_mode.spec_value(),
        r.flags == 0,
{
    SwapChainDesc {
        width: init_size.width(),
        height: init_size.height(),
        format,
        stereo: false,
        sample: SampleDesc::single(),
        buffer_usage: DXGI_USAGE_RENDER_TARGET_OUTPUT,
        buffer_count: buffer_count as u32,
        scaling: DXGI_SCALING_STRETCH,
        swap_effect: swap_effect(use_sequential),
        alpha_mode: alpha_mode.value(),
        flags: 0,
    }
}

/// What a swap chain remembers from its creation for later resizes.
#[derive(Clone, Copy, Debug, PartialEq, Eq, Structural)]
pub struct SwapChainState {
    pub format: Format,
    pub buffer_count: u32,
}

/// The arguments a buffer resize passes to the native call.
#[derive(Clone, Copy, Debug, PartialEq, Eq, Structural)]
pub struct ResizeArgs {
    pub buffer_count: u32,
    pub width: u32,
    pub height: u32,
    pub format: Format,
    pub flags: u32,
}

/// Builds the arguments of a buffer resize: the remembered buffer count
/// and format, the new size, and no flags.
pub fn resize_args(state: &SwapChainState, new_size: Size2U) -> (r: ResizeArgs)
    ensures
        r.buffer_count == state.buffer_count,
        r.width == new_size.0,
        r.height == new_size.1,
        r.format == state.format,
        r.flags == 0,
{
    ResizeArgs {
        buffer_count: state.buffer_count,
        width: new_size.width(),
        height: new_size.height(),
        format: state.format,
        flags: 0,
    }
}

/// A region whose live objects the DXGI debug interface can report on.
#[derive(Clone, Copy, Debug, PartialEq, Eq, Structural)]
pub enum DebugRegion {
    All,
    DirectX,
    DXGI,
    App,
}

/// The GUID that selects every region in a live-object report.
pub open spec fn spec_debug_all_guid() -> Guid {
    Guid {
        data1: 0xe48ae283,
        data2: 0xda80,
        data3: 0x490b,
        data4: [0x87, 0xe6, 0x43, 0xe9, 0xa9, 0xcf, 0xda, 0x08],
    }
}

/// The GUID that selects the DirectX region in a live-object report.
pub open spec fn spec_debug_dx_guid() -> Guid {
    Guid {
        data1: 0x35cdd7fc,
        data2: 0x13b2,
        data3: 0x421d,
        data4: [0xa5, 0xd7, 0x7e, 0x44, 0x51, 0x28, 0x7d, 0x64],
    }
}

/// The GUID that selects the DXGI region in a live-object report.
pub open spec fn spec_debug_dxgi_guid() -> Guid {
    Guid {
        data1: 0x25cddaa4,
        data2: 0xb1c6,
        data3: 0x47e1,
        data4: [0xac, 0x3e, 0x98, 0x87, 0x5b, 0x5a, 0x2e, 0x2a],
    }
}

/// The GUID that selects the application region in a live-object report.
pub open spec fn spec_debug_app_guid() -> Guid {
    Guid {
        data1: 0x6cd6e01,
        data2: 0x4219,
        data3: 0x4ebd,
        data4: [0x87, 0x09, 0x27, 0xed, 0x23, 0x36, 0x0c, 0x62],
    }
}

/// The GUID a live-object report passes for the given region.
pub open spec fn spec_region_guid(region: DebugRegion) -> Guid {
    match region {
        DebugRegion::All => spec_debug_all_guid(),
        DebugRegion::DirectX => spec_debug_dx_guid(),
        DebugRegion::DXGI => spec_debug_dxgi_guid(),
        DebugRegion::App => spec_debug_app_guid(),
    }
}

/// Selects the GUID for the region a live-object report is asked about.
pub fn region_guid(region: DebugRegion) -> (g: Guid)
    ensures
        g == spec_region_guid(region),
{
    match region {
        DebugRegion::All => Guid {
            data1: 0xe48ae283,
            data2: 0xda80,
            data3: 0x490b,
            data4: [0x87, 0xe6, 0x43, 0xe9, 0xa9, 0xcf, 0xda, 0x08],
        },
        DebugRegion::DirectX => Guid {
            data1: 0x35cdd7fc,
            data2: 0x13b2,
            data3: 0x421d,
            data4: [0xa5, 0xd7, 0x7e, 0x44, 0x51, 0x28, 0x7d, 0x64],
        },
        DebugRegion::DXGI => Guid {
            data1: 0x25cddaa4,
            data2: 0xb1c6,
            data3: 0x47e1,
            data4: [0xac, 0x3e, 0x98, 0x87, 0x5b, 0x5a, 0x2e, 0x2a],
        },
        DebugRegion::App => Guid {
            data1: 0x6cd6e01,
            data2: 0x4219,
            data3: 0x4ebd,
            data4: [0x87, 0x09, 0x27, 0xed, 0x23, 0x36, 0x0c, 0x62],
        },
    }
}

/// Flag values for the scope of a live-object report.
pub const DXGI_DEBUG_RLO_SUMMARY: u8 = 0x01;
pub const DXGI_DEBUG_RLO_DETAIL: u8 = 0x02;
pub const DXGI_DEBUG_RLO_IGNORE_INTERNAL: u8 = 0x04;
pub const DXGI_DEBUG_RLO_ALL: u8 = 0x07;

} // verus!
