//! Direct2D models: antialiasing, gradients, figures, bitmap options and
//! creation settings, over plain values.

use vstd::prelude::*;

verus! {

/// Whether primitives are drawn with antialiasing.
#[derive(Clone, Copy, Debug, PartialEq, Eq, Structural)]
pub enum AntialiasMode {
    Aliased,
    PerPrimitive,
}

impl AntialiasMode {
    /// The native antialias-mode code.
    pub open spec fn spec_value(self) -> u32 {
        match self {
            AntialiasMode::PerPrimitive => 0,
            AntialiasMode::Aliased => 1,
        }
    }

    /// Converts the mode to its native code.
    pub fn value(self) -> (r: u32)
        ensures
            r == self.spec_value(),
    {
        match self {
            AntialiasMode::PerPrimitive => 0,
            AntialiasMode::Aliased => 1,
        }
    }
}

/// The gamma space gradient colors are interpolated in.
#[derive(Clone, Copy, Debug, PartialEq, Eq, Structural)]
pub enum Gamma {
    Linear,
    SRGB,
}

impl Gamma {
    /// The native gamma code.
    pub open spec fn spec_value(self) -> u32 {
        match self {
            Gamma::SRGB => 0,
            Gamma::Linear => 1,
        }
    }

    /// Converts the gamma to its native code.
    pub fn value(self) -> (r: u32)
        ensures
            r == self.spec_value(),
    {
        match self {
            Gamma::SRGB => 0,
            Gamma::Linear => 1,
        }
    }
}

/// How a gradient continues outside its stops.
#[derive(Clone, Copy, Debug, PartialEq, Eq, Structural)]
pub enum ExtendMode {
    Clamp,
    Wrap,
    Mirror,
}

impl ExtendMode {
    /// The native extend-mode code.
    pub open spec fn spec_value(self) -> u32 {
        match self {
            ExtendMode::Clamp => 0,
            ExtendMode::Wrap => 1,
            ExtendMode::Mirror => 2,
        }
    }

    /// Converts the mode to its native code.
    pub fn value(self) -> (r: u32)
        ensures
            r == self.spec_value(),
    {
        match self {
            ExtendMode::Clamp => 0,
            ExtendMode::Wrap => 1,
            ExtendMode::Mirror => 2,
        }
    }
}

/// The direction an arc is swept in.
#[derive(Clone, Copy, Debug, PartialEq, Eq, PartialOrd, Ord, Structural)]
pub enum SweepDirection {
    CCW,
    CW,
}

impl SweepDirection {
    /// The native sweep-direction code.
    pub open spec fn spec_value(self) -> u32 {
        match self {
            SweepDirection::CCW => 0,
            SweepDirection::CW => 1,
        }
    }

    /// Converts the direction to its native code.
    pub fn value(self) -> (r: u32)
        ensures
            r == self.spec_value(),
    {
        match self {
            SweepDirection::CCW => 0,
            SweepDirection::CW => 1,
        }
    }
}

/// Whether an arc spans more than half the ellipse.
#[derive(Clone, Copy, Debug, PartialEq, Eq, PartialOrd, Ord, Structural)]
pub enum ArcSize {
    Small,
    Large,
}

impl ArcSize {
    /// The native arc-size code.
    pub open spec fn spec_value(self) -> u32 {
        match self {
            ArcSize::Small => 0,
            ArcSize::Large => 1,
        }
    }

    /// Converts the size to its native code.
    pub fn value(self) -> (r: u32)
        ensures
            r == self.spec_value(),
    {
        match self {
            ArcSize::Small => 0,
            ArcSize::Large => 1,
        }
    }
}

/// Figure-begin code for a filled figure.
pub const FIGURE_BEGIN_FILLED: u32 = 0;

/// Figure-begin code for an outline-only figure.
pub const FIGURE_BEGIN_HOLLOW: u32 = 1;

/// Figure-end code that leaves the figure open.
pub const FIGURE_END_OPEN: u32 = 0;

/// Figure-end code that closes the figure.
pub const FIGURE_END_CLOSED: u32 = 1;

/// Chooses the figure-begin code: filled when asked, hollow otherwise.
pub fn figure_begin(fill: bool) -> (r: u32)
    ensures
        r == (if fill { FIGURE_BEGIN_FILLED } else { FIGURE_BEGIN_HOLLOW }),
{
    if fill { FIGURE_BEGIN_FILLED } else { FIGURE_BEGIN_HOLLOW }
}

/// Chooses the figure-end code: closed when asked, open otherwise.
pub fn figure_end(close: bool) -> (r: u32)
    ensures
        r == (if close { FIGURE_END_CLOSED } else { FIGURE_END_OPEN }),
{
    if close { FIGURE_END_CLOSED } else { FIGURE_END_OPEN }
}

/// Factory type code for single-threaded use.
pub const FACTORY_TYPE_SINGLE_THREADED: u32 = 0;

/// Factory type code for multi-threaded use.
pub const FACTORY_TYPE_MULTI_THREADED: u32 = 1;

/// Chooses the factory type from the multithreading wish.
pub fn factory_type(mt: bool) -> (r: u32)
    ensures
        r == (if mt { FACTORY_TYPE_MULTI_THREADED } else { FACTORY_TYPE_SINGLE_THREADED }),
{
    if mt { FACTORY_TYPE_MULTI_THREADED } else { FACTORY_TYPE_SINGLE_THREADED }
}

/// Debug level code that reports warnings.
pub const DEBUG_LEVEL_WARNING: u32 = 2;

/// The settings a Direct2D device is created with, over plain values.
#[derive(Clone, Copy, Debug, PartialEq, Eq, Structural)]
pub struct CreationProperties {
    pub debug_level: u32,
    pub threading_mode: u32,
    pub options: u32,
}

/// Builds the device creation settings: warnings reported, the threading
/// mode as asked, no context options.
pub fn creation_properties(mt: bool) -> (r: CreationProperties)
    ensures
        r.debug_level == DEBUG_LEVEL_WARNING,
        r.threading_mode == (if mt { FACTORY_TYPE_MULTI_THREADED } else {
            FACTORY_TYPE_SINGLE_THREADED
        }),
        r.options == 0,
{
    CreationProperties {
        debug_level: DEBUG_LEVEL_WARNING,
        threading_mode: factory_type(mt),
        options: 0,
    }
}

/// Device-context option that enables multithreaded optimizations.
pub const DEVICE_CONTEXT_OPTIONS_ENABLE_MULTITHREADED_OPTIMIZATIONS: u32 = 1;

/// Chooses the device-context options from the optimization wish.
pub fn device_context_options(enable_mt_optimizations: bool) -> (r: u32)
    ensures
        r == (if enable_mt_optimizations {
            DEVICE_CONTEXT_OPTIONS_ENABLE_MULTITHREADED_OPTIMIZATIONS
        } else {
            0u32
        }),
{
    if enable_mt_optimizations {
        DEVICE_CONTEXT_OPTIONS_ENABLE_MULTITHREADED_OPTIMIZATIONS
    } else {
        0
    }
}

/// Bitmap option that lets the bitmap serve as a render target.
pub const BITMAP_OPTIONS_TARGET: u32 = 0x1;

/// Bitmap option that forbids drawing the bitmap directly.
pub const BITMAP_OPTIONS_CANNOT_DRAW: u32 = 0x2;

/// The options of a render-target bitmap: always a target, and not
/// directly drawable when it wraps a DXGI surface.
pub fn render_target_bitmap_options(from_dxgi_surface: bool) -> (r: u32)
    ensures
        r == BITMAP_OPTIONS_TARGET | (if from_dxgi_surface {
            BITMAP_OPTIONS_CANNOT_DRAW
        } else {
            0u32
        }),
{
    BITMAP_OPTIONS_TARGET | (if from_dxgi_surface { BITMAP_OPTIONS_CANNOT_DRAW } else { 0 })
}

/// Render-target type code that lets the system choose.
pub const RENDER_TARGET_TYPE_DEFAULT: u32 = 0;

/// Alpha-mode code left unspecified.
pub const ALPHA_MODE_UNKNOWN: u32 = 0;

/// The integer-valued fields of the properties a window render target is
/// created with: everything left for the system to choose.
#[derive(Clone, Copy, Debug, PartialEq, Eq, Structural)]
pub struct HwndRenderTargetProperties {
    pub target_type: u32,
    pub pixel_format: u32,
    pub pixel_alpha_mode: u32,
    pub usage: u32,
    pub min_level: u32,
    pub pixel_width: u32,
    pub pixel_height: u32,
    pub present_options: u32,
}

/// Builds the defaulted properties of a window render target: default
/// type, unknown pixel format and alpha, no usage flags, no minimum
/// feature level, a zero initial size and no present options.
pub fn hwnd_render_target_properties() -> (r: HwndRenderTargetProperties)
    ensures
        r.target_type == RENDER_TARGET_TYPE_DEFAULT,
        r.pixel_format == 0,
        r.pixel_alpha_mode == ALPHA_MODE_UNKNOWN,
        r.usage == 0,
        r.min_level == 0,
        r.pixel_width == 0,
        r.pixel_height == 0,
        r.present_options == 0,
{
    HwndRenderTargetProperties {
        target_type: RENDER_TARGET_TYPE_DEFAULT,
        pixel_format: 0,
        pixel_alpha_mode: ALPHA_MODE_UNKNOWN,
        usage: 0,
        min_level: 0,
        pixel_width: 0,
        pixel_height: 0,
        present_options: 0,
    }
}

} // verus!
