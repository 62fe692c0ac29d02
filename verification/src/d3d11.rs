//! Direct3D 11 descriptor models: bind flags, texture and buffer
//! descriptions, and device creation flags, over plain values.

use vstd::prelude::*;
use crate::dxgi::{Format, SampleDesc};

verus! {

/// Device creation flag that turns on the debug layer.
pub const CREATE_DEVICE_DEBUG: u32 = 0x2;

/// Device creation flag that adds BGRA surface support for Direct2D.
pub const CREATE_DEVICE_BGRA_SUPPORT: u32 = 0x20;

/// The SDK version constant device creation takes.
pub const SDK_VERSION: u32 = 7;

/// The flags a device is created with: the debug layer always, BGRA
/// support exactly when Direct2D compatibility is asked for.
pub fn device_creation_flags(compatible_d2d: bool) -> (r: u32)
    ensures
        r == (if compatible_d2d { CREATE_DEVICE_BGRA_SUPPORT } else { 0u32 })
            | CREATE_DEVICE_DEBUG,
{
    (if compatible_d2d { CREATE_DEVICE_BGRA_SUPPORT } else { 0 }) | CREATE_DEVICE_DEBUG
}

/// Which pipeline stages a resource may be bound to.
#[derive(Clone, Copy, Debug, PartialEq, Eq, Structural)]
pub struct BindFlags(pub u32);

pub const BIND_VERTEX_BUFFER: u32 = 0x1;
pub const BIND_INDEX_BUFFER: u32 = 0x2;
pub const BIND_CONSTANT_BUFFER: u32 = 0x4;
pub const BIND_SHADER_RESOURCE: u32 = 0x8;
pub const BIND_STREAM_OUTPUT: u32 = 0x10;
pub const BIND_RENDER_TARGET: u32 = 0x20;
pub const BIND_DEPTH_STENCIL: u32 = 0x40;
pub const BIND_UNORDERED_ACCESS: u32 = 0x80;

impl BindFlags {
    /// No bindings.
    pub fn new() -> (r: Self)
        ensures
            r.0 == 0,
    {
        BindFlags(0)
    }

    /// Adds the vertex-buffer binding.
    pub fn vertex_buffer(self) -> (r: Self)
        ensures
            r.0 == self.0 | BIND_VERTEX_BUFFER,
    {
        BindFlags(self.0 | BIND_VERTEX_BUFFER)
    }

    /// Adds the index-buffer binding.
    pub fn index_buffer(self) -> (r: Self)
        ensures
            r.0 == self.0 | BIND_INDEX_BUFFER,
    {
        BindFlags(self.0 | BIND_INDEX_BUFFER)
    }

    /// The constant-buffer binding alone; a constant buffer binds to
    /// nothing else.
    pub fn constant_buffer(self) -> (r: Self)
        ensures
            r.0 == BIND_CONSTANT_BUFFER,
    {
        BindFlags(BIND_CONSTANT_BUFFER)
    }

    /// Adds the shader-resource binding.
    pub fn shader_resource(self) -> (r: Self)
        ensures
            r.0 == self.0 | BIND_SHADER_RESOURCE,
    {
        BindFlags(self.0 | BIND_SHADER_RESOURCE)
    }

    /// Adds the stream-output binding.
    pub fn stream_output(self) -> (r: Self)
        ensures
            r.0 == self.0 | BIND_STREAM_OUTPUT,
    {
        BindFlags(self.0 | BIND_STREAM_OUTPUT)
    }

    /// Adds the render-target binding.
    pub fn render_target(self) -> (r: Self)
        ensures
            r.0 == self.0 | BIND_RENDER_TARGET,
    {
        BindFlags(self.0 | BIND_RENDER_TARGET)
    }

    /// Adds the depth-stencil binding.
    pub fn depth_stencil(self) -> (r: Self)
        ensures
            r.0 == self.0 | BIND_DEPTH_STENCIL,
    {
        BindFlags(self.0 | BIND_DEPTH_STENCIL)
    }

    /// Adds the unordered-access binding.
    pub fn unordered_access(self) -> (r: Self)
        ensures
            r.0 == self.0 | BIND_UNORDERED_ACCESS,
    {
        BindFlags(self.0 | BIND_UNORDERED_ACCESS)
    }
}

/// Usage code for GPU read-write memory.
pub const USAGE_DEFAULT: u32 = 0;

/// Usage code for immutable, initialization-only memory.
pub const USAGE_IMMUTABLE: u32 = 1;

/// Usage code for staging memory the CPU can read back.
pub const USAGE_STAGING: u32 = 3;

/// CPU access flag for writing.
pub const CPU_ACCESS_WRITE: u32 = 0x10000;

/// CPU access flag for reading.
pub const CPU_ACCESS_READ: u32 = 0x20000;

/// A two-dimensional texture description over plain values.
#[derive(Clone, Copy, Debug, PartialEq, Eq, Structural)]
pub struct TextureDesc2D {
    pub width: u32,
    pub height: u32,
    pub mip_levels: u32,
    pub array_size: u32,
    pub format: Format,
    pub sample: SampleDesc,
    pub usage: u32,
    pub bind_flags: u32,
    pub cpu_access_flags: u32,
    pub misc_flags: u32,
}

impl TextureDesc2D {
    /// A texture of the given size and format: one mip level, one array
    /// element, single-sampled, default usage, bound to nothing.
    pub fn new(width: u32, height: u32, format: Format) -> (r: Self)
        ensures
            r.width == width,
            r.height == height,
            r.mip_levels == 1,
            r.array_size == 1,
            r.format == format,
            r.sample == (SampleDesc { count: 1, quality: 0 }),
            r.usage == USAGE_DEFAULT,
            r.bind_flags == 0,
            r.cpu_access_flags == 0,
            r.misc_flags == 0,
    {
        TextureDesc2D {
            width,
            height,
            mip_levels: 1,
            array_size: 1,
            format,
            sample: SampleDesc::single(),
            usage: USAGE_DEFAULT,
            bind_flags: 0,
            cpu_access_flags: 0,
            misc_flags: 0,
        }
    }

    /// Replaces the pipeline bindings.
    pub fn bound(&mut self, flags: BindFlags)
        ensures
            *final(self) == (TextureDesc2D { bind_flags: flags.0, ..*old(self) }),
    {
        self.bind_flags = flags.0;
    }

    /// Makes the texture immutable.
    pub fn immutable(&mut self)
        ensures
            *final(self) == (TextureDesc2D { usage: USAGE_IMMUTABLE, ..*old(self) }),
    {
        self.usage = USAGE_IMMUTABLE;
    }

    /// Makes the texture a staging resource.
    pub fn staging(&mut self)
        ensures
            *final(self) == (TextureDesc2D { usage: USAGE_STAGING, ..*old(self) }),
    {
        self.usage = USAGE_STAGING;
    }

    /// Adds CPU read access.
    pub fn cpu_readable(&mut self)
        ensures
            *final(self) == (TextureDesc2D {
                cpu_access_flags: old(self).cpu_access_flags | CPU_ACCESS_READ,
                ..*old(self)
            }),
    {
        self.cpu_access_flags = self.cpu_access_flags | CPU_ACCESS_READ;
    }

    /// Whether creation from this description must be handed initial data:
    /// an immutable texture cannot be filled later.
    pub fn requires_initial_data(&self) -> (r: bool)
        ensures
            r == (self.usage == USAGE_IMMUTABLE),
    {
        self.usage == USAGE_IMMUTABLE
    }
}

/// A buffer description over plain values.
#[derive(Clone, Copy, Debug, PartialEq, Eq, Structural)]
pub struct BufferDesc {
    pub byte_width: u32,
    pub usage: u32,
    pub bind_flags: u32,
    pub cpu_access_flags: u32,
    pub misc_flags: u32,
    pub structure_byte_stride: u32,
}

/// Builds the description of an immutable buffer holding `element_count`
/// elements of `element_size` bytes each.
pub fn array_buffer_desc(
    bind_flags: BindFlags,
    element_size: usize,
    element_count: usize,
) -> (r: BufferDesc)
    requires
        element_size * element_count <= u32::MAX,
    ensures
        r.byte_width == element_size * element_count,
        r.usage == USAGE_IMMUTABLE,
        r.bind_flags == bind_flags.0,
        r.cpu_access_flags == 0,
        r.misc_flags == 0,
        r.structure_byte_stride == 4,
{
    BufferDesc {
        byte_width: (element_size * element_count) as u32,
        usage: USAGE_IMMUTABLE,
        bind_flags: bind_flags.0,
        cpu_access_flags: 0,
        misc_flags: 0,
        structure_byte_stride: 4,
    }
}

/// Builds the description of a buffer whose contents are refreshed through
/// subresource updates.
pub fn update_buffer_desc(bind_flags: BindFlags, size: usize) -> (r: BufferDesc)
    requires
        size <= u32::MAX,
    ensures
        r.byte_width == size,
        r.usage == USAGE_DEFAULT,
        r.bind_flags == bind_flags.0,
        r.cpu_access_flags == 0,
        r.misc_flags == 0,
        r.structure_byte_stride == 4,
{
    BufferDesc {
        byte_width: size as u32,
        usage: USAGE_DEFAULT,
        bind_flags: bind_flags.0,
        cpu_access_flags: 0,
        misc_flags: 0,
        structure_byte_stride: 4,
    }
}

/// Builds the description of a buffer the CPU writes into.
pub fn mutable_buffer_desc(bind_flags: BindFlags, size: usize) -> (r: BufferDesc)
    requires
        size <= u32::MAX,
    ensures
        r.byte_width == size,
        r.usage == USAGE_DEFAULT,
        r.bind_flags == bind_flags.0,
        r.cpu_access_flags == CPU_ACCESS_WRITE,
        r.misc_flags == 0,
        r.structure_byte_stride == 4,
{
    BufferDesc {
        byte_width: size as u32,
        usage: USAGE_DEFAULT,
        bind_flags: bind_flags.0,
        cpu_access_flags: CPU_ACCESS_WRITE,
        misc_flags: 0,
        structure_byte_stride: 4,
    }
}

/// Input classification code for per-vertex data.
pub const INPUT_PER_VERTEX_DATA: u32 = 0;

/// The integer-valued fields of one vertex input element; the semantic
/// name is carried beside them at the call.
#[derive(Clone, Copy, Debug, PartialEq, Eq, Structural)]
pub struct InputElement {
    pub semantic_index: u32,
    pub format: Format,
    pub input_slot: u32,
    pub aligned_byte_offset: u32,
    pub input_slot_class: u32,
    pub instance_data_step_rate: u32,
}

impl InputElement {
    /// An element read once per vertex.
    pub fn per_vertex(
        sem_index: u32,
        format: Format,
        input_slot: u32,
        byte_offset: u32,
    ) -> (r: Self)
        ensures
            r.semantic_index == sem_index,
            r.format == format,
            r.input_slot == input_slot,
            r.aligned_byte_offset == byte_offset,
            r.input_slot_class == INPUT_PER_VERTEX_DATA,
            r.instance_data_step_rate == 0,
    {
        InputElement {
            semantic_index: sem_index,
            format,
            input_slot,
            aligned_byte_offset: byte_offset,
            input_slot_class: INPUT_PER_VERTEX_DATA,
            instance_data_step_rate: 0,
        }
    }
}

/// Filter code for trilinear sampling.
pub const FILTER_MIN_MAG_MIP_LINEAR: u32 = 0x15;

/// Address mode code that clamps coordinates to the edge.
pub const TEXTURE_ADDRESS_CLAMP: u32 = 3;

/// Comparison function code that always passes.
pub const COMPARISON_ALWAYS: u32 = 8;

/// The integer-valued fields of a sampler-state description.
#[derive(Clone, Copy, Debug, PartialEq, Eq, Structural)]
pub struct SamplerStateBuilder {
    pub filter: u32,
    pub address_u: u32,
    pub address_v: u32,
    pub address_w: u32,
    pub max_anisotropy: u32,
    pub comparison_func: u32,
}

impl SamplerStateBuilder {
    /// The defaults: trilinear filtering, edge clamping on every axis,
    /// no anisotropy, a comparison that always passes.
    pub fn new() -> (r: Self)
        ensures
            r.filter == FILTER_MIN_MAG_MIP_LINEAR,
            r.address_u == TEXTURE_ADDRESS_CLAMP,
            r.address_v == TEXTURE_ADDRESS_CLAMP,
            r.address_w == TEXTURE_ADDRESS_CLAMP,
            r.max_anisotropy == 1,
            r.comparison_func == COMPARISON_ALWAYS,
    {
        SamplerStateBuilder {
            filter: FILTER_MIN_MAG_MIP_LINEAR,
            address_u: TEXTURE_ADDRESS_CLAMP,
            address_v: TEXTURE_ADDRESS_CLAMP,
            address_w: TEXTURE_ADDRESS_CLAMP,
            max_anisotropy: 1,
            comparison_func: COMPARISON_ALWAYS,
        }
    }

    /// Replaces the filter.
    pub fn filter(&mut self, f: u32)
        ensures
            *final(self) == (SamplerStateBuilder { filter: f, ..*old(self) }),
    {
        self.filter = f;
    }

    /// Replaces the address mode of each axis.
    pub fn address(&mut self, u: u32, v: u32, w: u32)
        ensures
            *final(self) == (SamplerStateBuilder {
                address_u: u,
                address_v: v,
                address_w: w,
                ..*old(self)
            }),
    {
        self.address_u = u;
        self.address_v = v;
        self.address_w = w;
    }

    /// Replaces the anisotropy bound, which the native sampler accepts
    /// only between one and sixteen.
    pub fn max_anisotropy(&mut self, aniso: u8)
        requires
            1 <= aniso <= 16,
        ensures
            *final(self) == (SamplerStateBuilder {
                max_anisotropy: aniso as u32,
                ..*old(self)
            }),
    {
        self.max_anisotropy = aniso as u32;
    }

    /// Replaces the comparison function.
    pub fn cmp_func(&mut self, f: u32)
        ensures
            *final(self) == (SamplerStateBuilder { comparison_func: f, ..*old(self) }),
    {
        self.comparison_func = f;
    }
}

} // verus!
