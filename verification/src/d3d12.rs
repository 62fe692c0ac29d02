//! Direct3D 12 descriptor models: command queues, heaps, resources,
//! root signatures, pipeline state and copy footprints, over plain values.

use vstd::prelude::*;
use crate::dxgi::{Format, SampleDesc, DXGI_FORMAT_UNKNOWN, DXGI_FORMAT_R16_UINT};

verus! {

/// Sample mask that enables every sample.
pub const DEFAULT_SAMPLE_MASK: u32 = 0xffffffff;

/// Required placement alignment for buffers and ordinary textures, in bytes.
pub const DEFAULT_RESOURCE_PLACEMENT_ALIGNMENT: u64 = 65536;

/// The kind of work a command buffer or queue carries.
#[derive(Clone, Copy, Debug, PartialEq, Eq, Structural)]
pub enum CommandType {
    Direct,
    Bundle,
    Compute,
    Copy,
}

impl CommandType {
    /// The native command-list type code.
    pub open spec fn spec_value(self) -> u32 {
        match self {
            CommandType::Direct => 0,
            CommandType::Bundle => 1,
            CommandType::Compute => 2,
            CommandType::Copy => 3,
        }
    }

    /// Converts the command type to its native code.
    pub fn value(self) -> (r: u32)
        ensures
            r == self.spec_value(),
    {
        match self {
            CommandType::Direct => 0,
            CommandType::Bundle => 1,
            CommandType::Compute => 2,
            CommandType::Copy => 3,
        }
    }
}

/// A command-queue description over plain values.
#[derive(Clone, Copy, Debug, PartialEq, Eq, Structural)]
pub struct CommandQueueDesc {
    pub queue_type: u32,
    pub priority: i32,
    pub flags: u32,
    pub node_mask: u32,
}

/// Builds the description a new command queue is created from:
/// the given type and priority, no flags, and the default node.
pub fn command_queue_desc(cmd_type: CommandType, priority: i32) -> (r: CommandQueueDesc)
    ensures
        r.queue_type == cmd_type.spec_value(),
        r.priority == priority,
        r.flags == 0,
        r.node_mask == 0,
{
    CommandQueueDesc { queue_type: cmd_type.value(), priority, flags: 0, node_mask: 0 }
}

/// What a descriptor heap holds.
#[derive(Clone, Copy, Debug, PartialEq, Eq, Structural)]
pub enum DescriptorHeapContents {
    RenderTargetViews,
    ShaderViews,
    Samplers,
    DepthStencilViews,
}

impl DescriptorHeapContents {
    /// The native descriptor-heap type code.
    pub open spec fn spec_value(self) -> u32 {
        match self {
            DescriptorHeapContents::ShaderViews => 0,
            DescriptorHeapContents::Samplers => 1,
            DescriptorHeapContents::RenderTargetViews => 2,
            DescriptorHeapContents::DepthStencilViews => 3,
        }
    }

    /// Converts the heap contents to the native type code.
    pub fn value(self) -> (r: u32)
        ensures
            r == self.spec_value(),
    {
        match self {
            DescriptorHeapContents::ShaderViews => 0,
            DescriptorHeapContents::Samplers => 1,
            DescriptorHeapContents::RenderTargetViews => 2,
            DescriptorHeapContents::DepthStencilViews => 3,
        }
    }
}

/// Heap flag that makes its descriptors visible to shaders.
pub const DESCRIPTOR_HEAP_FLAG_SHADER_VISIBLE: u32 = 0x1;

/// A descriptor-heap description over plain values.
#[derive(Clone, Copy, Debug, PartialEq, Eq, Structural)]
pub struct DescriptorHeapDesc {
    pub heap_type: u32,
    pub num_descriptors: u32,
    pub flags: u32,
    pub node_mask: u32,
}

/// Builds the description a new descriptor heap is created from: the given
/// contents and count, with the shader-visible flag exactly when asked for.
pub fn descriptor_heap_desc(
    contents: DescriptorHeapContents,
    count: usize,
    shader_visibility: bool,
) -> (r: DescriptorHeapDesc)
    requires
        count <= u32::MAX,
    ensures
        r.heap_type == contents.spec_value(),
        r.num_descriptors == count,
        r.flags == (if shader_visibility { DESCRIPTOR_HEAP_FLAG_SHADER_VISIBLE } else { 0u32 }),
        r.node_mask == 0,
{
    DescriptorHeapDesc {
        heap_type: contents.value(),
        num_descriptors: count as u32,
        flags: if shader_visibility { DESCRIPTOR_HEAP_FLAG_SHADER_VISIBLE } else { 0 },
        node_mask: 0,
    }
}

/// A CPU descriptor handle together with the heap's handle increment.
#[derive(Clone, Copy, Debug, PartialEq, Eq, Structural)]
pub struct HostDescriptorHandle {
    pub ptr: usize,
    pub increment: usize,
}

impl HostDescriptorHandle {
    /// The handle of the descriptor `count` slots past this one.
    pub fn offset(&self, count: usize) -> (r: HostDescriptorHandle)
        requires
            self.ptr + count * self.increment <= usize::MAX,
        ensures
            r.ptr == self.ptr + count * self.increment,
            r.increment == self.increment,
    {
        HostDescriptorHandle { ptr: self.ptr + count * self.increment, increment: self.increment }
    }
}

/// A GPU descriptor handle together with the heap's handle increment.
#[derive(Clone, Copy, Debug, PartialEq, Eq, Structural)]
pub struct DeviceDescriptorHandle {
    pub ptr: u64,
    pub increment: u64,
}

impl DeviceDescriptorHandle {
    /// The handle of the descriptor `count` slots past this one.
    pub fn offset(&self, count: usize) -> (r: DeviceDescriptorHandle)
        requires
            self.ptr + count * self.increment <= u64::MAX,
        ensures
            r.ptr == self.ptr + count * self.increment,
            r.increment == self.increment,
    {
        DeviceDescriptorHandle {
            ptr: self.ptr + (count as u64) * self.increment,
            increment: self.increment,
        }
    }
}

/// Flags a resource is created with.
#[derive(Clone, Copy, Debug, PartialEq, Eq, Structural)]
pub struct ResourceFlag(pub u32);

pub const RESOURCE_FLAG_ALLOW_RENDER_TARGET: u32 = 0x1;
pub const RESOURCE_FLAG_ALLOW_DEPTH_STENCIL: u32 = 0x2;
pub const RESOURCE_FLAG_ALLOW_UNORDERED_ACCESS: u32 = 0x4;
pub const RESOURCE_FLAG_DENY_SHADER_RESOURCE: u32 = 0x8;
pub const RESOURCE_FLAG_ALLOW_CROSS_ADAPTER: u32 = 0x10;
pub const RESOURCE_FLAG_ALLOW_SIMULTANEOUS_ACCESS: u32 = 0x20;

impl ResourceFlag {
    /// No flags.
    pub fn new() -> (r: Self)
        ensures
            r.0 == 0,
    {
        ResourceFlag(0)
    }

    /// Adds permission to create render-target views.
    pub fn allow_render_target(&self) -> (r: Self)
        ensures
            r.0 == self.0 | RESOURCE_FLAG_ALLOW_RENDER_TARGET,
    {
        ResourceFlag(self.0 | RESOURCE_FLAG_ALLOW_RENDER_TARGET)
    }

    /// Adds permission to create depth-stencil views.
    pub fn allow_depth_stencil(&self) -> (r: Self)
        ensures
            r.0 == self.0 | RESOURCE_FLAG_ALLOW_DEPTH_STENCIL,
    {
        ResourceFlag(self.0 | RESOURCE_FLAG_ALLOW_DEPTH_STENCIL)
    }

    /// Adds permission to create unordered-access views.
    pub fn allow_unordered_access(&self) -> (r: Self)
        ensures
            r.0 == self.0 | RESOURCE_FLAG_ALLOW_UNORDERED_ACCESS,
    {
        ResourceFlag(self.0 | RESOURCE_FLAG_ALLOW_UNORDERED_ACCESS)
    }

    /// Forbids shader-resource views on the resource.
    pub fn deny_shader_resource(&self) -> (r: Self)
        ensures
            r.0 == self.0 | RESOURCE_FLAG_DENY_SHADER_RESOURCE,
    {
        ResourceFlag(self.0 | RESOURCE_FLAG_DENY_SHADER_RESOURCE)
    }

    /// Allows use of the resource across adapters.
    pub fn allow_cross_adapter(&self) -> (r: Self)
        ensures
            r.0 == self.0 | RESOURCE_FLAG_ALLOW_CROSS_ADAPTER,
    {
        ResourceFlag(self.0 | RESOURCE_FLAG_ALLOW_CROSS_ADAPTER)
    }

    /// Allows simultaneous access through multiple queues.
    pub fn simultaneous_access(&self) -> (r: Self)
        ensures
            r.0 == self.0 | RESOURCE_FLAG_ALLOW_SIMULTANEOUS_ACCESS,
    {
        ResourceFlag(self.0 | RESOURCE_FLAG_ALLOW_SIMULTANEOUS_ACCESS)
    }
}

/// Resource dimension code for a buffer.
pub const RESOURCE_DIMENSION_BUFFER: u32 = 1;

/// Resource dimension code for a two-dimensional texture.
pub const RESOURCE_DIMENSION_TEXTURE2D: u32 = 3;

/// Texture layout code left for the driver to choose.
pub const TEXTURE_LAYOUT_UNKNOWN: u32 = 0;

/// Texture layout code for row-major linear memory.
pub const TEXTURE_LAYOUT_ROW_MAJOR: u32 = 1;

/// A resource description over plain values, laid out as the native one is.
#[derive(Clone, Copy, Debug, PartialEq, Eq, Structural)]
pub struct ResourceDesc {
    pub dimension: u32,
    pub alignment: u64,
    pub width: u64,
    pub height: u32,
    pub depth_or_array_size: u16,
    pub mip_levels: u16,
    pub format: Format,
    pub sample: SampleDesc,
    pub layout: u32,
    pub flags: u32,
}

impl ResourceDesc {
    /// The description of a plain buffer of the given byte size:
    /// one-dimensional, row-major, unknown format, single-sampled.
    pub fn buffer(bytesize: usize) -> (r: ResourceDesc)
        ensures
            r.dimension == RESOURCE_DIMENSION_BUFFER,
            r.alignment == DEFAULT_RESOURCE_PLACEMENT_ALIGNMENT,
            r.width == bytesize,
            r.height == 1,
            r.depth_or_array_size == 1,
            r.mip_levels == 1,
            r.format == DXGI_FORMAT_UNKNOWN,
            r.sample == (SampleDesc { count: 1, quality: 0 }),
            r.layout == TEXTURE_LAYOUT_ROW_MAJOR,
            r.flags == 0,
    {
        ResourceDesc {
            dimension: RESOURCE_DIMENSION_BUFFER,
            alignment: DEFAULT_RESOURCE_PLACEMENT_ALIGNMENT,
            width: bytesize as u64,
            height: 1,
            depth_or_array_size: 1,
            mip_levels: 1,
            format: DXGI_FORMAT_UNKNOWN,
            sample: SampleDesc::single(),
            layout: TEXTURE_LAYOUT_ROW_MAJOR,
            flags: 0,
        }
    }

    /// The description of a flat texture of the given size and format,
    /// with the layout left to the driver.
    pub fn texture2d(size: &crate::geometry::Size2U, format: Format) -> (r: ResourceDesc)
        ensures
            r.dimension == RESOURCE_DIMENSION_TEXTURE2D,
            r.alignment == DEFAULT_RESOURCE_PLACEMENT_ALIGNMENT,
            r.width == size.0,
            r.height == size.1,
            r.depth_or_array_size == 1,
            r.mip_levels == 1,
            r.format == format,
            r.sample == (SampleDesc { count: 1, quality: 0 }),
            r.layout == TEXTURE_LAYOUT_UNKNOWN,
            r.flags == 0,
    {
        ResourceDesc {
            dimension: RESOURCE_DIMENSION_TEXTURE2D,
            alignment: DEFAULT_RESOURCE_PLACEMENT_ALIGNMENT,
            width: size.width() as u64,
            height: size.height(),
            depth_or_array_size: 1,
            mip_levels: 1,
            format,
            sample: SampleDesc::single(),
            layout: TEXTURE_LAYOUT_UNKNOWN,
            flags: 0,
        }
    }

    /// Replaces the texture layout.
    pub fn layout(self, layout: u32) -> (r: Self)
        ensures
            r == (ResourceDesc { layout, ..self }),
    {
        ResourceDesc { layout, ..self }
    }

    /// Replaces the resource flags.
    pub fn flags(self, flags: ResourceFlag) -> (r: Self)
        ensures
            r == (ResourceDesc { flags: flags.0, ..self }),
    {
        ResourceDesc { flags: flags.0, ..self }
    }

    /// Replaces the multisampling description.
    pub fn sample_desc(self, desc: SampleDesc) -> (r: Self)
        ensures
            r == (ResourceDesc { sample: desc, ..self }),
    {
        ResourceDesc { sample: desc, ..self }
    }

    /// Replaces the depth.
    pub fn depth(self, depth: u16) -> (r: Self)
        ensures
            r == (ResourceDesc { depth_or_array_size: depth, ..self }),
    {
        ResourceDesc { depth_or_array_size: depth, ..self }
    }

    /// Replaces the array element count.
    pub fn array_size(self, size: u16) -> (r: Self)
        ensures
            r == (ResourceDesc { depth_or_array_size: size, ..self }),
    {
        ResourceDesc { depth_or_array_size: size, ..self }
    }

    /// Replaces the mipmap level count.
    pub fn mip_levels(self, levels: u16) -> (r: Self)
        ensures
            r == (ResourceDesc { mip_levels: levels, ..self }),
    {
        ResourceDesc { mip_levels: levels, ..self }
    }

    /// Replaces the placement alignment.
    pub fn alignment(self, align: u64) -> (r: Self)
        ensures
            r == (ResourceDesc { alignment: align, ..self }),
    {
        ResourceDesc { alignment: align, ..self }
    }
}

/// The state a resource is in for the GPU pipeline.
#[derive(Clone, Copy, Debug, PartialEq, Eq, Structural)]
pub enum ResourceState {
    Present,
    VertexAndConstantBuffer,
    IndexBuffer,
    RenderTarget,
    UnorderedAccess,
    DepthWrite,
    DepthRead,
    NonPixelShaderResource,
    PixelShaderResource,
    StreamOut,
    IndirectArgument,
    CopyDest,
    CopySource,
    ResolveDest,
    ResolveSource,
    GenericRead,
}

impl ResourceState {
    /// The native resource-state bits.
    pub open spec fn spec_value(self) -> u32 {
        match self {
            ResourceState::Present => 0,
            ResourceState::VertexAndConstantBuffer => 0x1,
            ResourceState::IndexBuffer => 0x2,
            ResourceState::RenderTarget => 0x4,
            ResourceState::UnorderedAccess => 0x8,
            ResourceState::DepthWrite => 0x10,
            ResourceState::DepthRead => 0x20,
            ResourceState::NonPixelShaderResource => 0x40,
            ResourceState::PixelShaderResource => 0x80,
            ResourceState::StreamOut => 0x100,
            ResourceState::IndirectArgument => 0x200,
            ResourceState::CopyDest => 0x400,
            ResourceState::CopySource => 0x800,
            ResourceState::ResolveDest => 0x1000,
            ResourceState::ResolveSource => 0x2000,
            ResourceState::GenericRead => 0xac3,
        }
    }

    /// Converts the state to its native bits.
    pub fn value(self) -> (r: u32)
        ensures
            r == self.spec_value(),
    {
        match self {
            ResourceState::Present => 0,
            ResourceState::VertexAndConstantBuffer => 0x1,
            ResourceState::IndexBuffer => 0x2,
            ResourceState::RenderTarget => 0x4,
            ResourceState::UnorderedAccess => 0x8,
            ResourceState::DepthWrite => 0x10,
            ResourceState::DepthRead => 0x20,
            ResourceState::NonPixelShaderResource => 0x40,
            ResourceState::PixelShaderResource => 0x80,
            ResourceState::StreamOut => 0x100,
            ResourceState::IndirectArgument => 0x200,
            ResourceState::CopyDest => 0x400,
            ResourceState::CopySource => 0x800,
            ResourceState::ResolveDest => 0x1000,
            ResourceState::ResolveSource => 0x2000,
            ResourceState::GenericRead => 0xac3,
        }
    }
}

/// Heap type code for GPU-only memory.
pub const HEAP_TYPE_DEFAULT: u32 = 1;

/// Heap type code for CPU-writable upload memory.
pub const HEAP_TYPE_UPLOAD: u32 = 2;

/// Properties a heap is created with, over plain values.
#[derive(Clone, Copy, Debug, PartialEq, Eq, Structural)]
pub struct HeapProperty {
    pub heap_type: u32,
    pub cpu_page_property: u32,
    pub memory_pool_preference: u32,
    pub creation_node_mask: u32,
    pub visible_node_mask: u32,
}

impl Default for HeapProperty {
    /// The properties of a default heap, without CPU access.
    fn default() -> (r: Self)
        ensures
            r.heap_type == HEAP_TYPE_DEFAULT,
            r.cpu_page_property == 0,
            r.memory_pool_preference == 0,
            r.creation_node_mask == 0,
            r.visible_node_mask == 0,
    {
        HeapProperty {
            heap_type: HEAP_TYPE_DEFAULT,
            cpu_page_property: 0,
            memory_pool_preference: 0,
            creation_node_mask: 0,
            visible_node_mask: 0,
        }
    }
}

impl HeapProperty {
    /// The properties of an upload heap, writable by the CPU.
    pub fn upload() -> (r: Self)
        ensures
            r.heap_type == HEAP_TYPE_UPLOAD,
            r.cpu_page_property == 0,
            r.memory_pool_preference == 0,
            r.creation_node_mask == 0,
            r.visible_node_mask == 0,
    {
        HeapProperty {
            heap_type: HEAP_TYPE_UPLOAD,
            cpu_page_property: 0,
            memory_pool_preference: 0,
            creation_node_mask: 0,
            visible_node_mask: 0,
        }
    }
}

/// A heap description over plain values.
#[derive(Clone, Copy, Debug, PartialEq, Eq, Structural)]
pub struct HeapDesc {
    pub size_in_bytes: u64,
    pub properties: HeapProperty,
    pub alignment: u64,
    pub flags: u32,
}

/// Builds the description a new heap is created from: the given size,
/// properties and flags, at the default placement alignment.
pub fn heap_desc(property: &HeapProperty, size: usize, flags: u32) -> (r: HeapDesc)
    ensures
        r.size_in_bytes == size,
        r.properties == *property,
        r.alignment == DEFAULT_RESOURCE_PLACEMENT_ALIGNMENT,
        r.flags == flags,
{
    HeapDesc {
        size_in_bytes: size as u64,
        properties: *property,
        alignment: DEFAULT_RESOURCE_PLACEMENT_ALIGNMENT,
        flags,
    }
}

/// The description of a buffer placed over the given byte range of a heap:
/// a plain buffer whose width is the length of the range.
pub fn placed_buffer_desc(start: usize, end: usize) -> (r: ResourceDesc)
    requires
        start <= end,
    ensures
        r.dimension == RESOURCE_DIMENSION_BUFFER,
        r.alignment == DEFAULT_RESOURCE_PLACEMENT_ALIGNMENT,
        r.width == end - start,
        r.height == 1,
        r.depth_or_array_size == 1,
        r.mip_levels == 1,
        r.format == DXGI_FORMAT_UNKNOWN,
        r.sample == (SampleDesc { count: 1, quality: 0 }),
        r.layout == TEXTURE_LAYOUT_ROW_MAJOR,
        r.flags == 0,
{
    ResourceDesc::buffer(end - start)
}

/// A GPU virtual address.
#[derive(Clone, Copy, Debug, PartialEq, Eq, Structural)]
pub struct GraphicsVirtualPtr(pub u64);

impl GraphicsVirtualPtr {
    /// The address the given signed distance away.
    pub fn offset(self, offs: i64) -> (r: Self)
        requires
            0 <= self.0 + offs <= u64::MAX,
        ensures
            r.0 == self.0 + offs,
    {
        if offs >= 0 {
            GraphicsVirtualPtr(self.0 + (offs as u64))
        } else {
            let magnitude: u64 = ((-(offs + 1)) as u64) + 1;
            GraphicsVirtualPtr(self.0 - magnitude)
        }
    }
}

/// A vertex-buffer view over plain values.
#[derive(Clone, Copy, Debug, PartialEq, Eq, Structural)]
pub struct VertexBufferView {
    pub buffer_location: u64,
    pub size_in_bytes: u32,
    pub stride_in_bytes: u32,
}

/// Builds a vertex-buffer view for elements of the given stride:
/// the view spans exactly `element_count` elements.
pub fn vertex_buffer_view(
    location: GraphicsVirtualPtr,
    stride: usize,
    element_count: usize,
) -> (r: VertexBufferView)
    requires
        stride * element_count <= u32::MAX,
        stride <= u32::MAX,
    ensures
        r.buffer_location == location.0,
        r.stride_in_bytes == stride,
        r.size_in_bytes == stride * element_count,
{
    VertexBufferView {
        buffer_location: location.0,
        stride_in_bytes: stride as u32,
        size_in_bytes: (stride * element_count) as u32,
    }
}

/// An index-buffer view over plain values.
#[derive(Clone, Copy, Debug, PartialEq, Eq, Structural)]
pub struct IndexBufferView {
    pub buffer_location: u64,
    pub size_in_bytes: u32,
    pub format: Format,
}

/// Builds an index-buffer view of 16-bit indices: two bytes per element.
pub fn index_buffer_view(location: GraphicsVirtualPtr, element_count: usize) -> (r: IndexBufferView)
    requires
        2 * element_count <= u32::MAX,
    ensures
        r.buffer_location == location.0,
        r.size_in_bytes == 2 * element_count,
        r.format == DXGI_FORMAT_R16_UINT,
{
    IndexBufferView {
        buffer_location: location.0,
        size_in_bytes: (2 * element_count) as u32,
        format: DXGI_FORMAT_R16_UINT,
    }
}

/// Shader visibility code: every stage.
pub const SHADER_VISIBILITY_ALL: u32 = 0;

/// Shader visibility code: the vertex stage.
pub const SHADER_VISIBILITY_VERTEX: u32 = 1;

/// Shader visibility code: the pixel stage.
pub const SHADER_VISIBILITY_PIXEL: u32 = 5;

/// Root parameter type code for a descriptor table.
pub const ROOT_PARAMETER_TYPE_DESCRIPTOR_TABLE: u32 = 0;

/// Root parameter type code for inline 32-bit constants.
pub const ROOT_PARAMETER_TYPE_32BIT_CONSTANTS: u32 = 1;

/// Root parameter type code for a constant-buffer view.
pub const ROOT_PARAMETER_TYPE_CBV: u32 = 2;

/// Root parameter type code for a shader-resource view.
pub const ROOT_PARAMETER_TYPE_SRV: u32 = 3;

/// What a root parameter binds, with the registers it binds to.
#[derive(Clone, Copy, Debug, PartialEq, Eq, Structural)]
pub enum RootParameterContents {
    Constants { count: u32, register_index: u32, register_space: u32 },
    ShaderResource { register_index: u32, register_space: u32 },
    ConstantBuffer { register_index: u32, register_space: u32 },
    DescriptorTable { range_count: u32 },
}

/// A root-signature parameter over plain values.
#[derive(Clone, Copy, Debug, PartialEq, Eq, Structural)]
pub struct RootParameter {
    pub visibility: u32,
    pub contents: RootParameterContents,
}

impl RootParameter {
    /// The native parameter type code of these contents.
    pub open spec fn spec_parameter_type(self) -> u32 {
        match self.contents {
            RootParameterContents::Constants { .. } => ROOT_PARAMETER_TYPE_32BIT_CONSTANTS,
            RootParameterContents::ShaderResource { .. } => ROOT_PARAMETER_TYPE_SRV,
            RootParameterContents::ConstantBuffer { .. } => ROOT_PARAMETER_TYPE_CBV,
            RootParameterContents::DescriptorTable { .. } => ROOT_PARAMETER_TYPE_DESCRIPTOR_TABLE,
        }
    }

    /// Converts the parameter contents to the native type code.
    pub fn parameter_type(&self) -> (r: u32)
        ensures
            r == self.spec_parameter_type(),
    {
        match self.contents {
            RootParameterContents::Constants { .. } => ROOT_PARAMETER_TYPE_32BIT_CONSTANTS,
            RootParameterContents::ShaderResource { .. } => ROOT_PARAMETER_TYPE_SRV,
            RootParameterContents::ConstantBuffer { .. } => ROOT_PARAMETER_TYPE_CBV,
            RootParameterContents::DescriptorTable { .. } => ROOT_PARAMETER_TYPE_DESCRIPTOR_TABLE,
        }
    }

    /// A parameter of `count` inline 32-bit constants at the given register.
    pub fn constant(
        visibility: u32,
        count: usize,
        register_index: u32,
        register_space: u32,
    ) -> (r: Self)
        requires
            count <= u32::MAX,
        ensures
            r.visibility == visibility,
            r.contents == (RootParameterContents::Constants {
                count: count as u32,
                register_index,
                register_space,
            }),
    {
        RootParameter {
            visibility,
            contents: RootParameterContents::Constants {
                count: count as u32,
                register_index,
                register_space,
            },
        }
    }

    /// A parameter binding a shader-resource view at the given register.
    pub fn shader_resource(visibility: u32, register_index: u32, register_space: u32) -> (r: Self)
        ensures
            r.visibility == visibility,
            r.contents == (RootParameterContents::ShaderResource {
                register_index,
                register_space,
            }),
    {
        RootParameter {
            visibility,
            contents: RootParameterContents::ShaderResource { register_index, register_space },
        }
    }

    /// A parameter binding a constant-buffer view at the given register.
    pub fn constant_buffer(visibility: u32, register_index: u32, register_space: u32) -> (r: Self)
        ensures
            r.visibility == visibility,
            r.contents == (RootParameterContents::ConstantBuffer {
                register_index,
                register_space,
            }),
    {
        RootParameter {
            visibility,
            contents: RootParameterContents::ConstantBuffer { register_index, register_space },
        }
    }

    /// A parameter referring to a descriptor table of `range_count` ranges.
    pub fn from_descriptor_table(visibility: u32, range_count: usize) -> (r: Self)
        requires
            range_count <= u32::MAX,
        ensures
            r.visibility == visibility,
            r.contents == (RootParameterContents::DescriptorTable {
                range_count: range_count as u32,
            }),
    {
        RootParameter {
            visibility,
            contents: RootParameterContents::DescriptorTable {
                range_count: range_count as u32,
            },
        }
    }
}

/// Filter code for trilinear sampling.
pub const FILTER_MIN_MAG_MIP_LINEAR: u32 = 0x15;

/// Address mode code that clamps coordinates to the edge.
pub const TEXTURE_ADDRESS_MODE_CLAMP: u32 = 3;

/// Comparison function code that always passes.
pub const COMPARISON_FUNC_ALWAYS: u32 = 8;

/// Static border color code for transparent black.
pub const STATIC_BORDER_COLOR_TRANSPARENT_BLACK: u32 = 0;

/// The integer-valued fields of a static sampler description.
#[derive(Clone, Copy, Debug, PartialEq, Eq, Structural)]
pub struct StaticSampler {
    pub filter: u32,
    pub address_u: u32,
    pub address_v: u32,
    pub address_w: u32,
    pub max_anisotropy: u32,
    pub comparison_func: u32,
    pub border_color: u32,
    pub shader_register: u32,
    pub register_space: u32,
    pub visibility: u32,
}

impl StaticSampler {
    /// A sampler with trilinear filtering and edge-clamped addressing.
    pub fn linear_clamped(visibility: u32, register_index: u32, register_space: u32) -> (r: Self)
        ensures
            r.filter == FILTER_MIN_MAG_MIP_LINEAR,
            r.address_u == TEXTURE_ADDRESS_MODE_CLAMP,
            r.address_v == TEXTURE_ADDRESS_MODE_CLAMP,
            r.address_w == TEXTURE_ADDRESS_MODE_CLAMP,
            r.max_anisotropy == 1,
            r.comparison_func == COMPARISON_FUNC_ALWAYS,
            r.border_color == STATIC_BORDER_COLOR_TRANSPARENT_BLACK,
            r.shader_register == register_index,
            r.register_space == register_space,
            r.visibility == visibility,
    {
        StaticSampler {
            filter: FILTER_MIN_MAG_MIP_LINEAR,
            address_u: TEXTURE_ADDRESS_MODE_CLAMP,
            address_v: TEXTURE_ADDRESS_MODE_CLAMP,
            address_w: TEXTURE_ADDRESS_MODE_CLAMP,
            max_anisotropy: 1,
            comparison_func: COMPARISON_FUNC_ALWAYS,
            border_color: STATIC_BORDER_COLOR_TRANSPARENT_BLACK,
            shader_register: register_index,
            register_space: register_space,
            visibility,
        }
    }
}

/// A root-signature description over plain values.
#[derive(Clone, Debug, PartialEq, Eq)]
pub struct RootSignatureDesc {
    pub parameters: Vec<RootParameter>,
    pub static_samplers: Vec<StaticSampler>,
    pub flags: u32,
}

/// Builds the description a root signature is serialized from:
/// exactly the given parameters, samplers and flags.
pub fn root_signature_desc(
    params: &[RootParameter],
    samplers: &[StaticSampler],
    flags: u32,
) -> (r: RootSignatureDesc)
    ensures
        r.parameters@ == params@,
        r.static_samplers@ == samplers@,
        r.flags == flags,
{
    RootSignatureDesc {
        parameters: slice_to_vec_params(params),
        static_samplers: slice_to_vec_samplers(samplers),
        flags,
    }
}

/// Copies a parameter slice into an owned vector, element for element.
fn slice_to_vec_params(params: &[RootParameter]) -> (r: Vec<RootParameter>)
    ensures
        r@ == params@,
{
    let mut out: Vec<RootParameter> = Vec::new();
    let mut i: usize = 0;
    while i < params.len()
        invariant
            i <= params@.len(),
            out@ == params@.take(i as int),
        decreases params@.len() - i,
    {
        out.push(params[i]);
        i = i + 1;
        proof {
            assert(out@ =~= params@.take(i as int));
        }
    }
    proof {
        assert(out@ =~= params@);
    }
    out
}

/// Copies a sampler slice into an owned vector, element for element.
fn slice_to_vec_samplers(samplers: &[StaticSampler]) -> (r: Vec<StaticSampler>)
    ensures
        r@ == samplers@,
{
    let mut out: Vec<StaticSampler> = Vec::new();
    let mut i: usize = 0;
    while i < samplers.len()
        invariant
            i <= samplers@.len(),
            out@ == samplers@.take(i as int),
        decreases samplers@.len() - i,
    {
        out.push(samplers[i]);
        i = i + 1;
        proof {
            assert(out@ =~= samplers@.take(i as int));
        }
    }
    proof {
        assert(out@ =~= samplers@);
    }
    out
}

/// Barrier type code for a state transition.
pub const RESOURCE_BARRIER_TYPE_TRANSITION: u32 = 0;

/// Barrier type code for aliased-resource activation.
pub const RESOURCE_BARRIER_TYPE_ALIASING: u32 = 1;

/// A resource barrier over plain values; the resources themselves are
/// named at submission.
#[derive(Clone, Copy, Debug, PartialEq, Eq, Structural)]
pub enum ResourceBarrier {
    Transition { subresource: u32, state_before: u32, state_after: u32 },
    Aliasing { has_before: bool },
}

impl ResourceBarrier {
    /// The native barrier type code.
    pub open spec fn spec_barrier_type(self) -> u32 {
        match self {
            ResourceBarrier::Transition { .. } => RESOURCE_BARRIER_TYPE_TRANSITION,
            ResourceBarrier::Aliasing { .. } => RESOURCE_BARRIER_TYPE_ALIASING,
        }
    }

    /// Converts the barrier to the native type code.
    pub fn barrier_type(&self) -> (r: u32)
        ensures
            r == self.spec_barrier_type(),
    {
        match self {
            ResourceBarrier::Transition { .. } => RESOURCE_BARRIER_TYPE_TRANSITION,
            ResourceBarrier::Aliasing { .. } => RESOURCE_BARRIER_TYPE_ALIASING,
        }
    }

    /// A transition barrier over the first subresource, between the two states.
    pub fn transition(before: ResourceState, after: ResourceState) -> (r: Self)
        ensures
            r == (ResourceBarrier::Transition {
                subresource: 0,
                state_before: before.spec_value(),
                state_after: after.spec_value(),
            }),
    {
        ResourceBarrier::Transition {
            subresource: 0,
            state_before: before.value(),
            state_after: after.value(),
        }
    }

    /// An aliasing barrier, recording whether a before-resource is named.
    pub fn aliasing(has_before: bool) -> (r: Self)
        ensures
            r == (ResourceBarrier::Aliasing { has_before }),
    {
        ResourceBarrier::Aliasing { has_before }
    }
}

/// Copy location type code that names a subresource by index.
pub const TEXTURE_COPY_TYPE_SUBRESOURCE_INDEX: u32 = 0;

/// Copy location type code that places a footprint in a buffer.
pub const TEXTURE_COPY_TYPE_PLACED_FOOTPRINT: u32 = 1;

/// The footprint of one subresource placed in a buffer.
#[derive(Clone, Copy, Debug, PartialEq, Eq, Structural)]
pub struct PlacedSubresourceFootprint {
    pub offset: u64,
    pub format: Format,
    pub width: u32,
    pub height: u32,
    pub depth: u32,
    pub row_pitch: u32,
}

/// One side of a texture copy; the resource itself is named at submission.
#[derive(Clone, Copy, Debug, PartialEq, Eq, Structural)]
pub enum TextureCopyLocation {
    PlacedFootprint { footprint: PlacedSubresourceFootprint },
    SubresourceIndex { index: u32 },
}

impl TextureCopyLocation {
    /// The native copy-location type code.
    pub open spec fn spec_copy_type(self) -> u32 {
        match self {
            TextureCopyLocation::PlacedFootprint { .. } => TEXTURE_COPY_TYPE_PLACED_FOOTPRINT,
            TextureCopyLocation::SubresourceIndex { .. } => TEXTURE_COPY_TYPE_SUBRESOURCE_INDEX,
        }
    }

    /// Converts the location to the native type code.
    pub fn copy_type(&self) -> (r: u32)
        ensures
            r == self.spec_copy_type(),
    {
        match self {
            TextureCopyLocation::PlacedFootprint { .. } => TEXTURE_COPY_TYPE_PLACED_FOOTPRINT,
            TextureCopyLocation::SubresourceIndex { .. } => TEXTURE_COPY_TYPE_SUBRESOURCE_INDEX,
        }
    }

    /// A copy location placing the given footprint in a buffer.
    pub fn with_placed_footprint(footprint: PlacedSubresourceFootprint) -> (r: Self)
        ensures
            r == (TextureCopyLocation::PlacedFootprint { footprint }),
    {
        TextureCopyLocation::PlacedFootprint { footprint }
    }

    /// A copy location naming a subresource by index.
    pub fn with_subresource_index(subresource_index: u32) -> (r: Self)
        ensures
            r == (TextureCopyLocation::SubresourceIndex { index: subresource_index }),
    {
        TextureCopyLocation::SubresourceIndex { index: subresource_index }
    }
}

/// Everything needed to copy one subresource: its placed footprint,
/// its row count, and the byte size of one row.
#[derive(Clone, Copy, Debug, PartialEq, Eq, Structural)]
pub struct CopyableFootprint {
    pub placed_footprint: PlacedSubresourceFootprint,
    pub row_count: u32,
    pub row_size_in_bytes: u64,
}

/// Joins the three per-subresource sequences a footprint query fills
/// into one record per subresource, index by index.
pub fn assemble_copyable_footprints(
    layouts: &[PlacedSubresourceFootprint],
    row_counts: &[u32],
    row_sizes: &[u64],
) -> (r: Vec<CopyableFootprint>)
    requires
        layouts@.len() == row_counts@.len(),
        layouts@.len() == row_sizes@.len(),
    ensures
        r@.len() == layouts@.len(),
        forall|i: int|
            0 <= i < r@.len() ==> r@[i] == (CopyableFootprint {
                placed_footprint: layouts@[i],
                row_count: row_counts@[i],
                row_size_in_bytes: row_sizes@[i],
            }),
{
    let mut out: Vec<CopyableFootprint> = Vec::new();
    let mut i: usize = 0;
    while i < layouts.len()
        invariant
            i <= layouts@.len(),
            layouts@.len() == row_counts@.len(),
            layouts@.len() == row_sizes@.len(),
            out@.len() == i,
            forall|j: int|
                0 <= j < i ==> out@[j] == (CopyableFootprint {
                    placed_footprint: layouts@[j],
                    row_count: row_counts@[j],
                    row_size_in_bytes: row_sizes@[j],
                }),
        decreases layouts@.len() - i,
    {
        out.push(
            CopyableFootprint {
                placed_footprint: layouts[i],
                row_count: row_counts[i],
                row_size_in_bytes: row_sizes[i],
            },
        );
        i = i + 1;
    }
    out
}

/// A value that can be handed to the pipeline as one 32-bit root constant.
pub trait RootConstant {
    /// The 32-bit pattern the value is passed as.
    spec fn spec_passing_form(self) -> u32;

    /// Converts the value to its 32-bit passing form.
    fn passing_form(self) -> (r: u32)
        ensures
            r == self.spec_passing_form(),
    ;
}

impl RootConstant for u32 {
    open spec fn spec_passing_form(self) -> u32 {
        self
    }

    fn passing_form(self) -> (r: u32)
        ensures
            r == self.spec_passing_form(),
    {
        self
    }
}

impl RootConstant for i32 {
    open spec fn spec_passing_form(self) -> u32 {
        self as u32
    }

    fn passing_form(self) -> (r: u32)
        ensures
            r == self.spec_passing_form(),
    {
        self as u32
    }
}

/// Fill mode for rasterization.
#[derive(Clone, Copy, Debug, PartialEq, Eq, Structural)]
pub enum FillMode {
    Solid,
    Wired,
}

impl FillMode {
    /// The native fill-mode code.
    pub open spec fn spec_value(self) -> u32 {
        match self {
            FillMode::Solid => 3,
            FillMode::Wired => 2,
        }
    }

    /// Converts the fill mode to its native code.
    pub fn value(self) -> (r: u32)
        ensures
            r == self.spec_value(),
    {
        match self {
            FillMode::Solid => 3,
            FillMode::Wired => 2,
        }
    }
}

/// Which faces rasterization culls.
#[derive(Clone, Copy, Debug, PartialEq, Eq, Structural)]
pub enum CullMode {
    Front,
    Back,
    Disabled,
}

impl CullMode {
    /// The native cull-mode code.
    pub open spec fn spec_value(self) -> u32 {
        match self {
            CullMode::Disabled => 1,
            CullMode::Front => 2,
            CullMode::Back => 3,
        }
    }

    /// Converts the cull mode to its native code.
    pub fn value(self) -> (r: u32)
        ensures
            r == self.spec_value(),
    {
        match self {
            CullMode::Disabled => 1,
            CullMode::Front => 2,
            CullMode::Back => 3,
        }
    }
}

/// The topology class a pipeline state is built for.
#[derive(Clone, Copy, Debug, PartialEq, Eq, Structural)]
pub enum PrimitiveTopologyType {
    Point,
    Line,
    Triangle,
    Patch,
}

impl PrimitiveTopologyType {
    /// The native topology-type code.
    pub open spec fn spec_value(self) -> u32 {
        match self {
            PrimitiveTopologyType::Point => 1,
            PrimitiveTopologyType::Line => 2,
            PrimitiveTopologyType::Triangle => 3,
            PrimitiveTopologyType::Patch => 4,
        }
    }

    /// Converts the topology type to its native code.
    pub fn value(self) -> (r: u32)
        ensures
            r == self.spec_value(),
    {
        match self {
            PrimitiveTopologyType::Point => 1,
            PrimitiveTopologyType::Line => 2,
            PrimitiveTopologyType::Triangle => 3,
            PrimitiveTopologyType::Patch => 4,
        }
    }
}

/// The exact primitive topology a draw call assembles.
#[derive(Clone, Copy, Debug, PartialEq, Eq, Structural)]
pub enum PrimitiveTopology {
    PointList,
    LineList,
    LineStrip,
    LineListWithAdjacency,
    LineStripWithAdjacency,
    TriangleList,
    TriangleStrip,
    TriangleListWithAdjacency,
    TriangleStripWithAdjacency,
}

impl PrimitiveTopology {
    /// The native topology code.
    pub open spec fn spec_value(self) -> u32 {
        match self {
            PrimitiveTopology::PointList => 1,
            PrimitiveTopology::LineList => 2,
            PrimitiveTopology::LineStrip => 3,
            PrimitiveTopology::TriangleList => 4,
            PrimitiveTopology::TriangleStrip => 5,
            PrimitiveTopology::LineListWithAdjacency => 10,
            PrimitiveTopology::LineStripWithAdjacency => 11,
            PrimitiveTopology::TriangleListWithAdjacency => 12,
            PrimitiveTopology::TriangleStripWithAdjacency => 13,
        }
    }

    /// Converts the topology to its native code.
    pub fn value(self) -> (r: u32)
        ensures
            r == self.spec_value(),
    {
        match self {
            PrimitiveTopology::PointList => 1,
            PrimitiveTopology::LineList => 2,
            PrimitiveTopology::LineStrip => 3,
            PrimitiveTopology::TriangleList => 4,
            PrimitiveTopology::TriangleStrip => 5,
            PrimitiveTopology::LineListWithAdjacency => 10,
            PrimitiveTopology::LineStripWithAdjacency => 11,
            PrimitiveTopology::TriangleListWithAdjacency => 12,
            PrimitiveTopology::TriangleStripWithAdjacency => 13,
        }
    }
}

/// How vertex input advances: per vertex or per instance.
#[derive(Clone, Copy, Debug, PartialEq, Eq, Structural)]
pub enum InputClassification {
    PerVertex,
    PerInstance,
}

impl InputClassification {
    /// The native input-classification code.
    pub open spec fn spec_value(self) -> u32 {
        match self {
            InputClassification::PerVertex => 0,
            InputClassification::PerInstance => 1,
        }
    }

    /// Converts the classification to its native code.
    pub fn value(self) -> (r: u32)
        ensures
            r == self.spec_value(),
    {
        match self {
            InputClassification::PerVertex => 0,
            InputClassification::PerInstance => 1,
        }
    }
}

/// Blend factor code for a constant one.
pub const BLEND_ONE: u32 = 2;

/// Blend factor code for one minus the source alpha.
pub const BLEND_INV_SRC_ALPHA: u32 = 6;

/// Blend operation code for addition.
pub const BLEND_OP_ADD: u32 = 1;

/// Write mask enabling all four color channels.
pub const COLOR_WRITE_ENABLE_ALL: u8 = 0xf;

/// Per-render-target blending, over plain values.
#[derive(Clone, Copy, Debug, PartialEq, Eq, Structural)]
pub struct Blending {
    pub blend_enable: bool,
    pub logic_op_enable: bool,
    pub src_blend: u32,
    pub dest_blend: u32,
    pub blend_op: u32,
    pub src_blend_alpha: u32,
    pub dest_blend_alpha: u32,
    pub blend_op_alpha: u32,
    pub logic_op: u32,
    pub write_mask: u8,
}

impl Blending {
    /// Blending switched off; all channels still written.
    pub fn disabled() -> (r: Self)
        ensures
            !r.blend_enable,
            !r.logic_op_enable,
            r.src_blend == 0,
            r.dest_blend == 0,
            r.blend_op == 0,
            r.src_blend_alpha == 0,
            r.dest_blend_alpha == 0,
            r.blend_op_alpha == 0,
            r.logic_op == 0,
            r.write_mask == COLOR_WRITE_ENABLE_ALL,
    {
        Blending {
            blend_enable: false,
            logic_op_enable: false,
            src_blend: 0,
            dest_blend: 0,
            blend_op: 0,
            src_blend_alpha: 0,
            dest_blend_alpha: 0,
            blend_op_alpha: 0,
            logic_op: 0,
            write_mask: COLOR_WRITE_ENABLE_ALL,
        }
    }

    /// Premultiplied-alpha compositing: source plus destination
    /// weighted by one minus the source alpha.
    pub fn palpha() -> (r: Self)
        ensures
            r.blend_enable,
            !r.logic_op_enable,
            r.src_blend == BLEND_ONE,
            r.dest_blend == BLEND_INV_SRC_ALPHA,
            r.blend_op == BLEND_OP_ADD,
            r.src_blend_alpha == BLEND_ONE,
            r.dest_blend_alpha == BLEND_INV_SRC_ALPHA,
            r.blend_op_alpha == BLEND_OP_ADD,
            r.logic_op == 0,
            r.write_mask == COLOR_WRITE_ENABLE_ALL,
    {
        Blending {
            blend_enable: true,
            logic_op_enable: false,
            src_blend: BLEND_ONE,
            dest_blend: BLEND_INV_SRC_ALPHA,
            blend_op: BLEND_OP_ADD,
            src_blend_alpha: BLEND_ONE,
            dest_blend_alpha: BLEND_INV_SRC_ALPHA,
            blend_op_alpha: BLEND_OP_ADD,
            logic_op: 0,
            write_mask: COLOR_WRITE_ENABLE_ALL,
        }
    }
}

/// Stencil operation code that keeps the stored value.
pub const STENCIL_OP_KEEP: u32 = 1;

/// What happens to the stencil buffer for one face.
#[derive(Clone, Copy, Debug, PartialEq, Eq, Structural)]
pub struct StencilOpDesc {
    pub stencil_fail_op: u32,
    pub stencil_depth_fail_op: u32,
    pub stencil_pass_op: u32,
    pub stencil_func: u32,
}

impl StencilOpDesc {
    /// The description that keeps the stored value, with a test that always passes.
    pub open spec fn spec_keep_always() -> StencilOpDesc {
        StencilOpDesc {
            stencil_fail_op: STENCIL_OP_KEEP,
            stencil_depth_fail_op: STENCIL_OP_KEEP,
            stencil_pass_op: STENCIL_OP_KEEP,
            stencil_func: COMPARISON_FUNC_ALWAYS,
        }
    }

    /// Keep the stored value whatever the test outcome; the test always passes.
    pub fn keep_always() -> (r: Self)
        ensures
            r == StencilOpDesc::spec_keep_always(),
    {
        StencilOpDesc {
            stencil_fail_op: STENCIL_OP_KEEP,
            stencil_depth_fail_op: STENCIL_OP_KEEP,
            stencil_pass_op: STENCIL_OP_KEEP,
            stencil_func: COMPARISON_FUNC_ALWAYS,
        }
    }
}

/// The integer-valued fields of a rasterizer description.
#[derive(Clone, Copy, Debug, PartialEq, Eq, Structural)]
pub struct RasterizerDesc {
    pub fill_mode: u32,
    pub cull_mode: u32,
    pub front_counter_clockwise: bool,
    pub depth_bias: i32,
    pub depth_clip_enable: bool,
    pub multisample_enable: bool,
    pub antialiased_line_enable: bool,
    pub forced_sample_count: u32,
    pub conservative_raster: u32,
}

/// The integer-valued fields of a depth-stencil description.
#[derive(Clone, Copy, Debug, PartialEq, Eq, Structural)]
pub struct DepthStencilDesc {
    pub depth_enable: bool,
    pub depth_write_mask: u32,
    pub depth_func: u32,
    pub stencil_enable: bool,
    pub stencil_read_mask: u8,
    pub stencil_write_mask: u8,
    pub front_face: StencilOpDesc,
    pub back_face: StencilOpDesc,
}

/// Strip-cut code for the 16-bit sentinel index.
pub const INDEX_BUFFER_STRIP_CUT_VALUE_FFFF: u32 = 1;

/// The integer-valued fields of a graphics pipeline state, gathered and
/// edited step by step before the state object is created.
#[derive(Clone, Debug, PartialEq, Eq)]
pub struct PipelineStateTracker {
    pub primitive_topology_type: u32,
    pub blend_alpha_to_coverage: bool,
    pub blend_independent: bool,
    pub render_target_blend: Blending,
    pub sample_mask: u32,
    pub rasterizer: RasterizerDesc,
    pub depth_stencil: DepthStencilDesc,
    pub ib_strip_cut_value: u32,
    pub num_render_targets: u32,
    pub rtv_formats: Vec<Format>,
    pub dsv_format: Format,
    pub sample: SampleDesc,
    pub node_mask: u32,
}

impl PipelineStateTracker {
    /// The tracker always carries one format slot per render target bind point.
    pub open spec fn wf(self) -> bool {
        self.rtv_formats@.len() == 8
    }

    /// The defaults a fresh tracker starts from: triangles, blending off,
    /// every sample enabled, solid fill without culling, depth and stencil
    /// off, one render target of unknown format, single-sampled.
    pub fn new() -> (r: Self)
        ensures
            r.wf(),
            r.primitive_topology_type == PrimitiveTopologyType::Triangle.spec_value(),
            !r.blend_alpha_to_coverage,
            !r.blend_independent,
            r.render_target_blend.blend_enable == false,
            r.render_target_blend.write_mask == COLOR_WRITE_ENABLE_ALL,
            r.sample_mask == DEFAULT_SAMPLE_MASK,
            r.rasterizer.fill_mode == FillMode::Solid.spec_value(),
            r.rasterizer.cull_mode == CullMode::Disabled.spec_value(),
            !r.rasterizer.front_counter_clockwise,
            r.rasterizer.depth_bias == 0,
            !r.rasterizer.depth_clip_enable,
            !r.rasterizer.multisample_enable,
            !r.rasterizer.antialiased_line_enable,
            r.rasterizer.forced_sample_count == 0,
            r.rasterizer.conservative_raster == 0,
            !r.depth_stencil.depth_enable,
            r.depth_stencil.depth_write_mask == 0,
            r.depth_stencil.depth_func == COMPARISON_FUNC_ALWAYS,
            !r.depth_stencil.stencil_enable,
            r.depth_stencil.stencil_read_mask == 0,
            r.depth_stencil.stencil_write_mask == 0,
            r.depth_stencil.front_face == StencilOpDesc::spec_keep_always(),
            r.depth_stencil.back_face == StencilOpDesc::spec_keep_always(),
            r.ib_strip_cut_value == INDEX_BUFFER_STRIP_CUT_VALUE_FFFF,
            r.num_render_targets == 1,
            forall|i: int| 0 <= i < 8 ==> r.rtv_formats@[i] == DXGI_FORMAT_UNKNOWN,
            r.dsv_format == DXGI_FORMAT_UNKNOWN,
            r.sample == (SampleDesc { count: 1, quality: 0 }),
            r.node_mask == 0,
    {
        let mut formats: Vec<Format> = Vec::new();
        let mut i: usize = 0;
        while i < 8
            invariant
                i <= 8,
                formats@.len() == i,
                forall|j: int| 0 <= j < i ==> formats@[j] == DXGI_FORMAT_UNKNOWN,
            decreases 8 - i,
        {
            formats.push(DXGI_FORMAT_UNKNOWN);
            i = i + 1;
        }
        PipelineStateTracker {
            primitive_topology_type: PrimitiveTopologyType::Triangle.value(),
            blend_alpha_to_coverage: false,
            blend_independent: false,
            render_target_blend: Blending::disabled(),
            sample_mask: DEFAULT_SAMPLE_MASK,
            rasterizer: RasterizerDesc {
                fill_mode: FillMode::Solid.value(),
                cull_mode: CullMode::Disabled.value(),
                front_counter_clockwise: false,
                depth_bias: 0,
                depth_clip_enable: false,
                multisample_enable: false,
                antialiased_line_enable: false,
                forced_sample_count: 0,
                conservative_raster: 0,
            },
            depth_stencil: DepthStencilDesc {
                depth_enable: false,
                depth_write_mask: 0,
                depth_func: COMPARISON_FUNC_ALWAYS,
                stencil_enable: false,
                stencil_read_mask: 0,
                stencil_write_mask: 0,
                front_face: StencilOpDesc::keep_always(),
                back_face: StencilOpDesc::keep_always(),
            },
            ib_strip_cut_value: INDEX_BUFFER_STRIP_CUT_VALUE_FFFF,
            num_render_targets: 1,
            rtv_formats: formats,
            dsv_format: DXGI_FORMAT_UNKNOWN,
            sample: SampleDesc::single(),
            node_mask: 0,
        }
    }

    /// Replaces the topology class.
    pub fn set_primitive_topology_type(&mut self, topology_type: PrimitiveTopologyType)
        requires
            old(self).wf(),
        ensures
            final(self).wf(),
            *final(self) == (PipelineStateTracker {
                primitive_topology_type: topology_type.spec_value(),
                ..*old(self)
            }),
    {
        self.primitive_topology_type = topology_type.value();
    }

    /// Sets one blend state for every render target, with or without
    /// alpha-to-coverage.
    pub fn set_blend_state_common(&mut self, state: Blending, enable_alpha_to_coverage: bool)
        requires
            old(self).wf(),
        ensures
            final(self).wf(),
            *final(self) == (PipelineStateTracker {
                blend_alpha_to_coverage: enable_alpha_to_coverage,
                blend_independent: false,
                render_target_blend: state,
                ..*old(self)
            }),
    {
        self.blend_alpha_to_coverage = enable_alpha_to_coverage;
        self.blend_independent = false;
        self.render_target_blend = state;
    }

    /// Sets the render-target formats: the given formats in order, every
    /// remaining slot cleared to the unknown format.
    pub fn set_render_target_formats(&mut self, formats: &[Format])
        requires
            old(self).wf(),
            formats@.len() <= 8,
        ensures
            final(self).wf(),
            final(self).num_render_targets == formats@.len(),
            forall|i: int|
                0 <= i < formats@.len() ==> final(self).rtv_formats@[i] == formats@[i],
            forall|i: int|
                formats@.len() <= i < 8 ==> final(self).rtv_formats@[i] == DXGI_FORMAT_UNKNOWN,
            *final(self) == (PipelineStateTracker {
                num_render_targets: final(self).num_render_targets,
                rtv_formats: final(self).rtv_formats,
                ..*old(self)
            }),
    {
        let mut slots: Vec<Format> = Vec::new();
        let mut i: usize = 0;
        while i < 8
            invariant
                i <= 8,
                formats@.len() <= 8,
                slots@.len() == i,
                forall|j: int| 0 <= j < i && j < formats@.len() ==> slots@[j] == formats@[j],
                forall|j: int| formats@.len() <= j < i ==> slots@[j] == DXGI_FORMAT_UNKNOWN,
            decreases 8 - i,
        {
            if i < formats.len() {
                slots.push(formats[i]);
            } else {
                slots.push(DXGI_FORMAT_UNKNOWN);
            }
            i = i + 1;
        }
        self.rtv_formats = slots;
        self.num_render_targets = formats.len() as u32;
    }

    /// Switches antialiasing of lines on or off.
    pub fn set_line_antialiasing(&mut self, enabled: bool)
        requires
            old(self).wf(),
        ensures
            final(self).wf(),
            *final(self) == (PipelineStateTracker {
                rasterizer: RasterizerDesc {
                    antialiased_line_enable: enabled,
                    ..old(self).rasterizer
                },
                ..*old(self)
            }),
    {
        self.rasterizer.antialiased_line_enable = enabled;
    }
}

/// A half-open byte range, as the native map and unmap calls take it.
#[derive(Clone, Copy, Debug, PartialEq, Eq, Structural)]
pub struct MemoryRange {
    pub begin: usize,
    pub end: usize,
}

/// The range of a resource mapping: an explicit span, everything up to an
/// end, or the whole resource.
#[derive(Clone, Copy, Debug, PartialEq, Eq, Structural)]
pub enum MappingRange {
    Span { begin: usize, end: usize },
    UpTo { end: usize },
    Whole,
}

impl MappingRange {
    /// The range object the native call takes: a span keeps its bounds, an
    /// open start begins at zero, and the whole resource passes no range.
    pub fn into_range_object(self) -> (r: Option<MemoryRange>)
        ensures
            r == match self {
                MappingRange::Span { begin, end } => Some(MemoryRange { begin, end }),
                MappingRange::UpTo { end } => Some(MemoryRange { begin: 0, end }),
                MappingRange::Whole => None::<MemoryRange>,
            },
    {
        match self {
            MappingRange::Span { begin, end } => Some(MemoryRange { begin, end }),
            MappingRange::UpTo { end } => Some(MemoryRange { begin: 0, end }),
            MappingRange::Whole => None,
        }
    }
}

} // verus!
