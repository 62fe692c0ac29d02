use comdrive::d3d11;
use comdrive::d3d11on12;
use comdrive::d3d12;
use comdrive::dxgi;
use comdrive::geometry::Size2U;

#[test]
fn swapchain_desc_fills_every_field() {
    let d = dxgi::swapchain_desc(
        Size2U(640, 480),
        dxgi::DXGI_FORMAT_R8G8B8A8_UNORM,
        dxgi::AlphaMode::Premultiplied,
        2,
        false,
    );
    assert_eq!(d.width, 640);
    assert_eq!(d.height, 480);
    assert_eq!(d.format, 28);
    assert!(!d.stereo);
    assert_eq!(d.sample.count, 1);
    assert_eq!(d.sample.quality, 0);
    assert_eq!(d.buffer_usage, 0x20);
    assert_eq!(d.buffer_count, 2);
    assert_eq!(d.scaling, 0);
    assert_eq!(d.swap_effect, 4);
    assert_eq!(d.alpha_mode, 1);
    assert_eq!(d.flags, 0);
}

#[test]
fn swapchain_sequential_effect() {
    let d = dxgi::swapchain_desc(
        Size2U(1, 1),
        dxgi::DXGI_FORMAT_B8G8R8A8_UNORM,
        dxgi::AlphaMode::Ignored,
        3,
        true,
    );
    assert_eq!(d.swap_effect, 3);
    assert_eq!(d.alpha_mode, 3);
    assert_eq!(d.format, 87);
}

#[test]
fn factory_flags_follow_debug() {
    assert_eq!(dxgi::factory_flags(true), 1);
    assert_eq!(dxgi::factory_flags(false), 0);
}

#[test]
fn debug_region_guids_differ() {
    let all = dxgi::region_guid(dxgi::DebugRegion::All);
    assert_eq!(all.data1, 0xe48ae283);
    assert_eq!(all.data4, [0x87, 0xe6, 0x43, 0xe9, 0xa9, 0xcf, 0xda, 0x08]);
    let app = dxgi::region_guid(dxgi::DebugRegion::App);
    assert_eq!(app.data1, 0x6cd6e01);
    assert_ne!(all, app);
    assert_ne!(dxgi::region_guid(dxgi::DebugRegion::DirectX), dxgi::region_guid(dxgi::DebugRegion::DXGI));
}

#[test]
fn dxgi_debug_iid_value() {
    let iid = comdrive::guid::dxgi_debug_iid();
    assert_eq!(iid.data1, 0x119e7452);
    assert_eq!(iid.data2, 0xde9e);
    assert_eq!(iid.data3, 0x40fe);
    assert_eq!(iid.data4, [0x88, 0x06, 0x88, 0xf9, 0x0c, 0x12, 0xb4, 0x41]);
}

#[test]
fn command_queue_desc_values() {
    let d = d3d12::command_queue_desc(d3d12::CommandType::Compute, -7);
    assert_eq!(d.queue_type, 2);
    assert_eq!(d.priority, -7);
    assert_eq!(d.flags, 0);
    assert_eq!(d.node_mask, 0);
}

#[test]
fn descriptor_heap_desc_shader_visibility() {
    let d = d3d12::descriptor_heap_desc(d3d12::DescriptorHeapContents::RenderTargetViews, 16, false);
    assert_eq!(d.heap_type, 2);
    assert_eq!(d.num_descriptors, 16);
    assert_eq!(d.flags, 0);
    let v = d3d12::descriptor_heap_desc(d3d12::DescriptorHeapContents::ShaderViews, 4, true);
    assert_eq!(v.heap_type, 0);
    assert_eq!(v.flags, 1);
}

#[test]
fn descriptor_handles_step_by_increment() {
    let h = d3d12::HostDescriptorHandle { ptr: 1000, increment: 32 };
    let h3 = h.offset(3);
    assert_eq!(h3.ptr, 1096);
    assert_eq!(h3.increment, 32);
    let g = d3d12::DeviceDescriptorHandle { ptr: 5000, increment: 64 };
    assert_eq!(g.offset(2).ptr, 5128);
}

#[test]
fn resource_flags_accumulate() {
    let f = d3d12::ResourceFlag::new().allow_render_target().allow_depth_stencil();
    assert_eq!(f.0, 0x3);
    assert_eq!(d3d12::ResourceFlag::new().simultaneous_access().0, 0x20);
}

#[test]
fn buffer_resource_desc_values() {
    let d = d3d12::ResourceDesc::buffer(4096);
    assert_eq!(d.dimension, 1);
    assert_eq!(d.alignment, 65536);
    assert_eq!(d.width, 4096);
    assert_eq!(d.height, 1);
    assert_eq!(d.depth_or_array_size, 1);
    assert_eq!(d.mip_levels, 1);
    assert_eq!(d.format, 0);
    assert_eq!(d.layout, 1);
    assert_eq!(d.flags, 0);
}

#[test]
fn texture_resource_desc_values() {
    let d = d3d12::ResourceDesc::texture2d(&Size2U(256, 128), dxgi::DXGI_FORMAT_R8G8B8A8_UNORM)
        .mip_levels(4)
        .array_size(6)
        .flags(d3d12::ResourceFlag::new().allow_render_target());
    assert_eq!(d.dimension, 3);
    assert_eq!(d.width, 256);
    assert_eq!(d.height, 128);
    assert_eq!(d.layout, 0);
    assert_eq!(d.mip_levels, 4);
    assert_eq!(d.depth_or_array_size, 6);
    assert_eq!(d.flags, 1);
}

#[test]
fn placed_buffer_desc_spans_the_range() {
    let d = d3d12::placed_buffer_desc(256, 1024);
    assert_eq!(d.width, 768);
    assert_eq!(d.dimension, 1);
}

#[test]
fn generic_read_state_bits() {
    assert_eq!(d3d12::ResourceState::GenericRead.value(), 0xac3);
    assert_eq!(d3d12::ResourceState::Present.value(), 0);
    assert_eq!(d3d12::ResourceState::CopyDest.value(), 0x400);
}

#[test]
fn heap_properties_and_desc() {
    let def = d3d12::HeapProperty::default();
    assert_eq!(def.heap_type, 1);
    let up = d3d12::HeapProperty::upload();
    assert_eq!(up.heap_type, 2);
    let d = d3d12::heap_desc(&up, 1 << 20, 0);
    assert_eq!(d.size_in_bytes, 1 << 20);
    assert_eq!(d.alignment, 65536);
    assert_eq!(d.properties, up);
}

#[test]
fn virtual_ptr_offsets_both_ways() {
    let p = d3d12::GraphicsVirtualPtr(1000);
    assert_eq!(p.offset(24).0, 1024);
    assert_eq!(p.offset(-1000).0, 0);
}

#[test]
fn buffer_views_measure_elements() {
    let v = d3d12::vertex_buffer_view(d3d12::GraphicsVirtualPtr(64), 12, 100);
    assert_eq!(v.buffer_location, 64);
    assert_eq!(v.stride_in_bytes, 12);
    assert_eq!(v.size_in_bytes, 1200);
    let i = d3d12::index_buffer_view(d3d12::GraphicsVirtualPtr(128), 300);
    assert_eq!(i.buffer_location, 128);
    assert_eq!(i.size_in_bytes, 600);
    assert_eq!(i.format, 57);
}

#[test]
fn root_parameters_carry_registers() {
    let c = d3d12::RootParameter::constant(d3d12::SHADER_VISIBILITY_VERTEX, 4, 0, 1);
    assert_eq!(c.visibility, 1);
    assert_eq!(c.parameter_type(), 1);
    assert_eq!(
        c.contents,
        d3d12::RootParameterContents::Constants { count: 4, register_index: 0, register_space: 1 }
    );
    let s = d3d12::RootParameter::shader_resource(d3d12::SHADER_VISIBILITY_PIXEL, 2, 0);
    assert_eq!(s.parameter_type(), 3);
    let b = d3d12::RootParameter::constant_buffer(d3d12::SHADER_VISIBILITY_ALL, 1, 0);
    assert_eq!(b.parameter_type(), 2);
    let t = d3d12::RootParameter::from_descriptor_table(d3d12::SHADER_VISIBILITY_PIXEL, 3);
    assert_eq!(t.parameter_type(), 0);
}

#[test]
fn static_sampler_linear_clamped_values() {
    let s = d3d12::StaticSampler::linear_clamped(d3d12::SHADER_VISIBILITY_PIXEL, 0, 0);
    assert_eq!(s.filter, 0x15);
    assert_eq!(s.address_u, 3);
    assert_eq!(s.address_v, 3);
    assert_eq!(s.address_w, 3);
    assert_eq!(s.max_anisotropy, 1);
    assert_eq!(s.comparison_func, 8);
    assert_eq!(s.border_color, 0);
    assert_eq!(s.visibility, 5);
}

#[test]
fn root_signature_desc_copies_inputs() {
    let params = [
        d3d12::RootParameter::constant(0, 4, 0, 0),
        d3d12::RootParameter::constant_buffer(0, 1, 0),
    ];
    let samplers = [d3d12::StaticSampler::linear_clamped(5, 0, 0)];
    let d = d3d12::root_signature_desc(&params, &samplers, 0x11);
    assert_eq!(d.parameters.len(), 2);
    assert_eq!(d.parameters[1], params[1]);
    assert_eq!(d.static_samplers.len(), 1);
    assert_eq!(d.flags, 0x11);
}

#[test]
fn barriers_and_copy_locations() {
    let t = d3d12::ResourceBarrier::transition(
        d3d12::ResourceState::Present,
        d3d12::ResourceState::RenderTarget,
    );
    assert_eq!(t.barrier_type(), 0);
    assert_eq!(
        t,
        d3d12::ResourceBarrier::Transition { subresource: 0, state_before: 0, state_after: 4 }
    );
    let a = d3d12::ResourceBarrier::aliasing(true);
    assert_eq!(a.barrier_type(), 1);

    let f = d3d12::PlacedSubresourceFootprint {
        offset: 512,
        format: 28,
        width: 64,
        height: 64,
        depth: 1,
        row_pitch: 256,
    };
    let pf = d3d12::TextureCopyLocation::with_placed_footprint(f);
    assert_eq!(pf.copy_type(), 1);
    let si = d3d12::TextureCopyLocation::with_subresource_index(2);
    assert_eq!(si.copy_type(), 0);
}

#[test]
fn footprints_are_joined_index_by_index() {
    let layouts = [
        d3d12::PlacedSubresourceFootprint {
            offset: 0,
            format: 28,
            width: 8,
            height: 8,
            depth: 1,
            row_pitch: 256,
        },
        d3d12::PlacedSubresourceFootprint {
            offset: 2048,
            format: 28,
            width: 4,
            height: 4,
            depth: 1,
            row_pitch: 256,
        },
    ];
    let rows = [8u32, 4u32];
    let sizes = [32u64, 16u64];
    let joined = d3d12::assemble_copyable_footprints(&layouts, &rows, &sizes);
    assert_eq!(joined.len(), 2);
    assert_eq!(joined[0].placed_footprint.offset, 0);
    assert_eq!(joined[0].row_count, 8);
    assert_eq!(joined[0].row_size_in_bytes, 32);
    assert_eq!(joined[1].placed_footprint.offset, 2048);
    assert_eq!(joined[1].row_count, 4);
    assert_eq!(joined[1].row_size_in_bytes, 16);
}

#[test]
fn d3d11_device_flags() {
    assert_eq!(d3d11::device_creation_flags(true), 0x22);
    assert_eq!(d3d11::device_creation_flags(false), 0x2);
}

#[test]
fn d3d11on12_layered_flags() {
    assert_eq!(d3d11on12::layered_device_flags(true, true), 0x22);
    assert_eq!(d3d11on12::layered_device_flags(true, false), 0x20);
    assert_eq!(d3d11on12::layered_device_flags(false, true), 0x2);
    assert_eq!(d3d11on12::layered_device_flags(false, false), 0);
}

#[test]
fn bind_flags_accumulate() {
    let f = d3d11::BindFlags::new().vertex_buffer().index_buffer();
    assert_eq!(f.0, 0x3);
    assert_eq!(d3d11::BindFlags::new().unordered_access().0, 0x80);
    assert_eq!(d3d11::BindFlags::new().render_target().constant_buffer().0, 0x4);
}

#[test]
fn texture_desc_2d_builders() {
    let mut d = d3d11::TextureDesc2D::new(320, 200, dxgi::DXGI_FORMAT_B8G8R8A8_UNORM);
    assert_eq!(d.width, 320);
    assert_eq!(d.height, 200);
    assert_eq!(d.usage, 0);
    assert!(!d.requires_initial_data());
    d.immutable();
    assert_eq!(d.usage, 1);
    assert!(d.requires_initial_data());
    d.staging();
    d.cpu_readable();
    assert_eq!(d.usage, 3);
    assert_eq!(d.cpu_access_flags, 0x20000);
    d.bound(d3d11::BindFlags::new().shader_resource());
    assert_eq!(d.bind_flags, 0x8);
}

#[test]
fn buffer_descs_measure_bytes() {
    let a = d3d11::array_buffer_desc(d3d11::BindFlags::new().vertex_buffer(), 12, 30);
    assert_eq!(a.byte_width, 360);
    assert_eq!(a.usage, 1);
    assert_eq!(a.bind_flags, 0x1);
    assert_eq!(a.cpu_access_flags, 0);
    let u = d3d11::update_buffer_desc(d3d11::BindFlags::new().constant_buffer(), 64);
    assert_eq!(u.byte_width, 64);
    assert_eq!(u.usage, 0);
    let m = d3d11::mutable_buffer_desc(d3d11::BindFlags::new().constant_buffer(), 128);
    assert_eq!(m.cpu_access_flags, 0x10000);
}

#[test]
fn input_element_per_vertex_values() {
    let e = d3d11::InputElement::per_vertex(0, dxgi::DXGI_FORMAT_R32G32B32_FLOAT, 0, 12);
    assert_eq!(e.format, 6);
    assert_eq!(e.aligned_byte_offset, 12);
    assert_eq!(e.input_slot_class, 0);
    assert_eq!(e.instance_data_step_rate, 0);
}

#[test]
fn sampler_state_builder_defaults_and_edits() {
    let mut s = d3d11::SamplerStateBuilder::new();
    assert_eq!(s.filter, 0x15);
    assert_eq!(s.address_u, 3);
    assert_eq!(s.max_anisotropy, 1);
    assert_eq!(s.comparison_func, 8);
    s.max_anisotropy(16);
    assert_eq!(s.max_anisotropy, 16);
    s.address(1, 2, 3);
    assert_eq!((s.address_u, s.address_v, s.address_w), (1, 2, 3));
}

#[test]
fn resize_keeps_creation_format_and_count() {
    let st = dxgi::SwapChainState { format: dxgi::DXGI_FORMAT_B8G8R8A8_UNORM, buffer_count: 3 };
    let r = dxgi::resize_args(&st, Size2U(800, 600));
    assert_eq!(r.buffer_count, 3);
    assert_eq!(r.width, 800);
    assert_eq!(r.height, 600);
    assert_eq!(r.format, 87);
    assert_eq!(r.flags, 0);
}
