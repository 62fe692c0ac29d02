use comdrive::d2;
use comdrive::d3d12;
use comdrive::d3d12::{
    CullMode, FillMode, InputClassification, MappingRange, MemoryRange, PrimitiveTopology,
    RootConstant,
};
use comdrive::dcomp;
use comdrive::dcomp::InsertAt;
use comdrive::dwrite;

#[test]
fn tracker_defaults_match_the_native_ones() {
    let t = d3d12::PipelineStateTracker::new();
    assert_eq!(t.primitive_topology_type, 3);
    assert!(!t.blend_alpha_to_coverage);
    assert!(!t.blend_independent);
    assert!(!t.render_target_blend.blend_enable);
    assert_eq!(t.render_target_blend.write_mask, 0xf);
    assert_eq!(t.sample_mask, 0xffffffff);
    assert_eq!(t.rasterizer.fill_mode, 3);
    assert_eq!(t.rasterizer.cull_mode, 1);
    assert_eq!(t.rasterizer.depth_bias, 0);
    assert!(!t.depth_stencil.depth_enable);
    assert_eq!(t.depth_stencil.depth_func, 8);
    assert_eq!(t.depth_stencil.front_face.stencil_pass_op, 1);
    assert_eq!(t.ib_strip_cut_value, 1);
    assert_eq!(t.num_render_targets, 1);
    assert_eq!(t.rtv_formats.as_slice(), &[0u32; 8]);
    assert_eq!(t.dsv_format, 0);
    assert_eq!(t.sample.count, 1);
    assert_eq!(t.node_mask, 0);
}

#[test]
fn render_target_formats_pad_with_unknown() {
    let mut t = d3d12::PipelineStateTracker::new();
    t.set_render_target_formats(&[28, 87, 57]);
    assert_eq!(t.num_render_targets, 3);
    assert_eq!(t.rtv_formats.as_slice(), &[28, 87, 57, 0, 0, 0, 0, 0]);
    t.set_render_target_formats(&[2]);
    assert_eq!(t.num_render_targets, 1);
    assert_eq!(t.rtv_formats.as_slice(), &[2, 0, 0, 0, 0, 0, 0, 0]);
}

#[test]
fn tracker_edits_take_effect() {
    let mut t = d3d12::PipelineStateTracker::new();
    t.set_primitive_topology_type(d3d12::PrimitiveTopologyType::Line);
    assert_eq!(t.primitive_topology_type, 2);
    t.set_blend_state_common(d3d12::Blending::palpha(), true);
    assert!(t.blend_alpha_to_coverage);
    assert!(t.render_target_blend.blend_enable);
    t.set_line_antialiasing(true);
    assert!(t.rasterizer.antialiased_line_enable);
}

#[test]
fn premultiplied_alpha_blend_values() {
    let b = d3d12::Blending::palpha();
    assert!(b.blend_enable);
    assert_eq!(b.src_blend, 2);
    assert_eq!(b.dest_blend, 6);
    assert_eq!(b.blend_op, 1);
    assert_eq!(b.src_blend_alpha, 2);
    assert_eq!(b.dest_blend_alpha, 6);
    assert_eq!(b.blend_op_alpha, 1);
    assert_eq!(b.write_mask, 0xf);
    let d = d3d12::Blending::disabled();
    assert!(!d.blend_enable);
    assert_eq!(d.write_mask, 0xf);
}

#[test]
fn topology_and_mode_codes() {
    assert_eq!(FillMode::Solid.value(), 3);
    assert_eq!(FillMode::Wired.value(), 2);
    assert_eq!(CullMode::Disabled.value(), 1);
    assert_eq!(CullMode::Front.value(), 2);
    assert_eq!(CullMode::Back.value(), 3);
    assert_eq!(PrimitiveTopology::TriangleStrip.value(), 5);
    assert_eq!(PrimitiveTopology::LineListWithAdjacency.value(), 10);
    assert_eq!(InputClassification::PerInstance.value(), 1);
}

#[test]
fn root_constants_pass_as_bits() {
    assert_eq!(7u32.passing_form(), 7);
    assert_eq!((-1i32).passing_form(), 0xffffffff);
}

#[test]
fn command_types_and_feature_levels() {
    assert_eq!(d3d12::CommandType::Direct.value(), 0);
    assert_eq!(d3d12::CommandType::Copy.value(), 3);
    assert_eq!(comdrive::d3d::FeatureLevel::V11.value(), 0xb000);
    assert_eq!(comdrive::d3d::FeatureLevel::V12.value(), 0xc000);
    assert_eq!(comdrive::d3d::driver_type(true), 0);
    assert_eq!(comdrive::d3d::driver_type(false), 1);
}

#[test]
fn d2_codes() {
    assert_eq!(d2::AntialiasMode::Aliased.value(), 1);
    assert_eq!(d2::AntialiasMode::PerPrimitive.value(), 0);
    assert_eq!(d2::Gamma::Linear.value(), 1);
    assert_eq!(d2::Gamma::SRGB.value(), 0);
    assert_eq!(d2::ExtendMode::Mirror.value(), 2);
    assert_eq!(d2::SweepDirection::CW.value(), 1);
    assert_eq!(d2::ArcSize::Large.value(), 1);
    assert_eq!(d2::figure_begin(true), 0);
    assert_eq!(d2::figure_begin(false), 1);
    assert_eq!(d2::figure_end(true), 1);
    assert_eq!(d2::figure_end(false), 0);
}

#[test]
fn d2_creation_settings() {
    let p = d2::creation_properties(true);
    assert_eq!(p.debug_level, 2);
    assert_eq!(p.threading_mode, 1);
    assert_eq!(p.options, 0);
    assert_eq!(d2::creation_properties(false).threading_mode, 0);
    assert_eq!(d2::device_context_options(true), 1);
    assert_eq!(d2::device_context_options(false), 0);
    assert_eq!(d2::factory_type(true), 1);
}

#[test]
fn d2_render_target_bitmap_options() {
    assert_eq!(d2::render_target_bitmap_options(true), 0x3);
    assert_eq!(d2::render_target_bitmap_options(false), 0x1);
}

#[test]
fn dcomp_insertion_flags() {
    assert!(!InsertAt::Top.insert_below_flag());
    assert!(InsertAt::Bottom.insert_below_flag());
    assert!(InsertAt::Above.insert_below_flag());
    assert!(!InsertAt::Below.insert_below_flag());
    assert!(!InsertAt::Top.has_reference());
    assert!(!InsertAt::Bottom.has_reference());
    assert!(InsertAt::Above.has_reference());
    assert!(InsertAt::Below.has_reference());
    assert_eq!(dcomp::BitmapInterpolationMode::Linear.value(), 1);
    assert_eq!(dcomp::BitmapInterpolationMode::NearestNeighbor.value(), 0);
}

#[test]
fn font_options_default_is_normal() {
    let o = dwrite::FontOptions::default();
    assert_eq!(o.weight, 400);
    assert_eq!(o.style, 0);
    assert_eq!(o.stretch, 5);
}

#[test]
fn text_ranges() {
    let r = dwrite::text_range(3, 10);
    assert_eq!(r.start_position, 3);
    assert_eq!(r.length, 7);
    let f = dwrite::full_text_range();
    assert_eq!(f.start_position, 0);
    assert_eq!(f.length, u32::MAX);
}

#[test]
fn family_search_results() {
    assert_eq!(dwrite::family_search_result(5, 0), None);
    assert_eq!(dwrite::family_search_result(5, 1), Some(5));
    assert_eq!(dwrite::family_search_result(0, -1), Some(0));
}

#[test]
fn font_file_analysis_reads_flag() {
    let a = dwrite::font_file_analysis(1, 2, 3, 4);
    assert!(a.is_supported);
    assert_eq!((a.file_type, a.face_type, a.face_count), (2, 3, 4));
    assert!(!dwrite::font_file_analysis(0, 0, 0, 0).is_supported);
}

#[test]
fn text_format_request_encodes_names() {
    let r = dwrite::text_format_request("Meiryo", dwrite::FontOptions::default()).unwrap();
    assert_eq!(
        r.family.as_units().as_slice(),
        &[0x4du16, 0x65, 0x69, 0x72, 0x79, 0x6f, 0]
    );
    assert_eq!(
        r.locale.as_units().as_slice(),
        &[0x6au16, 0x61, 0x2d, 0x4a, 0x50, 0]
    );
    assert_eq!(r.options.weight, 400);
}

#[test]
fn text_format_request_refuses_interior_nul() {
    let r = dwrite::text_format_request("bad\0name", dwrite::FontOptions::default());
    assert_eq!(r.unwrap_err(), comdrive::wide::WideStringError::InteriorNul);
}

#[test]
fn mapping_ranges_translate() {
    assert_eq!(
        MappingRange::Span { begin: 16, end: 64 }.into_range_object(),
        Some(MemoryRange { begin: 16, end: 64 })
    );
    assert_eq!(
        MappingRange::UpTo { end: 32 }.into_range_object(),
        Some(MemoryRange { begin: 0, end: 32 })
    );
    assert_eq!(MappingRange::Whole.into_range_object(), None);
}

#[test]
fn hwnd_render_target_properties_are_defaulted() {
    let p = d2::hwnd_render_target_properties();
    assert_eq!(p.target_type, 0);
    assert_eq!(p.pixel_format, 0);
    assert_eq!(p.pixel_alpha_mode, 0);
    assert_eq!(p.usage, 0);
    assert_eq!(p.min_level, 0);
    assert_eq!((p.pixel_width, p.pixel_height), (0, 0));
    assert_eq!(p.present_options, 0);
}

#[test]
fn glyph_run_argument_lengths() {
    assert!(dwrite::glyph_run_arguments_consistent(4, None, None));
    assert!(dwrite::glyph_run_arguments_consistent(4, Some(4), Some(4)));
    assert!(!dwrite::glyph_run_arguments_consistent(4, Some(3), None));
    assert!(!dwrite::glyph_run_arguments_consistent(4, None, Some(5)));
}

#[test]
fn geometry_accessors() {
    let s = comdrive::geometry::Size2U(12, 34);
    assert_eq!((s.width(), s.height()), (12, 34));
    let p = comdrive::geometry::Point2(-3, 9);
    assert_eq!((p.x(), p.y()), (-3, 9));
}
