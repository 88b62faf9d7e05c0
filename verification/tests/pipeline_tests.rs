//! Behaviour of the pipeline builder and the geometry layouts.

use render_core::camera::camera_bind_group_layout;
use render_core::geometry::{
    buffer_usage, instance_buffer_layout, mesh_indices, vertex_buffer_layout, AttributeFormat,
    BufferKind, StepMode,
};
use render_core::pipeline::{
    BindingKind, BlendMode, CullMode, FrontFace, PipelineBuilder, PixelFormat, PolygonMode,
    Topology, Visibility,
};
use render_core::texture::Texture;

#[test]
fn builder_starts_with_the_documented_defaults() {
    let b = PipelineBuilder::builder();
    assert_eq!(b.shader_filename, "shader.wgsl");
    assert_eq!(b.vertex_entry, "vs_main");
    assert_eq!(b.fragment_entry, "fs_main");
    assert_eq!(b.pixel_format, PixelFormat::Rgba8Unorm);
}

#[test]
fn setters_replace_only_their_fields() {
    let mut b = PipelineBuilder::builder();
    b.set_shader_module("vertex.wgsl", "vs_main", "fs_main");
    assert_eq!(b.shader_filename, "vertex.wgsl");
    assert_eq!(b.pixel_format, PixelFormat::Rgba8Unorm);
    b.set_pixel_format(PixelFormat::Reported { format_index: 3 });
    assert_eq!(b.pixel_format, PixelFormat::Reported { format_index: 3 });
    assert_eq!(b.shader_filename, "vertex.wgsl");
}

#[test]
fn build_pins_the_fixed_function_state() {
    let mut b = PipelineBuilder::builder();
    b.set_shader_module("vertex.wgsl", "vs_main", "fs_main");
    b.set_pixel_format(PixelFormat::Reported { format_index: 1 });
    let layouts = vec![Texture::get_texture_bind_group_layout(), camera_bind_group_layout()];
    let p = b.build(layouts);
    assert_eq!(p.shader_filename, "vertex.wgsl");
    assert_eq!(p.color_target.format, PixelFormat::Reported { format_index: 1 });
    assert_eq!(p.color_target.blend, BlendMode::Replace);
    assert!(p.color_target.write_mask_all);
    assert_eq!(p.primitive.topology, Topology::TriangleList);
    assert_eq!(p.primitive.front_face, FrontFace::CounterClockwise);
    assert_eq!(p.primitive.cull_mode, CullMode::Back);
    assert_eq!(p.primitive.polygon_mode, PolygonMode::Fill);
    assert!(p.primitive.strip_index_format_none);
    assert!(!p.primitive.unclipped_depth);
    assert!(!p.primitive.conservative);
    assert_eq!(p.multisample.count, 1);
    assert!(p.multisample.mask_all);
    assert!(!p.multisample.alpha_to_coverage_enabled);
    assert!(p.depth_stencil_none);
    assert_eq!(p.bind_group_layouts.len(), 2);
    assert_eq!(p.vertex_buffers.len(), 2);
    assert_eq!(p.vertex_buffers[0].step_mode, StepMode::Vertex);
    assert_eq!(p.vertex_buffers[1].step_mode, StepMode::Instance);
}

#[test]
fn vertex_layout_is_position_then_tex_coords() {
    let l = vertex_buffer_layout();
    assert_eq!(l.array_stride, 20);
    assert_eq!(l.attributes.len(), 2);
    assert_eq!(
        (l.attributes[0].shader_location, l.attributes[0].offset),
        (0, 0)
    );
    assert_eq!(l.attributes[0].format, AttributeFormat::Float32x3);
    assert_eq!(
        (l.attributes[1].shader_location, l.attributes[1].offset),
        (1, 12)
    );
    assert_eq!(l.attributes[1].format, AttributeFormat::Float32x2);
}

#[test]
fn instance_layout_packs_the_matrix_into_four_slots() {
    let l = instance_buffer_layout();
    assert_eq!(l.array_stride, 64);
    assert_eq!(l.attributes.len(), 4);
    for (i, a) in l.attributes.iter().enumerate() {
        assert_eq!(a.shader_location, 5 + i as u32);
        assert_eq!(a.offset, 16 * i as u32);
        assert_eq!(a.format, AttributeFormat::Float32x4);
    }
}

#[test]
fn camera_layout_is_one_vertex_stage_uniform() {
    let l = camera_bind_group_layout();
    assert_eq!(l.entries.len(), 1);
    assert_eq!(l.entries[0].binding, 0);
    assert_eq!(l.entries[0].visibility, Visibility::Vertex);
    assert_eq!(l.entries[0].kind, BindingKind::UniformBuffer);
}

#[test]
fn mesh_indices_stay_inside_the_vertex_count() {
    let idx = mesh_indices();
    assert_eq!(idx, vec![0, 1, 4, 1, 2, 4, 2, 3, 4]);
    assert!(idx.iter().all(|&i| i < 5));
}

#[test]
fn buffer_usages_are_exact_per_kind() {
    for kind in [BufferKind::Vertex, BufferKind::Instance] {
        let u = buffer_usage(kind);
        assert!(u.vertex && !u.index && !u.uniform && !u.copy_dst);
    }
    let u = buffer_usage(BufferKind::Index);
    assert!(!u.vertex && u.index && !u.uniform && !u.copy_dst);
    let u = buffer_usage(BufferKind::Uniform);
    assert!(!u.vertex && !u.index && u.uniform && u.copy_dst);
}
