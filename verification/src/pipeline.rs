//! Assembling the render pipeline description.
//!
//! A pipeline is configured through a small builder — shader module name,
//! entry points, pixel format — and everything else about it is fixed by
//! design: triangle-list topology, counter-clockwise front faces, back-face
//! culling, filled polygons, straight-replace blending, a single sample,
//! and no depth/stencil test.  The builder's terminal step produces a
//! [`PipelinePlan`] that pins every one of those choices; the host compiles
//! the shader source and creates the GPU pipeline object from the plan.
//! A shader that fails to compile is a non-recoverable configuration error
//! on the host side, not a per-frame error.
//!
//! The enums below list only the states this core ever chooses; the host
//! maps each variant onto the graphics API's corresponding value.

use vstd::prelude::*;

use crate::geometry::{instance_buffer_layout, vertex_buffer_layout, BufferLayoutPlan, StepMode};

verus! {

/// The pixel format a pipeline renders to: the default 8-bit RGBA
/// normalized format, or the format the surface configuration chose from
/// the adapter's reported list (by index into that list).
#[derive(Clone, Copy, Debug, PartialEq, Eq, Structural)]
pub enum PixelFormat {
    Rgba8Unorm,
    Reported { format_index: usize },
}

/// How vertices are assembled into primitives.
#[derive(Clone, Copy, Debug, PartialEq, Eq, Structural)]
pub enum Topology {
    TriangleList,
}

/// Which winding order counts as front-facing.
#[derive(Clone, Copy, Debug, PartialEq, Eq, Structural)]
pub enum FrontFace {
    CounterClockwise,
}

/// Which faces are culled.
#[derive(Clone, Copy, Debug, PartialEq, Eq, Structural)]
pub enum CullMode {
    Back,
}

/// How polygons are rasterized.
#[derive(Clone, Copy, Debug, PartialEq, Eq, Structural)]
pub enum PolygonMode {
    Fill,
}

/// How fragment output blends with the target.
#[derive(Clone, Copy, Debug, PartialEq, Eq, Structural)]
pub enum BlendMode {
    Replace,
}

/// Fixed-function primitive state of the pipeline.
#[derive(Clone, Copy, Debug, PartialEq, Eq, Structural)]
pub struct PrimitivePlan {
    pub topology: Topology,
    pub front_face: FrontFace,
    pub cull_mode: CullMode,
    pub polygon_mode: PolygonMode,
    pub strip_index_format_none: bool,
    pub unclipped_depth: bool,
    pub conservative: bool,
}

/// Multisample state of the pipeline.
#[derive(Clone, Copy, Debug, PartialEq, Eq, Structural)]
pub struct MultisamplePlan {
    pub count: u32,
    pub mask_all: bool,
    pub alpha_to_coverage_enabled: bool,
}

/// The single color target of the fragment stage.
#[derive(Clone, Copy, Debug, PartialEq, Eq, Structural)]
pub struct ColorTargetPlan {
    pub format: PixelFormat,
    pub blend: BlendMode,
    pub write_mask_all: bool,
}

/// What a resource binding exposes to the shader.
#[derive(Clone, Copy, Debug, PartialEq, Eq, Structural)]
pub enum BindingKind {
    /// A sampled 2D texture, float-sampled, filterable, not multisampled.
    Texture2dFloatFilterable,
    /// A filtering sampler.
    FilteringSampler,
    /// A uniform buffer, statically offset and sized.
    UniformBuffer,
}

/// Which shader stages see a binding.
#[derive(Clone, Copy, Debug, PartialEq, Eq, Structural)]
pub enum Visibility {
    Vertex,
    Fragment,
}

/// One entry of a bind group layout.
#[derive(Clone, Copy, Debug, PartialEq, Eq, Structural)]
pub struct BindingPlan {
    pub binding: u32,
    pub visibility: Visibility,
    pub kind: BindingKind,
}

/// A bind group layout: the bindings one group slot exposes.
#[derive(Debug)]
pub struct BindGroupLayoutPlan {
    pub entries: Vec<BindingPlan>,
}

/// Everything the host needs to create the render pipeline.
pub struct PipelinePlan {
    /// Name of the shader module whose source the host loads and compiles.
    pub shader_filename: String,
    pub vertex_entry: String,
    pub fragment_entry: String,
    /// Vertex buffer layouts in slot order: per-vertex data in slot 0,
    /// per-instance data in slot 1, as the draw call binds them.
    pub vertex_buffers: Vec<BufferLayoutPlan>,
    /// Bind group layouts in group-slot order.
    pub bind_group_layouts: Vec<BindGroupLayoutPlan>,
    pub color_target: ColorTargetPlan,
    pub primitive: PrimitivePlan,
    pub multisample: MultisamplePlan,
    pub depth_stencil_none: bool,
}

impl PipelinePlan {
    /// The fixed-function state every pipeline of this renderer carries.
    pub open spec fn is_fixed_function(&self) -> bool {
        &&& self.primitive == (PrimitivePlan {
            topology: Topology::TriangleList,
            front_face: FrontFace::CounterClockwise,
            cull_mode: CullMode::Back,
            polygon_mode: PolygonMode::Fill,
            strip_index_format_none: true,
            unclipped_depth: false,
            conservative: false,
        })
        &&& self.multisample == (MultisamplePlan {
            count: 1,
            mask_all: true,
            alpha_to_coverage_enabled: false,
        })
        &&& self.color_target.blend == BlendMode::Replace
        &&& self.color_target.write_mask_all
        &&& self.depth_stencil_none
        &&& self.vertex_buffers@.len() == 2
        &&& self.vertex_buffers@[0].step_mode == StepMode::Vertex
        &&& self.vertex_buffers@[1].step_mode == StepMode::Instance
    }
}

/// Mutable configuration of a pipeline before it is built.
pub struct PipelineBuilder {
    pub shader_filename: String,
    pub vertex_entry: String,
    pub fragment_entry: String,
    pub pixel_format: PixelFormat,
}

impl PipelineBuilder {
    /// A fresh builder with the default configuration: shader module
    /// `shader.wgsl`, entry points `vs_main` and `fs_main`, and the 8-bit
    /// RGBA normalized pixel format.
    pub fn builder() -> (r: PipelineBuilder)
        ensures
            r.shader_filename@ == "shader.wgsl"@,
            r.vertex_entry@ == "vs_main"@,
            r.fragment_entry@ == "fs_main"@,
            r.pixel_format == PixelFormat::Rgba8Unorm,
    {
        PipelineBuilder {
            shader_filename: "shader.wgsl".to_string(),
            vertex_entry: "vs_main".to_string(),
            fragment_entry: "fs_main".to_string(),
            pixel_format: PixelFormat::Rgba8Unorm,
        }
    }

    /// Points the builder at a shader module and its two entry points.
    pub fn set_shader_module(
        &mut self,
        shader_filename: &str,
        vertex_entry: &str,
        fragment_entry: &str,
    )
        ensures
            final(self).shader_filename@ == shader_filename@,
            final(self).vertex_entry@ == vertex_entry@,
            final(self).fragment_entry@ == fragment_entry@,
            final(self).pixel_format == old(self).pixel_format,
    {
        self.shader_filename = shader_filename.to_string();
        self.vertex_entry = vertex_entry.to_string();
        self.fragment_entry = fragment_entry.to_string();
    }

    /// Sets the pixel format the pipeline renders to.
    pub fn set_pixel_format(&mut self, pixel_format: PixelFormat)
        ensures
            final(self).pixel_format == pixel_format,
            final(self).shader_filename@ == old(self).shader_filename@,
            final(self).vertex_entry@ == old(self).vertex_entry@,
            final(self).fragment_entry@ == old(self).fragment_entry@,
    {
        self.pixel_format = pixel_format;
    }

    /// Assembles the pipeline description: the configured shader and
    /// format, the given bind group layouts in slot order, and the fixed
    /// primitive, blend and multisample state.
    pub fn build(self, bind_group_layouts: Vec<BindGroupLayoutPlan>) -> (r: PipelinePlan)
        ensures
            r.shader_filename@ == self.shader_filename@,
            r.vertex_entry@ == self.vertex_entry@,
            r.fragment_entry@ == self.fragment_entry@,
            r.color_target.format == self.pixel_format,
            r.bind_group_layouts@ == bind_group_layouts@,
            r.is_fixed_function(),
            r.vertex_buffers@[0].array_stride == crate::geometry::VERTEX_STRIDE,
            r.vertex_buffers@[1].array_stride == crate::geometry::INSTANCE_STRIDE,
            r.vertex_buffers@[0].attributes@ == crate::geometry::spec_vertex_attributes(),
            r.vertex_buffers@[1].attributes@ == crate::geometry::spec_instance_attributes(),
            r.vertex_buffers@[0].is_packed(),
            r.vertex_buffers@[1].is_packed(),
    {
        let mut vertex_buffers: Vec<BufferLayoutPlan> = Vec::new();
        vertex_buffers.push(vertex_buffer_layout());
        vertex_buffers.push(instance_buffer_layout());
        PipelinePlan {
            shader_filename: self.shader_filename,
            vertex_entry: self.vertex_entry,
            fragment_entry: self.fragment_entry,
            vertex_buffers,
            bind_group_layouts,
            color_target: ColorTargetPlan {
                format: self.pixel_format,
                blend: BlendMode::Replace,
                write_mask_all: true,
            },
            primitive: PrimitivePlan {
                topology: Topology::TriangleList,
                front_face: FrontFace::CounterClockwise,
                cull_mode: CullMode::Back,
                polygon_mode: PolygonMode::Fill,
                strip_index_format_none: true,
                unclipped_depth: false,
                conservative: false,
            },
            multisample: MultisamplePlan { count: 1, mask_all: true, alpha_to_coverage_enabled: false },
            depth_stencil_none: true,
        }
    }
}

} // verus!
