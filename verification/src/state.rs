//! The render state core.
//!
//! [`State`] owns everything the renderer decides between frames: the
//! swapchain configuration and its mirror of the window size, the mesh
//! and instance counts the draw call spans, the instance grid, the camera
//! controller and the camera uniform.  The host owns the GPU handles and
//! executes what the methods here return.

use vstd::prelude::*;

use crate::camera::{CameraController, CameraUniform, InputEvent, MoveIntent, UniformWritePlan,
    DEFAULT_SPEED_MILLI};
use crate::frame::{background, AcquireOutcome, BindGroupRef, DrawPlan, FramePlan, VertexBufferRef,
    spec_background};
use crate::geometry::{mesh_index_seq, mesh_indices, num_indices};
use crate::instances::{make_default_grid, spec_grid, Instance, INSTANCES_PER_ROW,
    INSTANCE_DISPLACEMENT};
use crate::pipeline::{BindGroupLayoutPlan, PipelineBuilder, PipelinePlan, PixelFormat};
use crate::surface::{configure_surface, spec_chosen_format, SurfaceCaps, SurfaceConfig};
use crate::texture::Texture;
use crate::camera::camera_bind_group_layout;
use crate::FrameSize;

verus! {

/// The renderer's state between frames.
pub struct State {
    /// The current swapchain configuration.
    pub config: SurfaceConfig,
    /// Mirror of the last known drawable window size.
    pub size: FrameSize,
    /// How many indices one draw call spans.
    pub num_indices: u32,
    /// The instance grid of the scene, in generation order.
    pub instances: Vec<Instance>,
    pub camera_controller: CameraController,
    pub camera_uniform: CameraUniform,
}

impl State {
    /// The state's standing invariant: the configuration mirrors the last
    /// known drawable size, the index count is the mesh's, the instance
    /// count fits the draw call's 32-bit range, and the camera uniform
    /// holds a full matrix.
    pub open spec fn wf(&self) -> bool {
        &&& self.config.mirrors(self.size)
        &&& self.num_indices == mesh_index_seq().len()
        &&& self.instances@.len() <= u32::MAX
        &&& self.camera_uniform.wf()
    }

    /// Builds the initial state for a drawable window: the surface
    /// configuration chosen from the adapter's capabilities, the
    /// reference scene's 10-by-10 instance grid centred on the origin,
    /// a fresh controller, and the identity camera uniform.
    pub fn new(caps: &SurfaceCaps, size: FrameSize) -> (r: State)
        requires
            caps.is_reported(),
            size.is_drawable(),
        ensures
            r.wf(),
            r.size == size,
            r.config.mirrors(size),
            r.config.format_index == spec_chosen_format(caps.format_srgb@),
            r.config.format_index < caps.format_srgb@.len(),
            r.config.format_is_srgb == exists|i: int|
                0 <= i < caps.format_srgb@.len() && caps.format_srgb@[i],
            r.config.present_mode_index == 0,
            r.config.alpha_mode_index == 0,
            r.config.desired_maximum_frame_latency == 2,
            r.config.usage_render_attachment,
            r.config.view_formats_empty,
            r.num_indices == mesh_index_seq().len(),
            r.instances@ == spec_grid(
                INSTANCES_PER_ROW as int,
                INSTANCE_DISPLACEMENT as int,
                INSTANCE_DISPLACEMENT as int,
            ),
            r.instances@.len() == INSTANCES_PER_ROW * INSTANCES_PER_ROW,
            r.camera_controller == (CameraController {
                speed_milli: DEFAULT_SPEED_MILLI,
                is_forward_pressed: false,
                is_backward_pressed: false,
                is_left_pressed: false,
                is_right_pressed: false,
            }),
            r.camera_uniform.view_proj_bits@ == crate::camera::spec_identity_bits(),
    {
        let config = configure_surface(caps, size);
        let instances = make_default_grid();
        State {
            config,
            size,
            num_indices: num_indices(),
            instances,
            camera_controller: CameraController::new(DEFAULT_SPEED_MILLI),
            camera_uniform: CameraUniform::new(),
        }
    }

    /// The aspect ratio the camera sees, as the exact pair of the
    /// configured width and height; the host divides them in its scalar
    /// type.  It is recomputed from the configuration, so it follows
    /// every resize.
    pub fn aspect_ratio(&self) -> (r: (u32, u32))
        ensures
            r.0 == self.config.width,
            r.1 == self.config.height,
    {
        (self.config.width, self.config.height)
    }

    /// Applies a window resize.
    ///
    /// A size with a zero dimension is ignored entirely — the stored size
    /// and configuration stay as they were and no reconfiguration is
    /// asked of the host.  (A surface must never be configured with a
    /// zero dimension; guarding each dimension separately closes the gap
    /// left by guarding only the case of both being zero.)  For a
    /// drawable size, the stored size and the configuration's dimensions
    /// move to the new size, nothing else changes, and the host must
    /// reconfigure the surface — in place, with the same device and
    /// queue — before the next frame.
    pub fn resize(&mut self, new_size: FrameSize) -> (reconfigure: bool)
        requires
            old(self).wf(),
        ensures
            final(self).wf(),
            reconfigure == new_size.is_drawable(),
            !new_size.is_drawable() ==> *final(self) == *old(self),
            new_size.is_drawable() ==> final(self).size == new_size && final(self).config == (
            SurfaceConfig {
                width: new_size.width,
                height: new_size.height,
                ..old(self).config
            }),
            final(self).num_indices == old(self).num_indices,
            final(self).instances@ == old(self).instances@,
            final(self).camera_controller == old(self).camera_controller,
            final(self).camera_uniform.view_proj_bits@ == old(self).camera_uniform.view_proj_bits@,
    {
        if new_size.width < 1 || new_size.height < 1 {
            return false;
        }
        self.size = new_size;
        self.config.width = new_size.width;
        self.config.height = new_size.height;
        true
    }

    /// The draw this state issues when a frame succeeds: clear to the
    /// fixed background, bind the diffuse texture at group 0 and the
    /// camera uniform at group 1, the mesh vertices at vertex slot 0 and
    /// the instance transforms at slot 1, and span the full index range
    /// across the full instance range through the 16-bit index buffer.
    pub open spec fn is_draw_for(&self, d: DrawPlan) -> bool {
        &&& d.clear_color == spec_background()
        &&& d.bind_groups@ == seq![BindGroupRef::DiffuseTexture, BindGroupRef::CameraUniform]
        &&& d.vertex_buffers@ == seq![
            VertexBufferRef::MeshVertices,
            VertexBufferRef::InstanceTransforms,
        ]
        &&& d.index_format_u16
        &&& d.index_count == self.num_indices
        &&& d.instance_count == self.instances@.len()
    }

    /// Decides one redraw tick from the acquire outcome.
    ///
    /// On success the frame is drawn: one pass, one submission, one
    /// present, exactly the draw of `is_draw_for`.  A lost or outdated
    /// surface is reconfigured at the last known size and the frame is
    /// skipped — one reconfiguration, no GPU work.  Out of memory is
    /// fatal.  Any other acquisition failure skips the frame and the
    /// loop goes on.
    pub fn render(&self, acquire: AcquireOutcome) -> (r: FramePlan)
        requires
            self.wf(),
        ensures
            acquire is Success ==> (r matches FramePlan::Draw(d) && self.is_draw_for(d)),
            acquire is Lost || acquire is Outdated ==> (r matches FramePlan::Reconfigure(s) && s
                == self.size),
            acquire is OutOfMemory ==> r is Fatal,
            acquire is Timeout ==> r is SkipFrame,
    {
        match acquire {
            AcquireOutcome::Success => {
                let mut bind_groups: Vec<BindGroupRef> = Vec::new();
                bind_groups.push(BindGroupRef::DiffuseTexture);
                bind_groups.push(BindGroupRef::CameraUniform);
                let mut vertex_buffers: Vec<VertexBufferRef> = Vec::new();
                vertex_buffers.push(VertexBufferRef::MeshVertices);
                vertex_buffers.push(VertexBufferRef::InstanceTransforms);
                proof {
                    assert(bind_groups@ =~= seq![
                        BindGroupRef::DiffuseTexture,
                        BindGroupRef::CameraUniform,
                    ]);
                    assert(vertex_buffers@ =~= seq![
                        VertexBufferRef::MeshVertices,
                        VertexBufferRef::InstanceTransforms,
                    ]);
                }
                let d = DrawPlan {
                    clear_color: background(),
                    bind_groups,
                    vertex_buffers,
                    index_format_u16: true,
                    index_count: self.num_indices,
                    instance_count: self.instances.len() as u32,
                };
                FramePlan::Draw(d)
            },
            AcquireOutcome::Lost => FramePlan::Reconfigure(self.size),
            AcquireOutcome::Outdated => FramePlan::Reconfigure(self.size),
            AcquireOutcome::OutOfMemory => FramePlan::Fatal,
            AcquireOutcome::Timeout => FramePlan::SkipFrame,
        }
    }

    /// Feeds one input event to the camera controller; consumed exactly
    /// when it was a movement key.
    pub fn input(&mut self, event: &InputEvent) -> (consumed: bool)
        ensures
            consumed == (*event matches InputEvent::Key { .. }),
            *event matches InputEvent::Key { key, pressed } ==> final(self).camera_controller
                == old(self).camera_controller.spec_with_flag(key, pressed),
            *event is Other ==> final(self).camera_controller == old(self).camera_controller,
            final(self).config == old(self).config,
            final(self).size == old(self).size,
            final(self).num_indices == old(self).num_indices,
            final(self).instances@ == old(self).instances@,
            final(self).camera_uniform.view_proj_bits@ == old(self).camera_uniform.view_proj_bits@,
    {
        self.camera_controller.process_events(event)
    }

    /// The per-tick update the host performs before rendering: advance
    /// the camera by this movement intent, recompute the view-projection
    /// words, store them with [`State::update_view_proj`], and overwrite
    /// the uniform buffer as the write plan says — 64 bytes at offset
    /// zero of the existing buffer.
    pub fn update(&self) -> (r: (MoveIntent, UniformWritePlan))
        ensures
            r.0 == (MoveIntent {
                forward: self.camera_controller.is_forward_pressed,
                backward: self.camera_controller.is_backward_pressed,
                left: self.camera_controller.is_left_pressed,
                right: self.camera_controller.is_right_pressed,
                speed_milli: self.camera_controller.speed_milli,
            }),
            r.1.offset == 0,
            r.1.size_bytes == 64,
    {
        (self.camera_controller.intent(), self.camera_uniform.write_plan())
    }

    /// Stores the freshly computed view-projection words.
    pub fn update_view_proj(&mut self, bits: &[u32])
        requires
            bits@.len() == 16,
        ensures
            final(self).camera_uniform.view_proj_bits@ == bits@,
            final(self).config == old(self).config,
            final(self).size == old(self).size,
            final(self).num_indices == old(self).num_indices,
            final(self).instances@ == old(self).instances@,
            final(self).camera_controller == old(self).camera_controller,
    {
        self.camera_uniform.update_view_proj(bits);
    }

    /// Composes the render pipeline of this renderer: the `vertex.wgsl`
    /// shader with its two standard entry points, rendering to the format
    /// the surface configuration chose, against the bind group layouts in
    /// the same slot order a frame's draw binds them — the sampled
    /// texture at group 0, the camera uniform at group 1 — and the fixed
    /// primitive, blend and multisample state.
    pub fn pipeline_plan(&self) -> (r: PipelinePlan)
        ensures
            r.shader_filename@ == "vertex.wgsl"@,
            r.vertex_entry@ == "vs_main"@,
            r.fragment_entry@ == "fs_main"@,
            r.color_target.format == (PixelFormat::Reported {
                format_index: self.config.format_index,
            }),
            r.bind_group_layouts@.len() == 2,
            r.bind_group_layouts@[0].entries@ == crate::texture::spec_texture_bindings(),
            r.bind_group_layouts@[1].entries@ == crate::camera::spec_camera_bindings(),
            r.is_fixed_function(),
            r.vertex_buffers@[0].attributes@ == crate::geometry::spec_vertex_attributes(),
            r.vertex_buffers@[1].attributes@ == crate::geometry::spec_instance_attributes(),
            r.vertex_buffers@[0].array_stride == crate::geometry::VERTEX_STRIDE,
            r.vertex_buffers@[1].array_stride == crate::geometry::INSTANCE_STRIDE,
    {
        let mut builder = PipelineBuilder::builder();
        builder.set_shader_module("vertex.wgsl", "vs_main", "fs_main");
        builder.set_pixel_format(PixelFormat::Reported { format_index: self.config.format_index });
        let mut layouts: Vec<BindGroupLayoutPlan> = Vec::new();
        layouts.push(Texture::get_texture_bind_group_layout());
        layouts.push(camera_bind_group_layout());
        builder.build(layouts)
    }

    /// Resizing to any drawable size keeps the renderer renderable: the
    /// state `resize` leaves behind — the new size mirrored into the
    /// configuration, all else unchanged — is well-formed again, so
    /// `render` accepts it for every acquire outcome, and the reported
    /// aspect-ratio pair is exactly the new width and height.
    pub proof fn lemma_resize_keeps_renderable(self, new_size: FrameSize)
        requires
            self.wf(),
            new_size.is_drawable(),
        ensures
            ({
                let resized = State {
                    size: new_size,
                    config: SurfaceConfig {
                        width: new_size.width,
                        height: new_size.height,
                        ..self.config
                    },
                    ..self
                };
                resized.wf() && resized.config.width == new_size.width && resized.config.height
                    == new_size.height
            }),
    {
    }

    /// The static buffer contents the core decides: the 16-bit index
    /// list of the mesh and the index count the draw call spans.  The
    /// per-vertex scalar data is the host's, uploaded once beside these
    /// into vertex- and index-usage buffers.
    pub fn create_buffers() -> (r: (Vec<u16>, u32))
        ensures
            r.0@ == mesh_index_seq(),
            r.1 == mesh_index_seq().len(),
    {
        (mesh_indices(), num_indices())
    }
}

} // verus!
