//! Behaviour of the render state core: surface configuration, resize
//! handling, the frame protocol, and input capture.

use render_core::camera::{InputEvent, MoveKey};
use render_core::events::{handle_signal, LoopAction, WindowSignal};
use render_core::frame::{AcquireOutcome, BindGroupRef, FramePlan, FrameStage, FrameStep,
    VertexBufferRef};
use render_core::state::State;
use render_core::pipeline::{BindingKind, PixelFormat, Visibility};
use render_core::surface::{choose_format_index, configure_surface, instance_request, SurfaceCaps};
use render_core::FrameSize;

fn caps(format_srgb: Vec<bool>) -> SurfaceCaps {
    SurfaceCaps { format_srgb, present_mode_count: 2, alpha_mode_count: 1 }
}

#[test]
fn init_mirrors_window_size_and_prefers_srgb() {
    let c = caps(vec![false, false, true, true]);
    let s = State::new(&c, FrameSize::new(450, 400));
    assert_eq!(s.config.width, 450);
    assert_eq!(s.config.height, 400);
    assert_eq!(s.config.format_index, 2);
    assert!(s.config.format_is_srgb);
    assert_eq!(s.config.present_mode_index, 0);
    assert_eq!(s.config.alpha_mode_index, 0);
    assert_eq!(s.config.desired_maximum_frame_latency, 2);
    assert!(s.config.usage_render_attachment);
    assert!(s.config.view_formats_empty);
}

#[test]
fn init_falls_back_to_first_format_without_srgb() {
    let c = caps(vec![false, false]);
    let s = State::new(&c, FrameSize::new(450, 400));
    assert_eq!(s.config.format_index, 0);
    assert!(!s.config.format_is_srgb);
}

#[test]
fn format_choice_picks_first_srgb_entry() {
    assert_eq!(choose_format_index(&vec![true, false, true]), 0);
    assert_eq!(choose_format_index(&vec![false, true]), 1);
    assert_eq!(choose_format_index(&vec![false, false, false]), 0);
}

#[test]
fn configure_surface_reports_exact_size() {
    let c = caps(vec![true]);
    let cfg = configure_surface(&c, FrameSize::new(1, 1));
    assert_eq!((cfg.width, cfg.height), (1, 1));
}

#[test]
fn resize_updates_size_config_and_aspect() {
    let c = caps(vec![true]);
    let mut s = State::new(&c, FrameSize::new(450, 400));
    let reconfigure = s.resize(FrameSize::new(8, 2));
    assert!(reconfigure);
    assert_eq!(s.size, FrameSize::new(8, 2));
    assert_eq!((s.config.width, s.config.height), (8, 2));
    let (w, h) = s.aspect_ratio();
    assert_eq!((w, h), (8, 2));
    assert_eq!(w as f32 / h as f32, 4.0);
}

#[test]
fn resize_to_largest_size_is_exact() {
    let c = caps(vec![true]);
    let mut s = State::new(&c, FrameSize::new(450, 400));
    assert!(s.resize(FrameSize::new(u32::MAX, u32::MAX)));
    assert_eq!(s.aspect_ratio(), (u32::MAX, u32::MAX));
}

#[test]
fn resize_with_zero_width_is_a_no_op() {
    let c = caps(vec![true]);
    let mut s = State::new(&c, FrameSize::new(450, 400));
    let reconfigure = s.resize(FrameSize::new(0, 300));
    assert!(!reconfigure);
    assert_eq!(s.size, FrameSize::new(450, 400));
    assert_eq!((s.config.width, s.config.height), (450, 400));
}

#[test]
fn resize_with_zero_height_is_a_no_op() {
    let c = caps(vec![true]);
    let mut s = State::new(&c, FrameSize::new(450, 400));
    let reconfigure = s.resize(FrameSize::new(300, 0));
    assert!(!reconfigure);
    assert_eq!(s.size, FrameSize::new(450, 400));
    assert_eq!((s.config.width, s.config.height), (450, 400));
}

#[test]
fn resize_then_render_draws_full_ranges() {
    let c = caps(vec![false, true]);
    let mut s = State::new(&c, FrameSize::new(450, 400));
    assert!(s.resize(FrameSize::new(7, 3)));
    match s.render(AcquireOutcome::Success) {
        FramePlan::Draw(d) => {
            assert_eq!(d.index_count, 9);
            assert_eq!(d.instance_count, 100);
            assert!(d.index_format_u16);
            assert_eq!(
                d.bind_groups,
                vec![BindGroupRef::DiffuseTexture, BindGroupRef::CameraUniform]
            );
            assert_eq!(
                d.vertex_buffers,
                vec![VertexBufferRef::MeshVertices, VertexBufferRef::InstanceTransforms]
            );
            assert_eq!(
                (
                    d.clear_color.r_tenths,
                    d.clear_color.g_tenths,
                    d.clear_color.b_tenths,
                    d.clear_color.a_tenths
                ),
                (1, 2, 3, 10)
            );
        }
        _ => panic!("a successful acquire must draw"),
    }
}

#[test]
fn lost_surface_reconfigures_at_last_size_without_drawing() {
    let c = caps(vec![true]);
    let mut s = State::new(&c, FrameSize::new(450, 400));
    assert!(s.resize(FrameSize::new(640, 480)));
    match s.render(AcquireOutcome::Lost) {
        FramePlan::Reconfigure(size) => assert_eq!(size, FrameSize::new(640, 480)),
        _ => panic!("a lost surface must reconfigure and skip the frame"),
    }
    match s.render(AcquireOutcome::Outdated) {
        FramePlan::Reconfigure(size) => assert_eq!(size, FrameSize::new(640, 480)),
        _ => panic!("an outdated surface must reconfigure and skip the frame"),
    }
}

#[test]
fn out_of_memory_is_fatal_and_timeout_skips() {
    let c = caps(vec![true]);
    let s = State::new(&c, FrameSize::new(450, 400));
    assert!(matches!(s.render(AcquireOutcome::OutOfMemory), FramePlan::Fatal));
    assert!(matches!(s.render(AcquireOutcome::Timeout), FramePlan::SkipFrame));
}

#[test]
fn input_captures_movement_keys_without_touching_the_rest() {
    let c = caps(vec![true]);
    let mut s = State::new(&c, FrameSize::new(450, 400));
    assert!(s.input(&InputEvent::Key { key: MoveKey::Forward, pressed: true }));
    assert!(s.input(&InputEvent::Key { key: MoveKey::Left, pressed: true }));
    assert!(!s.input(&InputEvent::Other));
    assert!(s.camera_controller.is_forward_pressed);
    assert!(s.camera_controller.is_left_pressed);
    assert!(!s.camera_controller.is_backward_pressed);
    assert!(!s.camera_controller.is_right_pressed);
    assert!(s.input(&InputEvent::Key { key: MoveKey::Forward, pressed: false }));
    assert!(!s.camera_controller.is_forward_pressed);
    assert_eq!((s.config.width, s.config.height), (450, 400));
}

#[test]
fn update_reports_intent_and_partial_uniform_write() {
    let c = caps(vec![true]);
    let mut s = State::new(&c, FrameSize::new(450, 400));
    s.input(&InputEvent::Key { key: MoveKey::Backward, pressed: true });
    let (intent, write) = s.update();
    assert!(intent.backward);
    assert!(!intent.forward);
    assert_eq!(intent.speed_milli, 200);
    assert_eq!(write.offset, 0);
    assert_eq!(write.size_bytes, 64);
}

#[test]
fn stored_view_proj_words_are_kept_verbatim() {
    let c = caps(vec![true]);
    let mut s = State::new(&c, FrameSize::new(450, 400));
    let one = 0x3F80_0000u32;
    let expected: Vec<u32> = (0..16u32)
        .map(|i| if i % 5 == 0 { one } else { 0 })
        .collect();
    assert_eq!(s.camera_uniform.view_proj_bits, expected);
    let bits: Vec<u32> = (0..16u32).collect();
    s.update_view_proj(&bits);
    assert_eq!(s.camera_uniform.view_proj_bits, bits);
}

#[test]
fn static_buffers_hold_the_mesh_indices() {
    let (indices, count) = State::create_buffers();
    assert_eq!(indices, vec![0, 1, 4, 1, 2, 4, 2, 3, 4]);
    assert_eq!(count, 9);
    assert!(indices.iter().all(|&i| i < 5));
}

#[test]
fn frame_stage_machine_walks_the_protocol_once() {
    let mut stage = FrameStage::Idle;
    for step in [
        FrameStep::Acquire,
        FrameStep::RecordPass,
        FrameStep::Submit,
        FrameStep::Present,
        FrameStep::Collapse,
    ] {
        stage = stage.step(step).expect("legal step");
    }
    assert_eq!(stage, FrameStage::Idle);
    assert_eq!(FrameStage::Idle.step(FrameStep::Recover), Some(FrameStage::Idle));
    assert_eq!(FrameStage::Idle.step(FrameStep::Submit), None);
    assert_eq!(FrameStage::FrameAcquired.step(FrameStep::Present), None);
}

#[test]
fn window_signals_dispatch_to_their_actions() {
    assert_eq!(handle_signal(&WindowSignal::CloseRequested), LoopAction::Leave);
    assert_eq!(
        handle_signal(&WindowSignal::Resized(FrameSize::new(640, 480))),
        LoopAction::ApplyResize(FrameSize::new(640, 480))
    );
    assert_eq!(handle_signal(&WindowSignal::RedrawRequested), LoopAction::RedrawFrame);
    assert_eq!(handle_signal(&WindowSignal::TimerTick), LoopAction::AskRedraw);
    assert_eq!(handle_signal(&WindowSignal::Other), LoopAction::Ignore);
}

#[test]
fn instance_request_asks_for_all_backends() {
    assert!(instance_request().all_backends);
}

#[test]
fn pipeline_plan_matches_surface_format_and_draw_bind_order() {
    let c = caps(vec![false, true, false]);
    let s = State::new(&c, FrameSize::new(450, 400));
    let p = s.pipeline_plan();
    assert_eq!(p.shader_filename, "vertex.wgsl");
    assert_eq!(p.vertex_entry, "vs_main");
    assert_eq!(p.fragment_entry, "fs_main");
    assert_eq!(
        p.color_target.format,
        PixelFormat::Reported { format_index: s.config.format_index }
    );
    assert_eq!(s.config.format_index, 1);
    // Layout slot order mirrors the draw's bind group order: the sampled
    // texture at group 0, the camera uniform at group 1.
    assert_eq!(p.bind_group_layouts.len(), 2);
    assert_eq!(p.bind_group_layouts[0].entries.len(), 2);
    assert_eq!(
        p.bind_group_layouts[0].entries[0].kind,
        BindingKind::Texture2dFloatFilterable
    );
    assert_eq!(p.bind_group_layouts[0].entries[1].kind, BindingKind::FilteringSampler);
    assert_eq!(p.bind_group_layouts[1].entries.len(), 1);
    assert_eq!(p.bind_group_layouts[1].entries[0].kind, BindingKind::UniformBuffer);
    assert_eq!(p.bind_group_layouts[1].entries[0].visibility, Visibility::Vertex);
    // The attribute lists come through the composition pinned.
    assert_eq!(p.vertex_buffers.len(), 2);
    assert_eq!(p.vertex_buffers[0].attributes.len(), 2);
    assert_eq!(p.vertex_buffers[1].attributes.len(), 4);
    assert_eq!(p.vertex_buffers[1].attributes[0].shader_location, 5);
}
