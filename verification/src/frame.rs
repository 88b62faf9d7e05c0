//! The per-frame submission protocol.
//!
//! Each redraw tick the host asks the surface for the next image and
//! reports the outcome; the core answers with a [`FramePlan`] saying what
//! the frame does: record and submit one render pass and present the
//! image, reconfigure the surface and skip the frame, skip the frame, or
//! terminate.  The plan carries counts by construction — a successful
//! frame holds exactly one pass, one submission and one present, and a
//! recovery frame holds exactly one reconfiguration and no GPU work — and
//! the stage machine below pins the order those steps may happen in.

use vstd::prelude::*;

use crate::FrameSize;

verus! {

/// What acquiring the next swapchain image came to.  The host maps the
/// graphics API's surface error onto the matching variant.
#[derive(Clone, Copy, Debug, PartialEq, Eq, Structural)]
pub enum AcquireOutcome {
    /// An image was acquired; the frame can be drawn.
    Success,
    /// The surface is lost; it must be reconfigured before the next frame.
    Lost,
    /// The surface no longer matches the window; reconfigure likewise.
    Outdated,
    /// The device is out of memory; this is fatal.
    OutOfMemory,
    /// The image did not arrive in time; skip this frame.
    Timeout,
}

/// The pass's clear color, in tenths: the fixed background
/// (0.1, 0.2, 0.3, 1.0).
#[derive(Clone, Copy, Debug, PartialEq, Eq, Structural)]
pub struct ClearColor {
    pub r_tenths: u8,
    pub g_tenths: u8,
    pub b_tenths: u8,
    pub a_tenths: u8,
}

/// The background every frame clears to.
pub open spec fn spec_background() -> ClearColor {
    ClearColor { r_tenths: 1, g_tenths: 2, b_tenths: 3, a_tenths: 10 }
}

pub fn background() -> (r: ClearColor)
    ensures
        r == spec_background(),
{
    ClearColor { r_tenths: 1, g_tenths: 2, b_tenths: 3, a_tenths: 10 }
}

/// The bind groups a draw binds, by role.
#[derive(Clone, Copy, Debug, PartialEq, Eq, Structural)]
pub enum BindGroupRef {
    /// The diffuse texture and its sampler.
    DiffuseTexture,
    /// The camera's view-projection uniform.
    CameraUniform,
}

/// The vertex buffers a draw binds, by role.
#[derive(Clone, Copy, Debug, PartialEq, Eq, Structural)]
pub enum VertexBufferRef {
    /// The static mesh's per-vertex data.
    MeshVertices,
    /// The packed per-instance transforms.
    InstanceTransforms,
}

/// One recorded render pass with its single indexed draw call.
pub struct DrawPlan {
    pub clear_color: ClearColor,
    /// Bind groups in slot order: slot 0, then slot 1.
    pub bind_groups: Vec<BindGroupRef>,
    /// Vertex buffers in slot order: slot 0, then slot 1.
    pub vertex_buffers: Vec<VertexBufferRef>,
    /// The index buffer holds 16-bit indices.
    pub index_format_u16: bool,
    /// The draw spans indices `0 .. index_count` ...
    pub index_count: u32,
    /// ... across instances `0 .. instance_count`.
    pub instance_count: u32,
}

/// What one call of the renderer does for one redraw tick.
pub enum FramePlan {
    /// Record one pass, submit the one command buffer, present the image.
    Draw(DrawPlan),
    /// Reconfigure the surface at the given size and skip this frame;
    /// the next redraw tick retries naturally.
    Reconfigure(FrameSize),
    /// Skip this frame after logging; the loop continues.
    SkipFrame,
    /// Unrecoverable; the hosting process must terminate abnormally.
    Fatal,
}

impl FramePlan {
    /// How many surface reconfigurations the plan performs.
    pub open spec fn reconfigure_count(&self) -> nat {
        if self is Reconfigure {
            1
        } else {
            0
        }
    }

    /// How many render passes the plan records.
    pub open spec fn pass_count(&self) -> nat {
        if self is Draw {
            1
        } else {
            0
        }
    }

    /// How many command buffers the plan submits.
    pub open spec fn submit_count(&self) -> nat {
        if self is Draw {
            1
        } else {
            0
        }
    }

    /// How many times the plan presents an image.
    pub open spec fn present_count(&self) -> nat {
        if self is Draw {
            1
        } else {
            0
        }
    }

    /// How many draw calls the plan issues.
    pub open spec fn draw_call_count(&self) -> nat {
        if self is Draw {
            1
        } else {
            0
        }
    }
}

/// A successful frame performs exactly one render pass, one command-buffer
/// submission, one draw call and one present, and never reconfigures the
/// surface.
pub proof fn lemma_successful_frame_protocol(p: FramePlan)
    requires
        p is Draw,
    ensures
        p.pass_count() == 1,
        p.submit_count() == 1,
        p.draw_call_count() == 1,
        p.present_count() == 1,
        p.reconfigure_count() == 0,
{
}

/// A recovery frame performs exactly one surface reconfiguration and no
/// GPU work at all: no pass, no submission, no draw call, no present.
pub proof fn lemma_recovery_frame_protocol(p: FramePlan)
    requires
        p is Reconfigure,
    ensures
        p.reconfigure_count() == 1,
        p.pass_count() == 0,
        p.submit_count() == 0,
        p.draw_call_count() == 0,
        p.present_count() == 0,
{
}

/// Where a frame stands while the host executes a plan.
#[derive(Clone, Copy, Debug, PartialEq, Eq, Structural)]
pub enum FrameStage {
    Idle,
    FrameAcquired,
    PassRecorded,
    Submitted,
    Presented,
}

/// A step the host takes while executing a plan.
#[derive(Clone, Copy, Debug, PartialEq, Eq, Structural)]
pub enum FrameStep {
    /// The next swapchain image was acquired.
    Acquire,
    /// Acquisition failed recoverably; the frame is abandoned.
    Recover,
    /// The render pass was recorded and ended.
    RecordPass,
    /// The command buffer was submitted.
    Submit,
    /// The acquired image was presented.
    Present,
    /// The finished frame collapses back to idle.
    Collapse,
}

impl FrameStage {
    /// The legal transitions of one frame: `Idle` to `Presented` in
    /// order on success, or back to `Idle` on a recoverable failure;
    /// anything else violates the protocol.
    pub open spec fn spec_step(self, step: FrameStep) -> Option<FrameStage> {
        match (self, step) {
            (FrameStage::Idle, FrameStep::Acquire) => Some(FrameStage::FrameAcquired),
            (FrameStage::Idle, FrameStep::Recover) => Some(FrameStage::Idle),
            (FrameStage::FrameAcquired, FrameStep::RecordPass) => Some(FrameStage::PassRecorded),
            (FrameStage::PassRecorded, FrameStep::Submit) => Some(FrameStage::Submitted),
            (FrameStage::Submitted, FrameStep::Present) => Some(FrameStage::Presented),
            (FrameStage::Presented, FrameStep::Collapse) => Some(FrameStage::Idle),
            _ => None,
        }
    }

    /// Advances the frame by one step, or reports a protocol violation.
    pub fn step(self, step: FrameStep) -> (r: Option<FrameStage>)
        ensures
            r == self.spec_step(step),
    {
        match (self, step) {
            (FrameStage::Idle, FrameStep::Acquire) => Some(FrameStage::FrameAcquired),
            (FrameStage::Idle, FrameStep::Recover) => Some(FrameStage::Idle),
            (FrameStage::FrameAcquired, FrameStep::RecordPass) => Some(FrameStage::PassRecorded),
            (FrameStage::PassRecorded, FrameStep::Submit) => Some(FrameStage::Submitted),
            (FrameStage::Submitted, FrameStep::Present) => Some(FrameStage::Presented),
            (FrameStage::Presented, FrameStep::Collapse) => Some(FrameStage::Idle),
            _ => None,
        }
    }
}

/// Runs a sequence of steps from a stage; `None` as soon as one step is
/// illegal.
pub open spec fn spec_run(stage: FrameStage, steps: Seq<FrameStep>) -> Option<FrameStage>
    decreases steps.len(),
{
    if steps.len() == 0 {
        Some(stage)
    } else {
        match stage.spec_step(steps[0]) {
            Some(next) => spec_run(next, steps.drop_first()),
            None => None,
        }
    }
}

/// The steps of a successful frame, in the only legal order.
pub open spec fn spec_success_steps() -> Seq<FrameStep> {
    seq![
        FrameStep::Acquire,
        FrameStep::RecordPass,
        FrameStep::Submit,
        FrameStep::Present,
        FrameStep::Collapse,
    ]
}

/// A full successful frame walks `Idle`, `FrameAcquired`, `PassRecorded`,
/// `Submitted`, `Presented` and collapses back to `Idle`; a recoverable
/// acquisition failure returns to `Idle` at once.
pub proof fn lemma_frame_stage_round_trip()
    ensures
        spec_run(FrameStage::Idle, spec_success_steps()) == Some(FrameStage::Idle),
        spec_run(FrameStage::Idle, seq![FrameStep::Recover]) == Some(FrameStage::Idle),
{
    reveal_with_fuel(spec_run, 7);
    let s = spec_success_steps();
    assert(s.drop_first() =~= seq![
        FrameStep::RecordPass,
        FrameStep::Submit,
        FrameStep::Present,
        FrameStep::Collapse,
    ]);
    assert(s.drop_first().drop_first() =~= seq![
        FrameStep::Submit,
        FrameStep::Present,
        FrameStep::Collapse,
    ]);
    assert(s.drop_first().drop_first().drop_first() =~= seq![
        FrameStep::Present,
        FrameStep::Collapse,
    ]);
    assert(s.drop_first().drop_first().drop_first().drop_first() =~= seq![FrameStep::Collapse]);
    assert(s.drop_first().drop_first().drop_first().drop_first().drop_first()
        =~= Seq::<FrameStep>::empty());
    assert(seq![FrameStep::Recover].drop_first() =~= Seq::<FrameStep>::empty());
}

} // verus!
