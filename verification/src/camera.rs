//! Camera input capture and the camera uniform.
//!
//! The camera itself — eye, target, field of view — lives in the host's
//! scalar arithmetic.  What the core owns is the part that decides: the
//! controller, which turns input events into movement-intent flags without
//! touching the camera (pure state capture, so input handling is
//! deterministic and testable), and the uniform record, which holds the
//! view-projection matrix as 32-bit words and pins the partial buffer
//! write that refreshes it on the GPU (64 bytes at offset zero, never a
//! reallocation).

use vstd::prelude::*;

use crate::pipeline::{BindGroupLayoutPlan, BindingKind, BindingPlan, Visibility};

verus! {

/// A movement direction the controller tracks.
#[derive(Clone, Copy, Debug, PartialEq, Eq, Structural)]
pub enum MoveKey {
    Forward,
    Backward,
    Left,
    Right,
}

/// An input event as the core sees it: a movement key changing state, or
/// anything else.  The host maps its window system's key codes onto
/// [`MoveKey`] before handing the event in.
#[derive(Clone, Copy, Debug, PartialEq, Eq, Structural)]
pub enum InputEvent {
    Key { key: MoveKey, pressed: bool },
    Other,
}

/// Movement intent accumulated from input, plus the speed the host should
/// apply per tick, in thousandths of a world unit.
#[derive(Clone, Copy, Debug, PartialEq, Eq, Structural)]
pub struct MoveIntent {
    pub forward: bool,
    pub backward: bool,
    pub left: bool,
    pub right: bool,
    pub speed_milli: u32,
}

/// Captures movement keys as intent flags.  It never mutates the camera;
/// the host advances the camera from [`MoveIntent`] each tick.
#[derive(Clone, Copy, Debug, PartialEq, Eq, Structural)]
pub struct CameraController {
    pub speed_milli: u32,
    pub is_forward_pressed: bool,
    pub is_backward_pressed: bool,
    pub is_left_pressed: bool,
    pub is_right_pressed: bool,
}

/// Movement speed of the reference scene, in thousandths of a world unit
/// per tick.
pub const DEFAULT_SPEED_MILLI: u32 = 200;

impl CameraController {
    /// A fresh controller: no key held, moving at `speed_milli`
    /// thousandths of a unit per tick.
    pub fn new(speed_milli: u32) -> (r: CameraController)
        ensures
            r == (CameraController {
                speed_milli,
                is_forward_pressed: false,
                is_backward_pressed: false,
                is_left_pressed: false,
                is_right_pressed: false,
            }),
    {
        CameraController {
            speed_milli,
            is_forward_pressed: false,
            is_backward_pressed: false,
            is_left_pressed: false,
            is_right_pressed: false,
        }
    }

    /// The flag a key press or release updates.
    pub open spec fn spec_flag(&self, key: MoveKey) -> bool {
        match key {
            MoveKey::Forward => self.is_forward_pressed,
            MoveKey::Backward => self.is_backward_pressed,
            MoveKey::Left => self.is_left_pressed,
            MoveKey::Right => self.is_right_pressed,
        }
    }

    /// The controller after `key`'s flag is set to `pressed`.
    pub open spec fn spec_with_flag(&self, key: MoveKey, pressed: bool) -> CameraController {
        match key {
            MoveKey::Forward => CameraController { is_forward_pressed: pressed, ..*self },
            MoveKey::Backward => CameraController { is_backward_pressed: pressed, ..*self },
            MoveKey::Left => CameraController { is_left_pressed: pressed, ..*self },
            MoveKey::Right => CameraController { is_right_pressed: pressed, ..*self },
        }
    }

    /// Consumes movement-key events by recording their state; any other
    /// event leaves the controller unchanged and is not consumed.
    pub fn process_events(&mut self, event: &InputEvent) -> (consumed: bool)
        ensures
            consumed == (*event matches InputEvent::Key { .. }),
            *event matches InputEvent::Key { key, pressed } ==> *final(self) == old(
                self,
            ).spec_with_flag(key, pressed),
            *event is Other ==> *final(self) == *old(self),
    {
        match event {
            InputEvent::Key { key: MoveKey::Forward, pressed } => {
                self.is_forward_pressed = *pressed;
                true
            },
            InputEvent::Key { key: MoveKey::Backward, pressed } => {
                self.is_backward_pressed = *pressed;
                true
            },
            InputEvent::Key { key: MoveKey::Left, pressed } => {
                self.is_left_pressed = *pressed;
                true
            },
            InputEvent::Key { key: MoveKey::Right, pressed } => {
                self.is_right_pressed = *pressed;
                true
            },
            InputEvent::Other => false,
        }
    }

    /// The movement the host should apply to the camera this tick.
    pub fn intent(&self) -> (r: MoveIntent)
        ensures
            r == (MoveIntent {
                forward: self.is_forward_pressed,
                backward: self.is_backward_pressed,
                left: self.is_left_pressed,
                right: self.is_right_pressed,
                speed_milli: self.speed_milli,
            }),
    {
        MoveIntent {
            forward: self.is_forward_pressed,
            backward: self.is_backward_pressed,
            left: self.is_left_pressed,
            right: self.is_right_pressed,
            speed_milli: self.speed_milli,
        }
    }
}

/// Bit pattern of the scalar one in the GPU's 32-bit format.
pub const ONE_BITS: u32 = 0x3F80_0000;

/// The identity matrix, column-major, as 32-bit scalar bit patterns.
pub open spec fn spec_identity_bits() -> Seq<u32> {
    Seq::new(16, |i: int| if i == 0 || i == 5 || i == 10 || i == 15 { ONE_BITS } else { 0u32 })
}

/// The view-projection uniform as the GPU sees it: sixteen 32-bit words,
/// column-major.  The host computes the words from its camera each frame
/// and refreshes them here before the uniform buffer write.
pub struct CameraUniform {
    pub view_proj_bits: Vec<u32>,
}

/// A partial write into an existing uniform buffer: `size_bytes` bytes at
/// byte `offset`.  Refreshing the camera uniform overwrites the buffer in
/// place; it never reallocates it.
#[derive(Clone, Copy, Debug, PartialEq, Eq, Structural)]
pub struct UniformWritePlan {
    pub offset: u64,
    pub size_bytes: u64,
}

impl CameraUniform {
    pub open spec fn wf(&self) -> bool {
        self.view_proj_bits@.len() == 16
    }

    /// A fresh uniform holding the identity matrix.
    pub fn new() -> (r: CameraUniform)
        ensures
            r.wf(),
            r.view_proj_bits@ == spec_identity_bits(),
    {
        let mut v: Vec<u32> = Vec::new();
        let mut i: usize = 0;
        while i < 16
            invariant
                i <= 16,
                v@.len() == i,
                forall|j: int| 0 <= j < i ==> v@[j] == spec_identity_bits()[j],
            decreases 16 - i,
        {
            if i == 0 || i == 5 || i == 10 || i == 15 {
                v.push(ONE_BITS);
            } else {
                v.push(0);
            }
            i = i + 1;
        }
        proof {
            assert(v@ =~= spec_identity_bits());
        }
        CameraUniform { view_proj_bits: v }
    }

    /// Replaces the stored matrix with the words the host computed from
    /// its camera.
    pub fn update_view_proj(&mut self, bits: &[u32])
        requires
            bits@.len() == 16,
        ensures
            final(self).wf(),
            final(self).view_proj_bits@ == bits@,
    {
        let mut v: Vec<u32> = Vec::new();
        let mut i: usize = 0;
        while i < bits.len()
            invariant
                bits@.len() == 16,
                i <= 16,
                v@.len() == i,
                forall|j: int| 0 <= j < i ==> v@[j] == bits@[j],
            decreases bits@.len() - i,
        {
            v.push(bits[i]);
            i = i + 1;
        }
        proof {
            assert(v@ =~= bits@);
        }
        self.view_proj_bits = v;
    }

    /// The buffer write that publishes the refreshed matrix: all sixteen
    /// words — 64 bytes — at offset zero of the existing uniform buffer.
    pub fn write_plan(&self) -> (r: UniformWritePlan)
        ensures
            r.offset == 0,
            r.size_bytes == 64,
    {
        UniformWritePlan { offset: 0, size_bytes: 64 }
    }
}

/// The bindings of the camera bind group: one uniform buffer at binding
/// 0, vertex-stage only.
pub open spec fn spec_camera_bindings() -> Seq<BindingPlan> {
    seq![
        BindingPlan { binding: 0, visibility: Visibility::Vertex, kind: BindingKind::UniformBuffer },
    ]
}

/// The bind group layout of the camera uniform: one uniform buffer at
/// binding 0, visible to the vertex stage only.
pub fn camera_bind_group_layout() -> (r: BindGroupLayoutPlan)
    ensures
        r.entries@ =~= spec_camera_bindings(),
{
    let mut entries: Vec<BindingPlan> = Vec::new();
    entries.push(
        BindingPlan { binding: 0, visibility: Visibility::Vertex, kind: BindingKind::UniformBuffer },
    );
    BindGroupLayoutPlan { entries }
}

} // verus!
