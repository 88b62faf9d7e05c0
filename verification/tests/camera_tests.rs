//! Behaviour of the camera controller and the camera uniform.

use render_core::camera::{
    CameraController, CameraUniform, InputEvent, MoveKey, DEFAULT_SPEED_MILLI,
};

#[test]
fn controller_starts_with_no_intent() {
    let c = CameraController::new(DEFAULT_SPEED_MILLI);
    let i = c.intent();
    assert!(!i.forward && !i.backward && !i.left && !i.right);
    assert_eq!(i.speed_milli, 200);
}

#[test]
fn press_and_release_toggle_exactly_one_flag() {
    let mut c = CameraController::new(150);
    for key in [MoveKey::Forward, MoveKey::Backward, MoveKey::Left, MoveKey::Right] {
        assert!(c.process_events(&InputEvent::Key { key, pressed: true }));
    }
    let i = c.intent();
    assert!(i.forward && i.backward && i.left && i.right);
    assert!(c.process_events(&InputEvent::Key { key: MoveKey::Right, pressed: false }));
    let i = c.intent();
    assert!(i.forward && i.backward && i.left && !i.right);
    assert_eq!(i.speed_milli, 150);
}

#[test]
fn unrelated_events_are_not_consumed() {
    let mut c = CameraController::new(200);
    assert!(!c.process_events(&InputEvent::Other));
    assert_eq!(c, CameraController::new(200));
}

#[test]
fn fresh_uniform_is_the_identity_matrix() {
    let u = CameraUniform::new();
    let one = 1.0f32.to_bits();
    for (i, &w) in u.view_proj_bits.iter().enumerate() {
        if i % 5 == 0 {
            assert_eq!(w, one);
        } else {
            assert_eq!(w, 0);
            assert_eq!(f32::from_bits(w), 0.0);
        }
    }
}

#[test]
fn refresh_replaces_the_matrix_words() {
    let mut u = CameraUniform::new();
    let bits: Vec<u32> = (100..116u32).collect();
    u.update_view_proj(&bits);
    assert_eq!(u.view_proj_bits, bits);
    let plan = u.write_plan();
    assert_eq!(plan.offset, 0);
    assert_eq!(plan.size_bytes, 64);
}
