use iso_minimap::plugin::render_hooks::{IsoHookState, MulAction, RotateAction};

#[test]
fn hooks_start_with_nothing_found() {
    let s = IsoHookState::new();
    assert!(!s.first_in_render);
    assert_eq!(s.iso_transform, None);
    assert!(!s.about_to_call_mul);
    assert!(s.mul_hooked);
    assert!(s.rotate_hooked);
}

#[test]
fn tilt_then_mul_finds_iso_transform() {
    let mut s = IsoHookState::new();
    assert_eq!(s.matrix_rotate_x(false), RotateAction::RotateUnhooked);
    assert!(!s.about_to_call_mul);
    assert_eq!(s.matrix_mul(0x1000), MulAction::ForwardThenMultiply);
    assert_eq!(s.iso_transform, None);
    assert_eq!(s.matrix_rotate_x(true), RotateAction::UnhookThenRotate);
    assert!(s.about_to_call_mul);
    assert!(!s.rotate_hooked);
    assert_eq!(s.matrix_mul(0x2000), MulAction::UnhookThenMultiply);
    assert_eq!(s.iso_transform, Some(0x2000));
    assert!(!s.about_to_call_mul);
    assert!(!s.mul_hooked);
}

#[test]
fn draws_once_per_render_on_iso_view_load() {
    let mut s = IsoHookState::new();
    s.matrix_rotate_x(true);
    s.matrix_mul(0x2000);
    // not rendered yet
    assert!(!s.load_matrix(true, 0x2000));
    s.render_model();
    assert!(s.first_in_render);
    // another matrix, or the iso matrix loaded as something else
    assert!(!s.load_matrix(true, 0x3000));
    assert!(!s.load_matrix(false, 0x2000));
    assert!(s.first_in_render);
    assert!(s.load_matrix(true, 0x2000));
    assert!(!s.first_in_render);
    // at most once until the model is rendered again
    assert!(!s.load_matrix(true, 0x2000));
    s.render_model();
    assert!(s.load_matrix(true, 0x2000));
}

#[test]
fn no_draw_before_iso_found() {
    let mut s = IsoHookState::new();
    s.render_model();
    assert!(!s.load_matrix(true, 0));
    assert!(s.first_in_render);
}

#[test]
fn mul_without_tilt_keeps_state() {
    let mut s = IsoHookState::new();
    s.render_model();
    let before = s;
    assert_eq!(s.matrix_mul(42), MulAction::ForwardThenMultiply);
    assert_eq!(s, before);
}
