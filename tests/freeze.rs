use volume_view::freeze::{capture_uniforms, RenderCoordinator};

#[test]
fn starts_live_and_tracks_camera() {
    let mut rc = RenderCoordinator::new(1, 100);
    assert!(!rc.is_frozen());
    let u = rc.frame(2, 200);
    assert_eq!((u.view, u.proj, u.prev_view, u.prev_proj, u.show_texture), (2, 200, 2, 200, false));
    assert_eq!(rc.reference(), (2, 200));
}

#[test]
fn capture_pins_reference_while_frozen() {
    let mut rc = RenderCoordinator::new(0, 0);
    rc.frame(5, 50);
    let cap = rc.toggle(5, 50).unwrap();
    assert_eq!((cap.view, cap.proj, cap.prev_view, cap.prev_proj, cap.show_texture), (5, 50, 5, 50, false));
    assert!(rc.is_frozen());
    let u = rc.frame(6, 50);
    assert_eq!((u.view, u.proj, u.prev_view, u.prev_proj, u.show_texture), (6, 50, 5, 50, true));
    let u = rc.frame(9, 51);
    assert_eq!((u.view, u.proj, u.prev_view, u.prev_proj, u.show_texture), (9, 51, 5, 50, true));
    assert_eq!(rc.reference(), (5, 50));
}

#[test]
fn unfreeze_has_no_capture() {
    let mut rc = RenderCoordinator::new(0, 0);
    assert!(rc.toggle(1, 1).is_some());
    assert!(rc.toggle(2, 2).is_none());
    assert!(!rc.is_frozen());
    let u = rc.frame(3, 3);
    assert_eq!((u.prev_view, u.show_texture), (3, false));
}

#[test]
fn second_freeze_captures_second_state() {
    let mut rc = RenderCoordinator::new(0, 0);
    let first = rc.toggle(10, 1).unwrap();
    assert_eq!(first.view, 10);
    rc.frame(11, 1);
    rc.frame(12, 1);
    assert!(rc.toggle(13, 1).is_none());
    rc.frame(14, 1);
    let second = rc.toggle(15, 2).unwrap();
    assert_eq!((second.view, second.proj, second.prev_view, second.prev_proj), (15, 2, 15, 2));
    let u = rc.frame(16, 2);
    assert_eq!((u.view, u.prev_view, u.prev_proj, u.show_texture), (16, 15, 2, true));
}

#[test]
fn works_with_float_matrices() {
    let a: [[f32; 4]; 4] = [[1.0, 0.0, 0.0, 0.0], [0.0, 1.0, 0.0, 0.0], [0.0, 0.0, 1.0, 0.0], [0.0, 0.0, 0.0, 1.0]];
    let mut b = a;
    b[3][2] = -2.5;
    let mut rc = RenderCoordinator::new(a, a);
    rc.toggle(a, a);
    let u = rc.frame(b, a);
    assert_eq!(u.view, b);
    assert_eq!(u.prev_view, a);
}

#[test]
fn capture_is_a_plain_render() {
    let u = capture_uniforms(7, 8);
    assert_eq!((u.view, u.proj, u.prev_view, u.prev_proj, u.show_texture), (7, 8, 7, 8, false));
}
