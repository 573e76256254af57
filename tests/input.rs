use volume_view::input::{viewer_action, Key, ViewerAction};

#[test]
fn escape_quits_on_press_and_release() {
    assert_eq!(viewer_action(Key::Escape, true), ViewerAction::Quit);
    assert_eq!(viewer_action(Key::Escape, false), ViewerAction::Quit);
}

#[test]
fn t_press_toggles_freeze() {
    assert_eq!(viewer_action(Key::Letter('T'), true), ViewerAction::ToggleFreeze);
    assert_eq!(viewer_action(Key::Letter('T'), false), ViewerAction::Nothing);
}

#[test]
fn other_keys_do_nothing() {
    assert_eq!(viewer_action(Key::Letter('W'), true), ViewerAction::Nothing);
    assert_eq!(viewer_action(Key::Letter('t'), true), ViewerAction::Nothing);
    assert_eq!(viewer_action(Key::Other, true), ViewerAction::Nothing);
}
