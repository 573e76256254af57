use vstd::prelude::*;

verus! {

/// A key event's key, as far as the viewer tells keys apart.
#[derive(Clone, Copy, Debug, PartialEq, Eq, Structural)]
pub enum Key {
    /// A letter key, by its upper-case letter.
    Letter(char),
    Escape,
    Other,
}

/// What the viewer does on a key event, apart from camera movement.
#[derive(Clone, Copy, Debug, PartialEq, Eq, Structural)]
pub enum ViewerAction {
    Quit,
    ToggleFreeze,
    Nothing,
}

/// Escape quits on press or release; T toggles freezing when pressed.
pub open spec fn action_spec(key: Key, pressed: bool) -> ViewerAction {
    match key {
        Key::Escape => ViewerAction::Quit,
        Key::Letter(c) => if c == 'T' && pressed {
            ViewerAction::ToggleFreeze
        } else {
            ViewerAction::Nothing
        },
        Key::Other => ViewerAction::Nothing,
    }
}

/// The action that a press (`pressed`) or release of `key` triggers.
pub fn viewer_action(key: Key, pressed: bool) -> (r: ViewerAction)
    ensures
        r == action_spec(key, pressed),
{
    match key {
        Key::Escape => ViewerAction::Quit,
        Key::Letter(c) => {
            if c == 'T' && pressed {
                ViewerAction::ToggleFreeze
            } else {
                ViewerAction::Nothing
            }
        },
        Key::Other => ViewerAction::Nothing,
    }
}

} // verus!
