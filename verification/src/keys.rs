//! Keyboard input as the core sees it.

use vstd::prelude::*;

verus! {

/// A physical key, reduced to the classes that matter to the assistant.
#[derive(Clone, Copy, Debug, PartialEq, Eq, Structural)]
pub enum Key {
    /// The left control key.
    ControlLeft,
    /// The right control key.
    ControlRight,
    /// The space bar: the trigger key.
    Space,
    /// The escape key: the cancel key.
    Escape,
    /// Any other key.
    Other,
}

/// A key going down or coming up.
#[derive(Clone, Copy, Debug, PartialEq, Eq, Structural)]
pub enum KeyEvent {
    /// The key was pressed.
    Press(Key),
    /// The key was released.
    Release(Key),
}

impl Key {
    /// Whether this is one of the control keys, the modifier of the hotkey.
    pub open spec fn is_control(self) -> bool {
        self == Key::ControlLeft || self == Key::ControlRight
    }

    /// Whether this is one of the control keys.
    #[verifier::when_used_as_spec(is_control)]
    pub fn check_control(self) -> (control: bool)
        ensures
            control == self.is_control(),
    {
        match self {
            Key::ControlLeft | Key::ControlRight => true,
            _ => false,
        }
    }
}

impl KeyEvent {
    /// The key that went down or came up.
    pub open spec fn key(self) -> Key {
        match self {
            KeyEvent::Press(key) => key,
            KeyEvent::Release(key) => key,
        }
    }

    /// Whether a control key went down.
    pub open spec fn is_control_press(self) -> bool {
        self matches KeyEvent::Press(key) && key.is_control()
    }

    /// Whether a control key came up.
    pub open spec fn is_control_release(self) -> bool {
        self matches KeyEvent::Release(key) && key.is_control()
    }

    /// Whether the event concerns a control key at all.
    pub open spec fn is_control_event(self) -> bool {
        self.key().is_control()
    }
}

} // verus!
